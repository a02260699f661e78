use bevy_prng::WyRand;
use dino_runner::texture::{
    draw_texture, fill_all, generate_cactus, paint_cactus, patches, plan, Patch, Rect, Rgba,
    Texture, TEXTURE_DRAWS,
};
use rand_core::{RngCore, SeedableRng};

const GREEN: [u8; 4] = [0, 20, 0, 255];
const ORANGE: [u8; 4] = [255, 100, 0, 255];

fn pixel(texture: &Texture, x: u32, y: u32) -> [u8; 4] {
    let at = ((y * texture.width + x) * 4) as usize;
    [texture.data[at], texture.data[at + 1], texture.data[at + 2], texture.data[at + 3]]
}

fn paint(data: &mut [u8], width: u32, x: u32, y: u32, w: u32, h: u32, color: [u8; 4]) {
    for row in y..y + h {
        for column in x..x + w {
            let at = ((row * width + column) * 4) as usize;
            data[at..at + 4].copy_from_slice(&color);
        }
    }
}

/// The picture, painted rectangle by rectangle.
fn by_hand(width: u32, height: u32, draws: &[u32]) -> Vec<u8> {
    let mut data = vec![0u8; (width * height * 4) as usize];
    let mut next = draws.iter().copied();
    let trunk_width = width / 6;
    let trunk_height = height * 2 / 3;
    let trunk_x = (width - trunk_width) / 2;
    let trunk_y = height - trunk_height;
    let top_width = trunk_width * 3 / 4;
    let top_height = trunk_y / 7;
    paint(&mut data, width, trunk_x, trunk_y, trunk_width, trunk_height, GREEN);
    paint(&mut data, width, (width - top_width) / 2, trunk_y - top_height, top_width, top_height, GREEN);
    let arm_width = trunk_width * 3 / 4;
    let arm_height = trunk_height / 4;
    let square = arm_height / 2;
    let arm_y_min = trunk_y + trunk_height / 5;
    let arm_y_max = trunk_y + trunk_height * 9 / 10 - arm_height;
    let tall_width = trunk_width * 2 / 3;
    let tall_height = arm_height * 3 / 2;
    let top_square = 3 * square / 4;
    let left = arm_y_min + next.next().unwrap() % (arm_y_max - arm_y_min);
    let right = arm_y_min + next.next().unwrap() % (arm_y_max - arm_y_min);
    let left_square_x = trunk_x - arm_width - square;
    let left_tall_x = left_square_x + square - tall_width;
    let left_tall_y = left + square / 2 - tall_height;
    paint(&mut data, width, trunk_x - arm_width, left, arm_width, arm_height, GREEN);
    paint(&mut data, width, left_square_x, left + square / 2, square, square, GREEN);
    paint(&mut data, width, left_tall_x, left_tall_y, tall_width, tall_height, GREEN);
    paint(
        &mut data,
        width,
        left_tall_x + (tall_width - top_square) / 2,
        left_tall_y - top_square,
        top_square,
        top_square,
        GREEN,
    );
    let right_square_x = trunk_x + trunk_width + arm_width;
    let right_tall_y = right + square / 2 - tall_height;
    paint(&mut data, width, trunk_x + trunk_width, right, arm_width, arm_height, GREEN);
    paint(&mut data, width, right_square_x, right + square / 2, square, square, GREEN);
    paint(&mut data, width, right_square_x, right_tall_y, tall_width, tall_height, GREEN);
    paint(
        &mut data,
        width,
        right_square_x + (tall_width - top_square) / 2,
        right_tall_y - top_square,
        top_square,
        top_square,
        GREEN,
    );
    for i in 0..5 {
        let x = trunk_x + next.next().unwrap() % (trunk_width - 3);
        paint(&mut data, width, x, trunk_y + trunk_height * i / 5 - 1, 3, 3, ORANGE);
    }
    for _ in 0..2 {
        let x = trunk_x - arm_width + next.next().unwrap() % (arm_width - 3);
        let y = left + next.next().unwrap() % (arm_height - 3);
        paint(&mut data, width, x, y, 3, 3, ORANGE);
    }
    for _ in 0..2 {
        let x = trunk_x + trunk_width + next.next().unwrap() % (arm_width - 3);
        let y = right + next.next().unwrap() % (arm_height - 3);
        paint(&mut data, width, x, y, 3, 3, ORANGE);
    }
    let x = left_tall_x + next.next().unwrap() % (tall_width - 3);
    let y = left_tall_y + next.next().unwrap() % (tall_height - 3);
    paint(&mut data, width, x, y, 3, 3, ORANGE);
    let x = right_square_x + next.next().unwrap() % (tall_width - 3);
    let y = right_tall_y + next.next().unwrap() % (tall_height - 3);
    paint(&mut data, width, x, y, 3, 3, ORANGE);
    data
}

#[test]
fn a_blank_picture_shows_nothing() {
    let texture = Texture::blank(5, 3);
    assert_eq!((texture.width, texture.height), (5, 3));
    assert_eq!(texture.data, vec![0u8; 60]);
    assert!(Texture::blank(0, 7).data.is_empty());
}

#[test]
fn a_patch_paints_its_pixels_and_no_others() {
    let mut texture = Texture::blank(4, 3);
    let red = Rgba { r: 9, g: 8, b: 7, a: 6 };
    texture.fill(&Patch { rect: Rect { x: 1, y: 1, width: 2, height: 2 }, color: red });
    for y in 0..3 {
        for x in 0..4 {
            let inside = (1..3).contains(&x) && (1..3).contains(&y);
            assert_eq!(pixel(&texture, x, y), if inside { [9, 8, 7, 6] } else { [0, 0, 0, 0] });
        }
    }
    let before = texture.data.clone();
    texture.fill(&Patch { rect: Rect { x: 4, y: 3, width: 0, height: 0 }, color: red });
    texture.fill(&Patch { rect: Rect { x: 0, y: 0, width: 4, height: 0 }, color: red });
    assert_eq!(texture.data, before);
}

#[test]
fn later_patches_show_over_earlier_ones() {
    let mut texture = Texture::blank(3, 1);
    let one = Rgba { r: 1, g: 1, b: 1, a: 1 };
    let two = Rgba { r: 2, g: 2, b: 2, a: 2 };
    fill_all(
        &mut texture,
        &vec![
            Patch { rect: Rect { x: 0, y: 0, width: 2, height: 1 }, color: one },
            Patch { rect: Rect { x: 1, y: 0, width: 2, height: 1 }, color: two },
        ],
    );
    assert_eq!(texture.data, vec![1, 1, 1, 1, 2, 2, 2, 2, 2, 2, 2, 2]);
}

#[test]
fn the_measures_follow_the_size_of_the_picture() {
    let m = plan(256, 256).unwrap();
    assert_eq!((m.trunk_width, m.trunk_height, m.trunk_x, m.trunk_y), (42, 170, 107, 86));
    assert_eq!((m.top_width, m.top_height, m.top_x, m.top_y), (31, 12, 112, 74));
    assert_eq!((m.arm_width, m.arm_height, m.square_size), (31, 42, 21));
    assert_eq!((m.arm_y_min, m.arm_y_span), (120, 77));
    assert_eq!((m.tall_width, m.tall_height, m.top_square_size), (28, 63, 15));
}

#[test]
fn a_picture_without_room_for_the_cactus_is_refused() {
    assert_eq!(plan(0, 0), None);
    assert_eq!(plan(24, 24), None);
    assert_eq!(plan(256, 10), None);
    assert_eq!(plan(10, 256), None);
    assert_eq!(plan(97, 211), None);
    assert_eq!(plan(65_536, 65_536), None);
    assert_eq!(plan(u32::MAX, u32::MAX), None);
    assert!(plan(64, 64).is_some());
    assert!(plan(32_768, 32_767).is_some());
    assert_eq!(plan(32_768, 32_768), None);
    assert_eq!(paint_cactus(24, 24, &vec![0; 19]), None);
    let mut rng = WyRand::seed_from_u64(1);
    let mut untouched = WyRand::seed_from_u64(1);
    assert_eq!(generate_cactus(24, 24, &mut rng), None);
    assert_eq!(rng.next_u32(), untouched.next_u32());
}

#[test]
fn a_picture_takes_nineteen_draws() {
    assert_eq!(TEXTURE_DRAWS, 19);
    assert_eq!(paint_cactus(256, 256, &vec![0; 18]), None);
    assert_eq!(paint_cactus(256, 256, &vec![0; 20]), None);
    assert!(paint_cactus(256, 256, &vec![0; 19]).is_some());
}

#[test]
fn the_lowest_draws_paint_the_highest_arms() {
    let texture = paint_cactus(256, 256, &vec![0; 19]).unwrap();
    assert_eq!((texture.width, texture.height), (256, 256));
    assert_eq!(texture.data.len(), 256 * 256 * 4);
    assert_eq!(pixel(&texture, 0, 0), [0, 0, 0, 0]);
    assert_eq!(pixel(&texture, 255, 255), [0, 0, 0, 0]);
    // trunk, and the first flower across its top edge
    assert_eq!(pixel(&texture, 120, 100), GREEN);
    assert_eq!(pixel(&texture, 148, 255), GREEN);
    assert_eq!(pixel(&texture, 149, 255), [0, 0, 0, 0]);
    assert_eq!(pixel(&texture, 107, 85), ORANGE);
    assert_eq!(pixel(&texture, 109, 87), ORANGE);
    assert_eq!(pixel(&texture, 110, 87), GREEN);
    assert_eq!(pixel(&texture, 107, 88), GREEN);
    // piece on top of the trunk
    assert_eq!(pixel(&texture, 112, 74), GREEN);
    assert_eq!(pixel(&texture, 111, 74), [0, 0, 0, 0]);
    // left arm, with its two flowers in its corner
    assert_eq!(pixel(&texture, 80, 130), GREEN);
    assert_eq!(pixel(&texture, 76, 120), ORANGE);
    assert_eq!(pixel(&texture, 78, 122), ORANGE);
    assert_eq!(pixel(&texture, 79, 122), GREEN);
    assert_eq!(pixel(&texture, 76, 162), [0, 0, 0, 0]);
    // upright piece of the left arm and the square on top of it
    assert_eq!(pixel(&texture, 48, 67), ORANGE);
    assert_eq!(pixel(&texture, 75, 129), GREEN);
    assert_eq!(pixel(&texture, 47, 100), [0, 0, 0, 0]);
    assert_eq!(pixel(&texture, 54, 52), GREEN);
    assert_eq!(pixel(&texture, 68, 66), GREEN);
    assert_eq!(pixel(&texture, 69, 66), [0, 0, 0, 0]);
    assert_eq!(pixel(&texture, 54, 51), [0, 0, 0, 0]);
    // right arm
    assert_eq!(pixel(&texture, 149, 120), ORANGE);
    assert_eq!(pixel(&texture, 179, 161), GREEN);
    assert_eq!(pixel(&texture, 200, 150), GREEN);
    assert_eq!(pixel(&texture, 180, 67), ORANGE);
    assert_eq!(pixel(&texture, 207, 129), GREEN);
    assert_eq!(pixel(&texture, 208, 129), [0, 0, 0, 0]);
    assert_eq!(pixel(&texture, 186, 52), GREEN);
}

#[test]
fn the_picture_is_its_rectangles_painted_in_order() {
    for (width, height) in [(256u32, 256u32), (64, 64), (300, 200), (120, 211)] {
        assert!(plan(width, height).is_some());
        for seed in 0..25u64 {
            let mut rng = WyRand::seed_from_u64(seed);
            let draws = draw_texture(&mut rng);
            let texture = paint_cactus(width, height, &draws).unwrap();
            assert_eq!(texture.data, by_hand(width, height, &draws));
        }
    }
}

#[test]
fn every_patch_lies_within_the_picture() {
    for (width, height) in [(256u32, 256u32), (64, 64), (300, 200), (120, 211)] {
        let m = plan(width, height).unwrap();
        for draws in [vec![0u32; 19], vec![u32::MAX; 19], (0..19).collect::<Vec<u32>>()] {
            let list = patches(width, height, &m, &draws);
            assert_eq!(list.len(), 21);
            for patch in list {
                assert!(patch.rect.x + patch.rect.width <= width);
                assert!(patch.rect.y + patch.rect.height <= height);
            }
        }
    }
}

#[test]
fn generating_is_drawing_then_painting() {
    for seed in 0..10u64 {
        let mut rng = WyRand::seed_from_u64(seed);
        let mut replay = WyRand::seed_from_u64(seed);
        let generated = generate_cactus(128, 160, &mut rng).unwrap();
        let mut draws = Vec::new();
        for _ in 0..19 {
            draws.push(replay.next_u32());
        }
        assert_eq!(generated.data, by_hand(128, 160, &draws));
        assert_eq!(rng.next_u32(), replay.next_u32());
    }
}
