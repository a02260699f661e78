//! A picture of a cactus, painted pixel by pixel from rectangles.
use vstd::prelude::*;
use bevy_prng::WyRand;
use crate::rng::next_u32;

verus! {

/// A colour: red, green, blue and opacity.
#[derive(Clone, Copy, Debug, PartialEq, Eq, Structural)]
pub struct Rgba {
    pub r: u8,
    pub g: u8,
    pub b: u8,
    pub a: u8,
}

impl Rgba {
    /// The green of a cactus.
    pub open spec fn green() -> Rgba {
        Rgba { r: 0, g: 20, b: 0, a: 255 }
    }

    /// The orange of its flowers.
    pub open spec fn orange() -> Rgba {
        Rgba { r: 255, g: 100, b: 0, a: 255 }
    }

    /// The green of a cactus.
    pub fn cactus_green() -> (color: Rgba)
        ensures
            color == Rgba::green(),
    {
        Rgba { r: 0, g: 20, b: 0, a: 255 }
    }

    /// The orange of its flowers.
    pub fn flower_orange() -> (color: Rgba)
        ensures
            color == Rgba::orange(),
    {
        Rgba { r: 255, g: 100, b: 0, a: 255 }
    }

    /// Byte `c` of the colour, in the order red, green, blue, opacity.
    pub open spec fn channel(self, c: int) -> u8 {
        if c == 0 {
            self.r
        } else if c == 1 {
            self.g
        } else if c == 2 {
            self.b
        } else {
            self.a
        }
    }
}

/// The pixels from column `x` on, `width` wide, and from row `y` on,
/// `height` high. Rows are counted from the top.
#[derive(Clone, Copy, Debug, PartialEq, Eq, Structural)]
pub struct Rect {
    pub x: u32,
    pub y: u32,
    pub width: u32,
    pub height: u32,
}

impl Rect {
    /// The rectangle lies within a picture of the given size.
    pub open spec fn inside(self, width: u32, height: u32) -> bool {
        self.x + self.width <= width && self.y + self.height <= height
    }
}

/// A rectangle to be painted in one colour.
#[derive(Clone, Copy, Debug, PartialEq, Eq, Structural)]
pub struct Patch {
    pub rect: Rect,
    pub color: Rgba,
}

/// Byte `k` of a picture `width` pixels wide belongs to a pixel of the
/// rectangle.
pub open spec fn covers(rect: Rect, width: int, k: int) -> bool {
    let pixel = k / 4;
    rect.x <= pixel % width < rect.x + rect.width && rect.y <= pixel / width < rect.y
        + rect.height
}

/// The bytes of a picture after a patch was painted over them.
pub open spec fn painted(data: Seq<u8>, width: int, patch: Patch) -> Seq<u8> {
    Seq::new(
        data.len(),
        |k: int|
            if covers(patch.rect, width, k) {
                patch.color.channel(k % 4)
            } else {
                data[k]
            },
    )
}

/// The bytes of a picture after the patches were painted over them, one
/// after the other: where patches overlap, the later one shows.
pub open spec fn painted_all(data: Seq<u8>, width: int, patches: Seq<Patch>) -> Seq<u8>
    decreases patches.len(),
{
    if patches.len() == 0 {
        data
    } else {
        painted(painted_all(data, width, patches.drop_last()), width, patches.last())
    }
}

/// A picture: four bytes for each pixel, row after row from the top.
#[derive(Debug, PartialEq, Eq)]
pub struct Texture {
    pub width: u32,
    pub height: u32,
    pub data: Vec<u8>,
}

impl Texture {
    /// The picture has four bytes for each of its pixels.
    pub open spec fn wf(&self) -> bool {
        self.data@.len() == 4 * self.width * self.height
    }

    /// A picture of the given size in which nothing is painted: every byte
    /// is zero. A picture has at most as many bytes as a `u32` counts.
    pub fn blank(width: u32, height: u32) -> (texture: Texture)
        requires
            4 * width * height <= u32::MAX,
        ensures
            texture.wf(),
            texture.width == width,
            texture.height == height,
            forall|k: int| 0 <= k < texture.data@.len() ==> texture.data@[k] == 0,
    {
        assert(0 <= width * height <= 0x3fff_ffff) by (nonlinear_arith)
            requires
                4 * width * height <= u32::MAX,
                0 <= width,
                0 <= height,
        ;
        let pixels: u64 = (width as u64) * (height as u64);
        let bytes: usize = (pixels * 4) as usize;
        let mut data: Vec<u8> = Vec::new();
        let mut k: usize = 0;
        while k < bytes
            invariant
                k <= bytes,
                data@.len() == k,
                forall|q: int| 0 <= q < k ==> data@[q] == 0,
            decreases bytes - k,
        {
            data.push(0);
            k += 1;
        }
        assert(bytes == 4 * width * height) by (nonlinear_arith)
            requires
                bytes == (width * height) * 4,
        ;
        Texture { width, height, data }
    }

    /// Paints the pixels of row `y` from column `x0` up to, not including,
    /// column `x1`.
    fn fill_row(&mut self, y: u32, x0: u32, x1: u32, color: Rgba)
        requires
            old(self).wf(),
            x0 <= x1 <= old(self).width,
            y < old(self).height,
        ensures
            final(self).wf(),
            final(self).width == old(self).width,
            final(self).height == old(self).height,
            final(self).data@ == painted(
                old(self).data@,
                old(self).width as int,
                Patch { rect: Rect { x: x0, y, width: (x1 - x0) as u32, height: 1 }, color },
            ),
    {
        let width: usize = self.width as usize;
        let ghost w = self.width as int;
        let ghost h = self.height as int;
        let ghost before = self.data@;
        let total: usize = self.data.len();
        assert((y * w + w) * 4 <= 4 * w * h && 0 <= y * w) by (nonlinear_arith)
            requires
                0 <= y < h,
                0 <= w,
        ;
        let row: usize = (y as usize) * width;
        let mut x: usize = x0 as usize;
        while x < x1 as usize
            invariant
                x0 <= x <= x1 <= w,
                w == self.width,
                h == self.height,
                width == w,
                row == y * w,
                (y * w + w) * 4 <= 4 * w * h,
                4 * w * h <= usize::MAX,
                self.data@.len() == 4 * w * h,
                before.len() == 4 * w * h,
                forall|k: int|
                    0 <= k < before.len() ==> self.data@[k] == if (row + x0) * 4 <= k < (row + x)
                        * 4 {
                        color.channel(k % 4)
                    } else {
                        before[k]
                    },
            decreases x1 - x,
        {
            let at: usize = (row + x) * 4;
            self.data.set(at, color.r);
            self.data.set(at + 1, color.g);
            self.data.set(at + 2, color.b);
            self.data.set(at + 3, color.a);
            x += 1;
        }
        proof {
            let patch = Patch { rect: Rect { x: x0, y, width: (x1 - x0) as u32, height: 1 }, color };
            assert forall|k: int| 0 <= k < before.len() implies self.data@[k] == painted(
                before,
                w,
                patch,
            )[k] by {
                if w > 0 {
                    lemma_row_span(w, y as int, x0 as int, x1 as int, k);
                }
            }
            assert(self.data@ =~= painted(before, w, patch));
        }
    }

    /// Paints a patch that lies within the picture.
    pub fn fill(&mut self, patch: &Patch)
        requires
            old(self).wf(),
            patch.rect.inside(old(self).width, old(self).height),
        ensures
            final(self).wf(),
            final(self).width == old(self).width,
            final(self).height == old(self).height,
            final(self).data@ == painted(old(self).data@, old(self).width as int, *patch),
    {
        let ghost w = self.width as int;
        let ghost before = self.data@;
        let rect = patch.rect;
        let x1: u32 = rect.x + rect.width;
        let bottom: u32 = rect.y + rect.height;
        let mut y: u32 = rect.y;
        while y < bottom
            invariant
                rect.y <= y <= bottom,
                bottom == rect.y + rect.height,
                x1 == rect.x + rect.width,
                rect == patch.rect,
                rect.inside(self.width, self.height),
                self.wf(),
                w == self.width,
                self.width == old(self).width,
                self.height == old(self).height,
                self.data@ == painted(
                    before,
                    w,
                    Patch {
                        rect: Rect {
                            x: rect.x,
                            y: rect.y,
                            width: rect.width,
                            height: (y - rect.y) as u32,
                        },
                        color: patch.color,
                    },
                ),
            decreases bottom - y,
        {
            let ghost so_far = self.data@;
            self.fill_row(y, rect.x, x1, patch.color);
            proof {
                let grown = Patch {
                    rect: Rect {
                        x: rect.x,
                        y: rect.y,
                        width: rect.width,
                        height: (y + 1 - rect.y) as u32,
                    },
                    color: patch.color,
                };
                assert(self.data@ =~= painted(before, w, grown));
            }
            y += 1;
        }
        proof {
            assert(self.data@ =~= painted(before, w, *patch));
        }
    }
}

/// The bytes of the pixels of row `y` from column `x0` up to column `x1`
/// are those between two places in the picture.
proof fn lemma_row_span(width: int, y: int, x0: int, x1: int, k: int)
    requires
        0 < width,
        0 <= y,
        0 <= x0 <= x1 <= width,
        0 <= k,
    ensures
        ((y * width + x0) * 4 <= k < (y * width + x1) * 4) == (x0 <= (k / 4) % width < x1 && (k
            / 4) / width == y),
{
    let p = k / 4;
    vstd::arithmetic::div_mod::lemma_fundamental_div_mod(p, width);
    if y * width + x0 <= p < y * width + x1 {
        vstd::arithmetic::div_mod::lemma_fundamental_div_mod_converse(
            p,
            width,
            y,
            p - y * width,
        );
    }
    if x0 <= p % width < x1 && p / width == y {
        assert(width * (p / width) == y * width) by (nonlinear_arith)
            requires
                p / width == y,
        ;
    }
}

/// The measures of the cactus in a picture, all in pixels.
#[derive(Clone, Copy, Debug, PartialEq, Eq, Structural)]
pub struct Measures {
    pub trunk_width: u32,
    pub trunk_height: u32,
    /// Left edge of the trunk.
    pub trunk_x: u32,
    /// Top edge of the trunk, which stands on the bottom of the picture.
    pub trunk_y: u32,
    /// Size of the narrower piece on top of the trunk.
    pub top_width: u32,
    pub top_height: u32,
    pub top_x: u32,
    pub top_y: u32,
    /// Size of the piece of an arm that leaves the trunk.
    pub arm_width: u32,
    pub arm_height: u32,
    /// Side of the square at the end of that piece.
    pub square_size: u32,
    /// Highest row at which an arm may begin.
    pub arm_y_min: u32,
    /// Number of rows at which an arm may begin.
    pub arm_y_span: u32,
    /// Size of the upright piece of an arm.
    pub tall_width: u32,
    pub tall_height: u32,
    /// Side of the square on top of the upright piece.
    pub top_square_size: u32,
}

/// Number of raw draws that a picture takes: one for the height of each
/// arm, one for each of the five flowers of the trunk, and two for each of
/// the six flowers of the arms.
pub const TEXTURE_DRAWS: usize = 19;

/// Side of a flower.
pub const FLOWER_SIZE: u32 = 3;

/// The measures of the cactus in a picture of the given size: the trunk a
/// sixth of the width wide and two thirds of the height high, in the
/// middle, and the arms in proportion to it.
pub open spec fn measures(width: u32, height: u32) -> Measures {
    let trunk_width = width / 6;
    let trunk_height = height * 2 / 3;
    let trunk_y = height - trunk_height;
    let top_width = trunk_width * 3 / 4;
    let top_height = trunk_y / 7;
    let arm_height = trunk_height / 4;
    let square_size = arm_height / 2;
    Measures {
        trunk_width: trunk_width as u32,
        trunk_height: trunk_height as u32,
        trunk_x: ((width - trunk_width) / 2) as u32,
        trunk_y: trunk_y as u32,
        top_width: top_width as u32,
        top_height: top_height as u32,
        top_x: ((width - top_width) / 2) as u32,
        top_y: (trunk_y - top_height) as u32,
        arm_width: (trunk_width * 3 / 4) as u32,
        arm_height: arm_height as u32,
        square_size: square_size as u32,
        arm_y_min: (trunk_y + trunk_height / 5) as u32,
        arm_y_span: (trunk_height * 9 / 10 - arm_height - trunk_height / 5) as u32,
        tall_width: (trunk_width * 2 / 3) as u32,
        tall_height: (arm_height * 3 / 2) as u32,
        top_square_size: (3 * square_size / 4) as u32,
    }
}

/// A picture of this size has room for the cactus: it has at most as many
/// bytes as a `u32` counts, every piece has a place inside it whatever the
/// draws are, and every piece that carries a flower is larger than one.
pub open spec fn paintable(width: u32, height: u32) -> bool {
    let m = measures(width, height);
    &&& 4 * width * height <= u32::MAX
    &&& m.trunk_width > FLOWER_SIZE
    &&& m.arm_width > FLOWER_SIZE
    &&& m.arm_height > FLOWER_SIZE
    &&& m.tall_width > FLOWER_SIZE
    &&& m.tall_height > FLOWER_SIZE
    &&& height * 2 / 3 * 9 / 10 - m.arm_height - m.trunk_height / 5 >= 1
    &&& m.trunk_height * 4 / 5 + 2 <= m.trunk_height
    &&& m.trunk_y >= 1
    &&& m.trunk_x >= m.arm_width + m.square_size
    &&& m.trunk_x - m.arm_width >= m.tall_width
    &&& m.tall_width >= m.top_square_size
    &&& m.arm_y_min + m.square_size / 2 >= m.tall_height + m.top_square_size
    &&& m.trunk_x + m.trunk_width + m.arm_width + m.square_size <= width
    &&& m.trunk_x + m.trunk_width + m.arm_width + m.tall_width <= width
}

/// The rectangle with the given corner and size.
pub open spec fn rect_at(x: int, y: int, width: int, height: int) -> Rect {
    Rect { x: x as u32, y: y as u32, width: width as u32, height: height as u32 }
}

/// A green patch.
pub open spec fn green_at(x: int, y: int, width: int, height: int) -> Patch {
    Patch { rect: rect_at(x, y, width, height), color: Rgba::green() }
}

/// A flower with its corner at `(x, y)`.
pub open spec fn flower_at(x: int, y: int) -> Patch {
    Patch { rect: rect_at(x, y, FLOWER_SIZE as int, FLOWER_SIZE as int), color: Rgba::orange() }
}

/// Row at which an arm begins, as a raw draw picks it.
pub open spec fn arm_top(m: Measures, roll: u32) -> int {
    m.arm_y_min + roll % m.arm_y_span
}

/// The green pieces of the cactus, for arms that begin at the rows `left`
/// and `right`: the trunk and the piece on top of it, then of each arm, the
/// left one first, the piece that leaves the trunk, the square at its end,
/// the upright piece above the square, and the square on top of that.
pub open spec fn green_patches(m: Measures, left: int, right: int) -> Seq<Patch> {
    let left_square_x = m.trunk_x - m.arm_width - m.square_size;
    let left_tall_x = left_square_x + m.square_size - m.tall_width;
    let left_tall_y = left + m.square_size / 2 - m.tall_height;
    let right_square_x = m.trunk_x + m.trunk_width + m.arm_width;
    let right_tall_y = right + m.square_size / 2 - m.tall_height;
    let inset = (m.tall_width - m.top_square_size) / 2;
    seq![
        green_at(m.trunk_x as int, m.trunk_y as int, m.trunk_width as int, m.trunk_height as int),
        green_at(m.top_x as int, m.top_y as int, m.top_width as int, m.top_height as int),
        green_at(m.trunk_x - m.arm_width, left, m.arm_width as int, m.arm_height as int),
        green_at(
            left_square_x,
            left + m.square_size / 2,
            m.square_size as int,
            m.square_size as int,
        ),
        green_at(left_tall_x, left_tall_y, m.tall_width as int, m.tall_height as int),
        green_at(
            left_tall_x + inset,
            left_tall_y - m.top_square_size,
            m.top_square_size as int,
            m.top_square_size as int,
        ),
        green_at(m.trunk_x + m.trunk_width, right, m.arm_width as int, m.arm_height as int),
        green_at(
            right_square_x,
            right + m.square_size / 2,
            m.square_size as int,
            m.square_size as int,
        ),
        green_at(right_square_x, right_tall_y, m.tall_width as int, m.tall_height as int),
        green_at(
            right_square_x + inset,
            right_tall_y - m.top_square_size,
            m.top_square_size as int,
            m.top_square_size as int,
        ),
    ]
}

/// The flowers, for arms that begin at the rows `left` and `right`: five on
/// the trunk, one in each fifth of its height, then two on the piece of the
/// left arm that leaves the trunk, two on that of the right arm, one on the
/// upright piece of the left arm and one on that of the right arm. Draw 2
/// to 6 place the flowers of the trunk from left to right; of the draws
/// from 7 on, one places each further flower from left to right and the
/// next from top to bottom.
pub open spec fn flower_patches(m: Measures, left: int, right: int, draws: Seq<u32>) -> Seq<
    Patch,
> {
    let trunk_span = (m.trunk_width - FLOWER_SIZE) as int;
    let arm_span_x = (m.arm_width - FLOWER_SIZE) as int;
    let arm_span_y = (m.arm_height - FLOWER_SIZE) as int;
    let tall_span_x = (m.tall_width - FLOWER_SIZE) as int;
    let tall_span_y = (m.tall_height - FLOWER_SIZE) as int;
    let left_arm_x = m.trunk_x - m.arm_width;
    let right_arm_x = m.trunk_x + m.trunk_width;
    let left_tall_x = left_arm_x - m.tall_width;
    let left_tall_y = left + m.square_size / 2 - m.tall_height;
    let right_tall_x = right_arm_x + m.arm_width;
    let right_tall_y = right + m.square_size / 2 - m.tall_height;
    seq![
        flower_at(m.trunk_x + (draws[2] as int) % trunk_span, m.trunk_y + m.trunk_height * 0 / 5 - 1),
        flower_at(m.trunk_x + (draws[3] as int) % trunk_span, m.trunk_y + m.trunk_height * 1 / 5 - 1),
        flower_at(m.trunk_x + (draws[4] as int) % trunk_span, m.trunk_y + m.trunk_height * 2 / 5 - 1),
        flower_at(m.trunk_x + (draws[5] as int) % trunk_span, m.trunk_y + m.trunk_height * 3 / 5 - 1),
        flower_at(m.trunk_x + (draws[6] as int) % trunk_span, m.trunk_y + m.trunk_height * 4 / 5 - 1),
        flower_at(left_arm_x + (draws[7] as int) % arm_span_x, left + (draws[8] as int) % arm_span_y),
        flower_at(left_arm_x + (draws[9] as int) % arm_span_x, left + (draws[10] as int) % arm_span_y),
        flower_at(right_arm_x + (draws[11] as int) % arm_span_x, right + (draws[12] as int) % arm_span_y),
        flower_at(right_arm_x + (draws[13] as int) % arm_span_x, right + (draws[14] as int) % arm_span_y),
        flower_at(left_tall_x + (draws[15] as int) % tall_span_x, left_tall_y + (draws[16] as int) % tall_span_y),
        flower_at(right_tall_x + (draws[17] as int) % tall_span_x, right_tall_y + (draws[18] as int) % tall_span_y),
    ]
}

/// Every patch of a cactus with the given measures, in the order in which
/// they are painted: the green pieces, then the flowers. The first two
/// draws pick the rows at which the left and the right arm begin.
pub open spec fn patches_of(m: Measures, draws: Seq<u32>) -> Seq<Patch> {
    let left = arm_top(m, draws[0]);
    let right = arm_top(m, draws[1]);
    green_patches(m, left, right) + flower_patches(m, left, right, draws)
}

/// Every patch of the cactus in a picture of the given size.
pub open spec fn cactus_patches(width: u32, height: u32, draws: Seq<u32>) -> Seq<Patch> {
    patches_of(measures(width, height), draws)
}

/// The measures leave every piece of the cactus a place inside a picture of
/// the given size, whatever the draws are.
pub open spec fn fitting(m: Measures, width: u32, height: u32) -> bool {
    &&& height * 16 <= u32::MAX
    &&& m.trunk_width > FLOWER_SIZE
    &&& m.arm_width > FLOWER_SIZE
    &&& m.arm_height > FLOWER_SIZE
    &&& m.tall_width > FLOWER_SIZE
    &&& m.tall_height > FLOWER_SIZE
    &&& m.arm_y_span >= 1
    &&& m.trunk_y >= 1
    &&& m.trunk_y + m.trunk_height <= height
    &&& m.trunk_height * 4 / 5 + 2 <= m.trunk_height
    &&& m.top_x + m.top_width <= width
    &&& m.top_y + m.top_height <= height
    &&& m.trunk_x >= m.arm_width + m.square_size
    &&& m.trunk_x >= m.arm_width + m.tall_width
    &&& m.tall_width >= m.top_square_size
    &&& m.arm_y_min + m.square_size / 2 >= m.tall_height + m.top_square_size
    &&& m.arm_y_min + m.arm_y_span + m.arm_height <= height + 1
    &&& m.square_size + m.square_size / 2 <= m.arm_height
    &&& m.trunk_x + m.trunk_width + m.arm_width + m.square_size <= width
    &&& m.trunk_x + m.trunk_width + m.arm_width + m.tall_width <= width
}

/// In a picture that has room for the cactus, the measures of the cactus
/// leave every piece its place.
pub proof fn lemma_paintable_fits(width: u32, height: u32)
    requires
        paintable(width, height),
    ensures
        fitting(measures(width, height), width, height),
{
    assert(height * 16 <= u32::MAX) by (nonlinear_arith)
        requires
            4 * width * height <= u32::MAX,
            width >= 4,
            height >= 0,
    ;
}

/// The bytes of the picture of a cactus of the given size that the draws
/// describe: the patches of the cactus painted over nothing.
pub open spec fn cactus_picture(width: u32, height: u32, draws: Seq<u32>) -> Seq<u8> {
    painted_all(
        Seq::new((4 * width * height) as nat, |k: int| 0u8),
        width as int,
        cactus_patches(width, height, draws),
    )
}

/// The measures of the cactus in a picture of the given size, if the
/// picture has room for it.
pub fn plan(width: u32, height: u32) -> (m: Option<Measures>)
    ensures
        m == if paintable(width, height) {
            Some(measures(width, height))
        } else {
            None::<Measures>
        },
{
    assert(0 <= width * height <= 0xffff_ffff * 0xffff_ffff) by (nonlinear_arith)
        requires
            0 <= width <= 0xffff_ffff,
            0 <= height <= 0xffff_ffff,
    ;
    let pixels: u64 = (width as u64) * (height as u64);
    if pixels > (u32::MAX / 4) as u64 {
        assert(4 * width * height > u32::MAX) by (nonlinear_arith)
            requires
                width * height > 0x3fff_ffff,
        ;
        return None;
    }
    assert(4 * width * height <= u32::MAX) by (nonlinear_arith)
        requires
            width * height <= 0x3fff_ffff,
    ;
    let w: u64 = width as u64;
    let h: u64 = height as u64;
    let trunk_width: u64 = w / 6;
    let trunk_height: u64 = h * 2 / 3;
    let trunk_x: u64 = (w - trunk_width) / 2;
    let trunk_y: u64 = h - trunk_height;
    let top_width: u64 = trunk_width * 3 / 4;
    let top_height: u64 = trunk_y / 7;
    let arm_width: u64 = trunk_width * 3 / 4;
    let arm_height: u64 = trunk_height / 4;
    let square_size: u64 = arm_height / 2;
    let arm_y_min: u64 = trunk_y + trunk_height / 5;
    let arm_y_end: u64 = trunk_height * 9 / 10;
    let tall_width: u64 = trunk_width * 2 / 3;
    let tall_height: u64 = arm_height * 3 / 2;
    let top_square_size: u64 = 3 * square_size / 4;
    let flower: u64 = FLOWER_SIZE as u64;
    let large: bool = trunk_width > flower && arm_width > flower && arm_height > flower
        && tall_width > flower && tall_height > flower;
    let tall: bool = arm_y_end >= arm_height + trunk_height / 5 + 1 && trunk_height * 4 / 5 + 2
        <= trunk_height && trunk_y >= 1;
    let left: bool = trunk_x >= arm_width + square_size && trunk_x >= arm_width + tall_width
        && tall_width >= top_square_size && arm_y_min + square_size / 2 >= tall_height
        + top_square_size;
    let right: bool = trunk_x + trunk_width + arm_width + square_size <= w && trunk_x
        + trunk_width + arm_width + tall_width <= w;
    if large && tall && left && right {
        Some(
            Measures {
                trunk_width: trunk_width as u32,
                trunk_height: trunk_height as u32,
                trunk_x: trunk_x as u32,
                trunk_y: trunk_y as u32,
                top_width: top_width as u32,
                top_height: top_height as u32,
                top_x: ((w - top_width) / 2) as u32,
                top_y: (trunk_y - top_height) as u32,
                arm_width: arm_width as u32,
                arm_height: arm_height as u32,
                square_size: square_size as u32,
                arm_y_min: arm_y_min as u32,
                arm_y_span: (arm_y_end - arm_height - trunk_height / 5) as u32,
                tall_width: tall_width as u32,
                tall_height: tall_height as u32,
                top_square_size: top_square_size as u32,
            },
        )
    } else {
        None
    }
}

/// A green patch.
fn green_patch(x: u32, y: u32, width: u32, height: u32) -> (patch: Patch)
    ensures
        patch == green_at(x as int, y as int, width as int, height as int),
{
    Patch { rect: Rect { x, y, width, height }, color: Rgba::cactus_green() }
}

/// A flower with its corner at `(x, y)`.
fn flower_patch(x: u32, y: u32) -> (patch: Patch)
    ensures
        patch == flower_at(x as int, y as int),
{
    Patch {
        rect: Rect { x, y, width: FLOWER_SIZE, height: FLOWER_SIZE },
        color: Rgba::flower_orange(),
    }
}

/// The green pieces of the cactus, for arms that begin at the rows `left`
/// and `right`. Each lies within the picture.
fn green_list(width: u32, height: u32, m: &Measures, left: u32, right: u32) -> (list: Vec<Patch>)
    requires
        fitting(*m, width, height),
        m.arm_y_min <= left < m.arm_y_min + m.arm_y_span,
        m.arm_y_min <= right < m.arm_y_min + m.arm_y_span,
    ensures
        list@ == green_patches(*m, left as int, right as int),
        forall|i: int| 0 <= i < list@.len() ==> (#[trigger] list@[i]).rect.inside(width, height),
{
    let left_arm_x: u32 = m.trunk_x - m.arm_width;
    let left_square_x: u32 = left_arm_x - m.square_size;
    let left_tall_x: u32 = left_arm_x - m.tall_width;
    let left_tall_y: u32 = left + m.square_size / 2 - m.tall_height;
    let right_arm_x: u32 = m.trunk_x + m.trunk_width;
    let right_square_x: u32 = right_arm_x + m.arm_width;
    let right_tall_y: u32 = right + m.square_size / 2 - m.tall_height;
    let inset: u32 = (m.tall_width - m.top_square_size) / 2;
    let mut list: Vec<Patch> = Vec::new();
    list.push(green_patch(m.trunk_x, m.trunk_y, m.trunk_width, m.trunk_height));
    list.push(green_patch(m.top_x, m.top_y, m.top_width, m.top_height));
    list.push(green_patch(left_arm_x, left, m.arm_width, m.arm_height));
    list.push(green_patch(left_square_x, left + m.square_size / 2, m.square_size, m.square_size));
    list.push(green_patch(left_tall_x, left_tall_y, m.tall_width, m.tall_height));
    list.push(
        green_patch(
            left_tall_x + inset,
            left_tall_y - m.top_square_size,
            m.top_square_size,
            m.top_square_size,
        ),
    );
    list.push(green_patch(right_arm_x, right, m.arm_width, m.arm_height));
    list.push(green_patch(right_square_x, right + m.square_size / 2, m.square_size, m.square_size));
    list.push(green_patch(right_square_x, right_tall_y, m.tall_width, m.tall_height));
    list.push(
        green_patch(
            right_square_x + inset,
            right_tall_y - m.top_square_size,
            m.top_square_size,
            m.top_square_size,
        ),
    );
    assert(list@ =~= green_patches(*m, left as int, right as int));
    list
}

/// The flowers of the cactus, for arms that begin at the rows `left` and
/// `right`. Each lies within the picture.
fn flower_list(
    width: u32,
    height: u32,
    m: &Measures,
    left: u32,
    right: u32,
    draws: &Vec<u32>,
) -> (list: Vec<Patch>)
    requires
        fitting(*m, width, height),
        m.arm_y_min <= left < m.arm_y_min + m.arm_y_span,
        m.arm_y_min <= right < m.arm_y_min + m.arm_y_span,
        draws@.len() == TEXTURE_DRAWS,
    ensures
        list@ == flower_patches(*m, left as int, right as int, draws@),
        forall|i: int| 0 <= i < list@.len() ==> (#[trigger] list@[i]).rect.inside(width, height),
{
    let left_arm_x: u32 = m.trunk_x - m.arm_width;
    let left_tall_x: u32 = left_arm_x - m.tall_width;
    let left_tall_y: u32 = left + m.square_size / 2 - m.tall_height;
    let right_arm_x: u32 = m.trunk_x + m.trunk_width;
    let right_tall_x: u32 = right_arm_x + m.arm_width;
    let right_tall_y: u32 = right + m.square_size / 2 - m.tall_height;
    let trunk_span: u32 = m.trunk_width - FLOWER_SIZE;
    let arm_span_x: u32 = m.arm_width - FLOWER_SIZE;
    let arm_span_y: u32 = m.arm_height - FLOWER_SIZE;
    let tall_span_x: u32 = m.tall_width - FLOWER_SIZE;
    let tall_span_y: u32 = m.tall_height - FLOWER_SIZE;
    let mut list: Vec<Patch> = Vec::new();
    list.push(flower_patch(m.trunk_x + draws[2] % trunk_span, m.trunk_y - 1));
    list.push(
        flower_patch(m.trunk_x + draws[3] % trunk_span, m.trunk_y + m.trunk_height / 5 - 1),
    );
    list.push(
        flower_patch(m.trunk_x + draws[4] % trunk_span, m.trunk_y + m.trunk_height * 2 / 5 - 1),
    );
    list.push(
        flower_patch(m.trunk_x + draws[5] % trunk_span, m.trunk_y + m.trunk_height * 3 / 5 - 1),
    );
    list.push(
        flower_patch(m.trunk_x + draws[6] % trunk_span, m.trunk_y + m.trunk_height * 4 / 5 - 1),
    );
    list.push(flower_patch(left_arm_x + draws[7] % arm_span_x, left + draws[8] % arm_span_y));
    list.push(flower_patch(left_arm_x + draws[9] % arm_span_x, left + draws[10] % arm_span_y));
    list.push(flower_patch(right_arm_x + draws[11] % arm_span_x, right + draws[12] % arm_span_y));
    list.push(flower_patch(right_arm_x + draws[13] % arm_span_x, right + draws[14] % arm_span_y));
    list.push(
        flower_patch(left_tall_x + draws[15] % tall_span_x, left_tall_y + draws[16] % tall_span_y),
    );
    list.push(
        flower_patch(
            right_tall_x + draws[17] % tall_span_x,
            right_tall_y + draws[18] % tall_span_y,
        ),
    );
    assert(list@ =~= flower_patches(*m, left as int, right as int, draws@));
    list
}

/// Every patch of a cactus with the given measures, in the order in which
/// they are painted. Each lies within the picture.
pub fn patches(width: u32, height: u32, m: &Measures, draws: &Vec<u32>) -> (list: Vec<Patch>)
    requires
        fitting(*m, width, height),
        draws@.len() == TEXTURE_DRAWS,
    ensures
        list@ == patches_of(*m, draws@),
        forall|i: int| 0 <= i < list@.len() ==> (#[trigger] list@[i]).rect.inside(width, height),
{
    let left: u32 = m.arm_y_min + draws[0] % m.arm_y_span;
    let right: u32 = m.arm_y_min + draws[1] % m.arm_y_span;
    let mut list = green_list(width, height, m, left, right);
    let mut flowers = flower_list(width, height, m, left, right, draws);
    list.append(&mut flowers);
    list
}

/// Paints the patches, one after the other, over what the picture shows.
pub fn fill_all(texture: &mut Texture, list: &Vec<Patch>)
    requires
        old(texture).wf(),
        forall|i: int|
            0 <= i < list@.len() ==> (#[trigger] list@[i]).rect.inside(
                old(texture).width,
                old(texture).height,
            ),
    ensures
        final(texture).wf(),
        final(texture).width == old(texture).width,
        final(texture).height == old(texture).height,
        final(texture).data@ == painted_all(
            old(texture).data@,
            old(texture).width as int,
            list@,
        ),
{
    let ghost before = texture.data@;
    let ghost w = texture.width as int;
    let n: usize = list.len();
    let mut i: usize = 0;
    while i < n
        invariant
            i <= n,
            n == list@.len(),
            texture.wf(),
            texture.width == old(texture).width,
            texture.height == old(texture).height,
            w == texture.width,
            forall|k: int|
                0 <= k < list@.len() ==> (#[trigger] list@[k]).rect.inside(
                    texture.width,
                    texture.height,
                ),
            texture.data@ == painted_all(before, w, list@.subrange(0, i as int)),
        decreases n - i,
    {
        texture.fill(&list[i]);
        proof {
            let longer = list@.subrange(0, i + 1);
            assert(longer.drop_last() =~= list@.subrange(0, i as int));
            assert(longer.last() == list@[i as int]);
        }
        i += 1;
    }
    proof {
        assert(list@.subrange(0, n as int) =~= list@);
    }
}

/// The picture of a cactus of the given size that the draws describe. There
/// is none where the picture has no room for the cactus, or where the draws
/// are not as many as a picture takes.
pub fn paint_cactus(width: u32, height: u32, draws: &Vec<u32>) -> (picture: Option<Texture>)
    ensures
        picture is Some <==> paintable(width, height) && draws@.len() == TEXTURE_DRAWS,
        picture is Some ==> picture.unwrap().wf() && picture.unwrap().width == width
            && picture.unwrap().height == height && picture.unwrap().data@ == cactus_picture(
            width,
            height,
            draws@,
        ),
{
    if draws.len() != TEXTURE_DRAWS {
        return None;
    }
    match plan(width, height) {
        Some(m) => {
            proof {
                lemma_paintable_fits(width, height);
            }
            let list = patches(width, height, &m, draws);
            let mut texture = Texture::blank(width, height);
            assert(texture.data@ =~= Seq::new((4 * width * height) as nat, |k: int| 0u8));
            fill_all(&mut texture, &list);
            Some(texture)
        },
        None => None,
    }
}

/// Makes the draws that a picture takes, as many raw draws as that, in
/// their order.
pub fn draw_texture(rng: &mut WyRand) -> (draws: Vec<u32>)
    ensures
        draws@.len() == TEXTURE_DRAWS,
{
    let mut draws: Vec<u32> = Vec::new();
    let mut i: usize = 0;
    while i < TEXTURE_DRAWS
        invariant
            i <= TEXTURE_DRAWS,
            draws@.len() == i,
        decreases TEXTURE_DRAWS - i,
    {
        let roll: u32 = next_u32(rng);
        draws.push(roll);
        i += 1;
    }
    draws
}

/// Paints the picture of a cactus of the given size as the random source
/// decides. There is none, and nothing is drawn, where the picture has no
/// room for the cactus.
///
/// The picture is the one that `paint_cactus` paints from the draws that
/// `draw_texture` makes.
pub fn generate_cactus(width: u32, height: u32, rng: &mut WyRand) -> (picture: Option<Texture>)
    ensures
        picture is Some <==> paintable(width, height),
        picture is Some ==> picture.unwrap().wf() && picture.unwrap().width == width
            && picture.unwrap().height == height && exists|draws: Seq<u32>|
            draws.len() == TEXTURE_DRAWS && picture.unwrap().data@ == #[trigger] cactus_picture(
                width,
                height,
                draws,
            ),
{
    if plan(width, height).is_none() {
        return None;
    }
    let draws = draw_texture(rng);
    paint_cactus(width, height, &draws)
}

} // verus!
