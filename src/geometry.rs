use vstd::prelude::*;

verus! {

/// Space left between neighbouring tiles, in pixels.
pub const SPACING_SIZE: u32 = 10;

/// Longest side a finished mosaic may have before it is scaled down.
pub const MAX_SIZE: u32 = 4000;

/// A coordinate or length: values beyond the range of `u32` saturate.
pub open spec fn sat(x: int) -> u32 {
    if x > u32::MAX {
        u32::MAX
    } else if x < 0 {
        0
    } else {
        x as u32
    }
}

/// `n / d` rounded to the nearest integer, halves rounding up.
pub open spec fn round_div(n: int, d: int) -> int {
    (2 * n + d) / (2 * d)
}

/// The length `x` divided by the factor `num / den`, rounded, saturating.
pub open spec fn scale_len(x: int, num: int, den: int) -> u32 {
    sat(round_div(x * den, num))
}

/// Scaling keeps zero at zero.
pub proof fn lemma_scale_len_zero(num: int, den: int)
    requires
        num > 0,
    ensures
        scale_len(0, num, den) == 0,
{
    assert(round_div(0 * den, num) == 0) by (nonlinear_arith)
        requires
            num > 0,
    ;
}

/// Scaling keeps lengths in order.
pub proof fn lemma_scale_len_monotone(x: int, y: int, num: int, den: int)
    requires
        0 <= x <= y,
        num > 0,
        den >= 0,
    ensures
        scale_len(x, num, den) <= scale_len(y, num, den),
{
    assert(x * den <= y * den) by (nonlinear_arith)
        requires
            x <= y,
            den >= 0,
    ;
    vstd::arithmetic::div_mod::lemma_div_is_ordered(2 * (x * den) + num, 2 * (y * den) + num, 2 * num);
}

/// The product of two `u32` values, which always fits a `u64`.
pub fn mul_u32(a: u32, b: u32) -> (r: u64)
    ensures
        r == a * b,
{
    assert(a * b <= u32::MAX * u32::MAX) by (nonlinear_arith)
        requires
            a <= u32::MAX,
            b <= u32::MAX,
    ;
    (a as u64) * (b as u64)
}

/// The product of two `u64` values, which always fits a `u128`.
pub fn mul_u64(a: u64, b: u64) -> (r: u128)
    ensures
        r == a * b,
{
    assert(a * b <= u64::MAX * u64::MAX) by (nonlinear_arith)
        requires
            a <= u64::MAX,
            b <= u64::MAX,
    ;
    (a as u128) * (b as u128)
}

/// `x` divided by `num / den`, rounded to nearest, saturating at `u32::MAX`.
pub fn scale_component(x: u32, num: u32, den: u32) -> (r: u32)
    requires
        num > 0,
    ensures
        r == scale_len(x as int, num as int, den as int),
{
    let p: u64 = mul_u32(x, den);
    let n: u128 = 2 * (p as u128) + (num as u128);
    let q: u128 = n / (2 * (num as u128));
    if q > u32::MAX as u128 {
        u32::MAX
    } else {
        q as u32
    }
}

/// `a + b`, saturating at `u32::MAX`.
pub fn sat_add(a: u32, b: u32) -> (r: u32)
    ensures
        r == sat(a + b),
{
    let s: u64 = a as u64 + b as u64;
    if s > u32::MAX as u64 {
        u32::MAX
    } else {
        s as u32
    }
}

/// Width and height of an image or of an area, in pixels.
#[derive(Clone, Copy, Debug, PartialEq, Eq, Structural)]
pub struct Size {
    pub width: u32,
    pub height: u32,
}

/// `size` scaled to the height `h`, its width following in proportion.
pub open spec fn to_height(size: Size, h: u32) -> Size {
    Size { width: scale_len(size.width as int, size.height as int, h as int), height: h }
}

/// `size` scaled to the width `w`, its height following in proportion.
pub open spec fn to_width(size: Size, w: u32) -> Size {
    Size { width: w, height: scale_len(size.height as int, size.width as int, w as int) }
}

/// Scales `image_size` so that its height becomes `other_height`, keeping its aspect ratio.
pub fn scale_height_dimension(image_size: Size, other_height: u32) -> (r: Size)
    requires
        image_size.height > 0,
    ensures
        r == to_height(image_size, other_height),
{
    Size {
        width: scale_component(image_size.width, image_size.height, other_height),
        height: other_height,
    }
}

/// Scales `image_size` so that its width becomes `other_width`, keeping its aspect ratio.
pub fn scale_width_dimension(image_size: Size, other_width: u32) -> (r: Size)
    requires
        image_size.width > 0,
    ensures
        r == to_width(image_size, other_width),
{
    Size {
        width: other_width,
        height: scale_component(image_size.height, image_size.width, other_width),
    }
}

impl Size {
    /// Both sides divided by `num / den`, each rounded on its own.
    pub open spec fn scaled(self, num: int, den: int) -> Size {
        Size { width: scale_len(self.width as int, num, den), height: scale_len(self.height as int, num, den) }
    }

    /// The sum of two sizes, side by side.
    pub open spec fn plus(self, other: Size) -> Size {
        Size { width: sat(self.width + other.width), height: sat(self.height + other.height) }
    }

    /// Divides both sides by the factor `num / den`, rounding each on its own.
    pub fn scale(&self, num: u32, den: u32) -> (r: Size)
        requires
            num > 0,
        ensures
            r == self.scaled(num as int, den as int),
    {
        Size { width: scale_component(self.width, num, den), height: scale_component(self.height, num, den) }
    }

    /// Adds the two sizes side by side, saturating.
    pub fn add(&self, other: Size) -> (r: Size)
        ensures
            r == self.plus(other),
    {
        Size { width: sat_add(self.width, other.width), height: sat_add(self.height, other.height) }
    }
}

/// Where one image goes in a mosaic: its top-left corner, the size it is drawn at,
/// and its native size.
#[derive(Clone, Copy, Debug, PartialEq, Eq, Structural)]
pub struct ImageOffset {
    pub offset: Size,
    pub dimensions: Size,
    pub original_dimensions: Size,
}

/// An image drawn at `dimensions` with its top-left corner at (`x`, `y`).
pub open spec fn placed(x: u32, y: u32, dimensions: Size, original: Size) -> ImageOffset {
    ImageOffset { offset: Size { width: x, height: y }, dimensions, original_dimensions: original }
}

/// An image at its native size in the top-left corner.
pub open spec fn native(s: Size) -> ImageOffset {
    placed(0, 0, s, s)
}

/// An image size that layout arithmetic can divide by.
pub open spec fn valid_size(s: Size) -> bool {
    s.width > 0 && s.height > 0
}

impl ImageOffset {
    /// Offset and drawn size divided by `num / den`; the native size is kept.
    pub open spec fn scaled(self, num: int, den: int) -> ImageOffset {
        ImageOffset {
            offset: self.offset.scaled(num, den),
            dimensions: self.dimensions.scaled(num, den),
            original_dimensions: self.original_dimensions,
        }
    }

    /// Moved `h` pixels down.
    pub open spec fn moved_down(self, h: int) -> ImageOffset {
        ImageOffset {
            offset: Size { width: self.offset.width, height: sat(self.offset.height + h) },
            ..self
        }
    }

    /// Moved `w` pixels to the right.
    pub open spec fn moved_right(self, w: int) -> ImageOffset {
        ImageOffset {
            offset: Size { width: sat(self.offset.width + w), height: self.offset.height },
            ..self
        }
    }

    /// The column just past the right edge.
    pub open spec fn right(self) -> u32 {
        sat(self.offset.width + self.dimensions.width)
    }

    /// The row just below the bottom edge.
    pub open spec fn bottom(self) -> u32 {
        sat(self.offset.height + self.dimensions.height)
    }

    /// Divides offset and drawn size by the factor `num / den`.
    pub fn scale(&self, num: u32, den: u32) -> (r: ImageOffset)
        requires
            num > 0,
        ensures
            r == self.scaled(num as int, den as int),
    {
        ImageOffset {
            offset: self.offset.scale(num, den),
            dimensions: self.dimensions.scale(num, den),
            original_dimensions: self.original_dimensions,
        }
    }

    /// Moves the placement `height` pixels down.
    pub fn add_height(&self, height: u32) -> (r: ImageOffset)
        ensures
            r == self.moved_down(height as int),
    {
        ImageOffset {
            offset: Size { width: self.offset.width, height: sat_add(self.offset.height, height) },
            dimensions: self.dimensions,
            original_dimensions: self.original_dimensions,
        }
    }

    /// Moves the placement `width` pixels to the right.
    pub fn add_width(&self, width: u32) -> (r: ImageOffset)
        ensures
            r == self.moved_right(width as int),
    {
        ImageOffset {
            offset: Size { width: sat_add(self.offset.width, width), height: self.offset.height },
            dimensions: self.dimensions,
            original_dimensions: self.original_dimensions,
        }
    }

    /// The column just past the placement's right edge.
    pub fn total_width(&self) -> (r: u32)
        ensures
            r == self.right(),
    {
        sat_add(self.offset.width, self.dimensions.width)
    }

    /// The row just below the placement's bottom edge.
    pub fn total_height(&self) -> (r: u32)
        ensures
            r == self.bottom(),
    {
        sat_add(self.offset.height, self.dimensions.height)
    }
}

} // verus!
