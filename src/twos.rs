use vstd::prelude::*;

use crate::geometry::{
    native, placed, sat, scale_height_dimension, scale_width_dimension, sat_add, to_height,
    to_width, valid_size, ImageOffset, Size, SPACING_SIZE,
};
use crate::layout::{best_layout, best_mosaic, no_overlap, views, MosaicImageDims};

verus! {

/// `first` at native size, `second` to its right at the same height.
pub open spec fn left_right_layout(first: Size, second: Size) -> Seq<ImageOffset> {
    seq![
        native(first),
        placed(sat(first.width + SPACING_SIZE), 0, to_height(second, first.height), second),
    ]
}

/// `first` at native size, `second` below it at the same width.
pub open spec fn top_bottom_layout(first: Size, second: Size) -> Seq<ImageOffset> {
    seq![
        native(first),
        placed(0, sat(first.height + SPACING_SIZE), to_width(second, first.width), second),
    ]
}

/// Two images side by side, the second scaled to the height of the first.
pub fn left_right_2_mosaic(first: Size, second: Size) -> (r: MosaicImageDims)
    requires
        valid_size(first),
        valid_size(second),
    ensures
        r.images@ == left_right_layout(first, second),
{
    let a = ImageOffset {
        offset: Size { width: 0, height: 0 },
        dimensions: first,
        original_dimensions: first,
    };
    let b = ImageOffset {
        offset: Size { width: sat_add(first.width, SPACING_SIZE), height: 0 },
        dimensions: scale_height_dimension(second, first.height),
        original_dimensions: second,
    };
    let images = vec![a, b];
    assert(images@ =~= left_right_layout(first, second));
    MosaicImageDims { images }
}

/// Two images stacked, the second scaled to the width of the first.
pub fn top_bottom_2_mosaic(first: Size, second: Size) -> (r: MosaicImageDims)
    requires
        valid_size(first),
        valid_size(second),
    ensures
        r.images@ == top_bottom_layout(first, second),
{
    let a = ImageOffset {
        offset: Size { width: 0, height: 0 },
        dimensions: first,
        original_dimensions: first,
    };
    let b = ImageOffset {
        offset: Size { width: 0, height: sat_add(first.height, SPACING_SIZE) },
        dimensions: scale_width_dimension(second, first.width),
        original_dimensions: second,
    };
    let images = vec![a, b];
    assert(images@ =~= top_bottom_layout(first, second));
    MosaicImageDims { images }
}


/// The arrangements tried for two images, in order of preference on ties.
pub open spec fn candidates_2(first: Size, second: Size) -> Seq<Seq<ImageOffset>> {
    seq![top_bottom_layout(first, second), left_right_layout(first, second)]
}

/// The best arrangement of two images of the given sizes.
pub fn best_2_mosaic(first: Size, second: Size) -> (r: MosaicImageDims)
    requires
        valid_size(first),
        valid_size(second),
    ensures
        r.images@ == best_layout(candidates_2(first, second)),
{
    let top_bottom = top_bottom_2_mosaic(first, second);
    let left_right = left_right_2_mosaic(first, second);
    let all = vec![top_bottom, left_right];
    assert(views(all@) =~= candidates_2(first, second));
    best_mosaic(all)
}

/// Neither two-image arrangement overlaps.
pub proof fn lemma_candidates_2_apart(first: Size, second: Size)
    ensures
        no_overlap(left_right_layout(first, second)),
        no_overlap(top_bottom_layout(first, second)),
{
}

} // verus!
