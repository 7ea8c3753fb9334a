use vstd::prelude::*;

use crate::geometry::{
    native, placed, sat, scale_height_dimension, scale_width_dimension, sat_add, to_height,
    to_width, valid_size, ImageOffset, Size, SPACING_SIZE,
};
use crate::layout::{best_layout, best_mosaic, no_overlap, views, MosaicImageDims};

verus! {

/// The second tile of a row that starts with `first`.
pub open spec fn beside(first: Size, second: Size) -> ImageOffset {
    placed(sat(first.width + SPACING_SIZE), 0, to_height(second, first.height), second)
}

/// The second tile of a column that starts with `first`.
pub open spec fn below(first: Size, second: Size) -> ImageOffset {
    placed(0, sat(first.height + SPACING_SIZE), to_width(second, first.width), second)
}

/// Three columns, all at the height of the first image.
pub open spec fn three_columns_layout(first: Size, second: Size, third: Size) -> Seq<ImageOffset> {
    let p2 = beside(first, second);
    seq![
        native(first),
        p2,
        placed(sat(p2.right() + SPACING_SIZE), 0, to_height(third, first.height), third),
    ]
}

/// Two images in a row, the third below them across their full width.
pub open spec fn top_top_bottom_layout(first: Size, second: Size, third: Size) -> Seq<ImageOffset> {
    let p2 = beside(first, second);
    seq![
        native(first),
        p2,
        placed(0, sat(first.height + SPACING_SIZE), to_width(third, p2.right()), third),
    ]
}

/// Two images in a column, the third to their right across their full height.
pub open spec fn left_left_right_layout(first: Size, second: Size, third: Size) -> Seq<ImageOffset> {
    let p2 = below(first, second);
    seq![
        native(first),
        p2,
        placed(sat(first.width + SPACING_SIZE), 0, to_height(third, p2.bottom()), third),
    ]
}

/// The first image on the left across the full height of the other two, which are
/// stacked at the width of the second.
pub open spec fn left_right_right_layout(first: Size, second: Size, third: Size) -> Seq<ImageOffset> {
    let d3 = to_width(third, second.width);
    let d1 = to_height(first, sat(sat(second.height + d3.height) + SPACING_SIZE));
    let x = sat(d1.width + SPACING_SIZE);
    let p2 = placed(x, 0, second, second);
    seq![placed(0, 0, d1, first), p2, placed(x, sat(p2.bottom() + SPACING_SIZE), d3, third)]
}

/// The first image on top across the full width of the other two, which stand side
/// by side at the height of the second.
pub open spec fn top_bottom_bottom_layout(first: Size, second: Size, third: Size) -> Seq<
    ImageOffset,
> {
    let d3 = to_height(third, second.height);
    let d1 = to_width(first, sat(sat(second.width + d3.width) + SPACING_SIZE));
    let y = sat(d1.height + SPACING_SIZE);
    seq![
        placed(0, 0, d1, first),
        placed(0, y, second, second),
        placed(sat(second.width + SPACING_SIZE), y, d3, third),
    ]
}

/// Three rows, all at the width of the first image.
pub open spec fn three_rows_layout(first: Size, second: Size, third: Size) -> Seq<ImageOffset> {
    let p2 = below(first, second);
    seq![
        native(first),
        p2,
        placed(0, sat(p2.bottom() + SPACING_SIZE), to_width(third, first.width), third),
    ]
}

fn at_origin(size: Size) -> (r: ImageOffset)
    ensures
        r == native(size),
{
    ImageOffset { offset: Size { width: 0, height: 0 }, dimensions: size, original_dimensions: size }
}

fn next_in_row(first: Size, second: Size) -> (r: ImageOffset)
    requires
        valid_size(second),
    ensures
        r == beside(first, second),
{
    ImageOffset {
        offset: Size { width: sat_add(first.width, SPACING_SIZE), height: 0 },
        dimensions: scale_height_dimension(second, first.height),
        original_dimensions: second,
    }
}

fn next_in_column(first: Size, second: Size) -> (r: ImageOffset)
    requires
        valid_size(second),
    ensures
        r == below(first, second),
{
    ImageOffset {
        offset: Size { width: 0, height: sat_add(first.height, SPACING_SIZE) },
        dimensions: scale_width_dimension(second, first.width),
        original_dimensions: second,
    }
}

/// Builds the arrangement described by [`three_columns_layout`].
pub fn three_columns_3_mosaic(first: Size, second: Size, third: Size) -> (r: MosaicImageDims)
    requires
        valid_size(first),
        valid_size(second),
        valid_size(third),
    ensures
        r.images@ == three_columns_layout(first, second, third),
{
    let image2_offset = next_in_row(first, second);
    let image3_offset = ImageOffset {
        offset: Size { width: sat_add(image2_offset.total_width(), SPACING_SIZE), height: 0 },
        dimensions: scale_height_dimension(third, first.height),
        original_dimensions: third,
    };
    let images = vec![at_origin(first), image2_offset, image3_offset];
    assert(images@ =~= three_columns_layout(first, second, third));
    MosaicImageDims { images }
}

/// Builds the arrangement described by [`top_top_bottom_layout`].
pub fn top_top_bottom_3_mosaic(first: Size, second: Size, third: Size) -> (r: MosaicImageDims)
    requires
        valid_size(first),
        valid_size(second),
        valid_size(third),
    ensures
        r.images@ == top_top_bottom_layout(first, second, third),
{
    let image2_offset = next_in_row(first, second);
    let image3_offset = ImageOffset {
        offset: Size { width: 0, height: sat_add(first.height, SPACING_SIZE) },
        dimensions: scale_width_dimension(third, image2_offset.total_width()),
        original_dimensions: third,
    };
    let images = vec![at_origin(first), image2_offset, image3_offset];
    assert(images@ =~= top_top_bottom_layout(first, second, third));
    MosaicImageDims { images }
}

/// Builds the arrangement described by [`left_left_right_layout`].
pub fn left_left_right_3_mosaic(first: Size, second: Size, third: Size) -> (r: MosaicImageDims)
    requires
        valid_size(first),
        valid_size(second),
        valid_size(third),
    ensures
        r.images@ == left_left_right_layout(first, second, third),
{
    let image2_offset = next_in_column(first, second);
    let image3_offset = ImageOffset {
        offset: Size { width: sat_add(first.width, SPACING_SIZE), height: 0 },
        dimensions: scale_height_dimension(third, image2_offset.total_height()),
        original_dimensions: third,
    };
    let images = vec![at_origin(first), image2_offset, image3_offset];
    assert(images@ =~= left_left_right_layout(first, second, third));
    MosaicImageDims { images }
}

/// Builds the arrangement described by [`left_right_right_layout`].
pub fn left_right_right_3_mosaic(first: Size, second: Size, third: Size) -> (r: MosaicImageDims)
    requires
        valid_size(first),
        valid_size(second),
        valid_size(third),
    ensures
        r.images@ == left_right_right_layout(first, second, third),
{
    let image3_dims = scale_width_dimension(third, second.width);
    let image1_dims = scale_height_dimension(
        first,
        sat_add(sat_add(second.height, image3_dims.height), SPACING_SIZE),
    );
    let x = sat_add(image1_dims.width, SPACING_SIZE);
    let image2_offset = ImageOffset {
        offset: Size { width: x, height: 0 },
        dimensions: second,
        original_dimensions: second,
    };
    let image3_offset = ImageOffset {
        offset: Size { width: x, height: sat_add(image2_offset.total_height(), SPACING_SIZE) },
        dimensions: image3_dims,
        original_dimensions: third,
    };
    let image1_offset = ImageOffset {
        offset: Size { width: 0, height: 0 },
        dimensions: image1_dims,
        original_dimensions: first,
    };
    let images = vec![image1_offset, image2_offset, image3_offset];
    assert(images@ =~= left_right_right_layout(first, second, third));
    MosaicImageDims { images }
}

/// Builds the arrangement described by [`top_bottom_bottom_layout`].
pub fn top_bottom_bottom_3_mosaic(first: Size, second: Size, third: Size) -> (r: MosaicImageDims)
    requires
        valid_size(first),
        valid_size(second),
        valid_size(third),
    ensures
        r.images@ == top_bottom_bottom_layout(first, second, third),
{
    let image3_dims = scale_height_dimension(third, second.height);
    let image1_dims = scale_width_dimension(
        first,
        sat_add(sat_add(second.width, image3_dims.width), SPACING_SIZE),
    );
    let y = sat_add(image1_dims.height, SPACING_SIZE);
    let images = vec![
        ImageOffset {
            offset: Size { width: 0, height: 0 },
            dimensions: image1_dims,
            original_dimensions: first,
        },
        ImageOffset {
            offset: Size { width: 0, height: y },
            dimensions: second,
            original_dimensions: second,
        },
        ImageOffset {
            offset: Size { width: sat_add(second.width, SPACING_SIZE), height: y },
            dimensions: image3_dims,
            original_dimensions: third,
        },
    ];
    assert(images@ =~= top_bottom_bottom_layout(first, second, third));
    MosaicImageDims { images }
}

/// Builds the arrangement described by [`three_rows_layout`].
pub fn three_rows_3_mosaic(first: Size, second: Size, third: Size) -> (r: MosaicImageDims)
    requires
        valid_size(first),
        valid_size(second),
        valid_size(third),
    ensures
        r.images@ == three_rows_layout(first, second, third),
{
    let image2_offset = next_in_column(first, second);
    let image3_offset = ImageOffset {
        offset: Size { width: 0, height: sat_add(image2_offset.total_height(), SPACING_SIZE) },
        dimensions: scale_width_dimension(third, first.width),
        original_dimensions: third,
    };
    let images = vec![at_origin(first), image2_offset, image3_offset];
    assert(images@ =~= three_rows_layout(first, second, third));
    MosaicImageDims { images }
}


/// The arrangements tried for three images, in order of preference on ties.
pub open spec fn candidates_3(first: Size, second: Size, third: Size) -> Seq<Seq<ImageOffset>> {
    seq![
        three_columns_layout(first, second, third),
        top_top_bottom_layout(first, second, third),
        left_left_right_layout(first, second, third),
        left_right_right_layout(first, second, third),
        top_bottom_bottom_layout(first, second, third),
        three_rows_layout(first, second, third),
    ]
}

/// The best arrangement of three images of the given sizes.
/// Builds the arrangement described by [`best_layout`].
pub fn best_3_mosaic(first: Size, second: Size, third: Size) -> (r: MosaicImageDims)
    requires
        valid_size(first),
        valid_size(second),
        valid_size(third),
    ensures
        r.images@ == best_layout(candidates_3(first, second, third)),
{
    let three_columns = three_columns_3_mosaic(first, second, third);
    let top_top_bottom = top_top_bottom_3_mosaic(first, second, third);
    let left_right_right = left_right_right_3_mosaic(first, second, third);
    let left_left_right = left_left_right_3_mosaic(first, second, third);
    let top_bottom_bottom = top_bottom_bottom_3_mosaic(first, second, third);
    let three_rows = three_rows_3_mosaic(first, second, third);
    let all = vec![
        three_columns,
        top_top_bottom,
        left_left_right,
        left_right_right,
        top_bottom_bottom,
        three_rows,
    ];
    assert(views(all@) =~= candidates_3(first, second, third));
    best_mosaic(all)
}

/// No three-image arrangement overlaps.
pub proof fn lemma_candidates_3_apart(first: Size, second: Size, third: Size)
    ensures
        no_overlap(three_columns_layout(first, second, third)),
        no_overlap(top_top_bottom_layout(first, second, third)),
        no_overlap(left_left_right_layout(first, second, third)),
        no_overlap(left_right_right_layout(first, second, third)),
        no_overlap(top_bottom_bottom_layout(first, second, third)),
        no_overlap(three_rows_layout(first, second, third)),
{
}

} // verus!
