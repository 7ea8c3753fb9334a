use vstd::prelude::*;

use crate::geometry::{
    lemma_scale_len_monotone, lemma_scale_len_zero, native, placed, sat, scale_height_dimension, scale_width_dimension, sat_add, to_height,
    to_width, valid_size, ImageOffset, Size, SPACING_SIZE,
};
use crate::layout::{
    best_layout, best_mosaic, extent, lemma_extent_covers, move_down_all, move_right_all,
    no_overlap, scale_all, views, MosaicImageDims,
};
use crate::threes::{
    below, beside, three_columns_3_mosaic, three_columns_layout, three_rows_3_mosaic,
    three_rows_layout,
};
use crate::twos::{left_right_2_mosaic, left_right_layout, top_bottom_2_mosaic, top_bottom_layout};

verus! {

/// Four columns, all at the height of the first image.
pub open spec fn four_columns_layout(a: Size, b: Size, c: Size, d: Size) -> Seq<ImageOffset> {
    let p2 = beside(a, b);
    let p3 = placed(sat(p2.right() + SPACING_SIZE), 0, to_height(c, a.height), c);
    seq![native(a), p2, p3, placed(sat(p3.right() + SPACING_SIZE), 0, to_height(d, a.height), d)]
}

/// Four rows, all at the width of the first image.
pub open spec fn four_rows_layout(a: Size, b: Size, c: Size, d: Size) -> Seq<ImageOffset> {
    let p2 = below(a, b);
    let p3 = placed(0, sat(p2.bottom() + SPACING_SIZE), to_width(c, a.width), c);
    seq![native(a), p2, p3, placed(0, sat(p3.bottom() + SPACING_SIZE), to_width(d, a.width), d)]
}

/// Two rows of two; the second row is scaled as a whole to the width of the first.
pub open spec fn two_rows_of_two_layout(a: Size, b: Size, c: Size, d: Size) -> Seq<ImageOffset> {
    let r1 = left_right_layout(a, b);
    let r2 = left_right_layout(c, d);
    let e1 = extent(r1);
    let e2 = extent(r2);
    r1 + move_down_all(
        scale_all(r2, e2.width as int, e1.width as int),
        sat(e1.height + SPACING_SIZE) as int,
    )
}

/// The first image on top, at the width of a row of the other three below it.
pub open spec fn two_rows_one_three_layout(a: Size, b: Size, c: Size, d: Size) -> Seq<ImageOffset> {
    let r = three_columns_layout(b, c, d);
    let d1 = to_width(a, extent(r).width);
    seq![placed(0, 0, d1, a)] + move_down_all(r, sat(d1.height + SPACING_SIZE) as int)
}

/// A row of three, with the last image below it at the row's width.
pub open spec fn two_rows_three_one_layout(a: Size, b: Size, c: Size, d: Size) -> Seq<ImageOffset> {
    let r = three_columns_layout(a, b, c);
    let e = extent(r);
    r + seq![placed(0, sat(e.height + SPACING_SIZE), to_width(d, e.width), d)]
}

/// Two columns of two; the second column is scaled as a whole to the height of the first.
pub open spec fn two_columns_of_two_layout(a: Size, b: Size, c: Size, d: Size) -> Seq<ImageOffset> {
    let c1 = top_bottom_layout(a, b);
    let c2 = top_bottom_layout(c, d);
    let e1 = extent(c1);
    let e2 = extent(c2);
    c1 + move_right_all(
        scale_all(c2, e2.height as int, e1.height as int),
        sat(e1.width + SPACING_SIZE) as int,
    )
}

/// The first image on the left, at the height of a column of the other three.
pub open spec fn two_columns_one_three_layout(a: Size, b: Size, c: Size, d: Size) -> Seq<
    ImageOffset,
> {
    let col = three_rows_layout(b, c, d);
    let d1 = to_height(a, extent(col).height);
    seq![placed(0, 0, d1, a)] + move_right_all(col, sat(d1.width + SPACING_SIZE) as int)
}

/// A column of three, with the last image to its right at the column's height.
pub open spec fn two_columns_three_one_layout(a: Size, b: Size, c: Size, d: Size) -> Seq<
    ImageOffset,
> {
    let col = three_rows_layout(a, b, c);
    let e = extent(col);
    col + seq![placed(sat(e.width + SPACING_SIZE), 0, to_height(d, e.height), d)]
}

/// A row of two on top, then two full-width rows.
pub open spec fn three_rows_211_layout(a: Size, b: Size, c: Size, d: Size) -> Seq<ImageOffset> {
    let r1 = left_right_layout(a, b);
    let e = extent(r1);
    let p3 = placed(0, sat(e.height + SPACING_SIZE), to_width(c, e.width), c);
    r1 + seq![p3, placed(0, sat(p3.bottom() + SPACING_SIZE), to_width(d, e.width), d)]
}

/// A full-width row, a row of two, then another full-width row.
pub open spec fn three_rows_121_layout(a: Size, b: Size, c: Size, d: Size) -> Seq<ImageOffset> {
    let r2 = left_right_layout(b, c);
    let d1 = to_width(a, extent(r2).width);
    let m = move_down_all(r2, sat(d1.height + SPACING_SIZE) as int);
    let em = extent(m);
    seq![placed(0, 0, d1, a)] + m + seq![
        placed(0, sat(em.height + SPACING_SIZE), to_width(d, em.width), d),
    ]
}

/// Two full-width rows, then a row of two.
pub open spec fn three_rows_112_layout(a: Size, b: Size, c: Size, d: Size) -> Seq<ImageOffset> {
    let r3 = left_right_layout(c, d);
    let e = extent(r3);
    let p1 = placed(0, 0, to_width(a, e.width), a);
    let p2 = placed(0, sat(p1.bottom() + SPACING_SIZE), to_width(b, e.width), b);
    seq![p1, p2] + move_down_all(r3, sat(p2.bottom() + SPACING_SIZE) as int)
}

/// A column of two on the left, then two full-height columns.
pub open spec fn three_columns_211_layout(a: Size, b: Size, c: Size, d: Size) -> Seq<ImageOffset> {
    let c1 = top_bottom_layout(a, b);
    let e = extent(c1);
    let p3 = placed(sat(e.width + SPACING_SIZE), 0, to_height(c, e.height), c);
    c1 + seq![p3, placed(sat(p3.right() + SPACING_SIZE), 0, to_height(d, e.height), d)]
}

/// A full-height column, a column of two, then another full-height column.
pub open spec fn three_columns_121_layout(a: Size, b: Size, c: Size, d: Size) -> Seq<ImageOffset> {
    let c2 = top_bottom_layout(b, c);
    let p1 = placed(0, 0, to_height(a, extent(c2).height), a);
    let m = move_right_all(c2, sat(p1.right() + SPACING_SIZE) as int);
    let em = extent(m);
    seq![p1] + m + seq![placed(sat(em.width + SPACING_SIZE), 0, to_height(d, em.height), d)]
}

/// Two full-height columns, then a column of two.
pub open spec fn three_columns_112_layout(a: Size, b: Size, c: Size, d: Size) -> Seq<ImageOffset> {
    let c3 = top_bottom_layout(c, d);
    let e = extent(c3);
    let p1 = placed(0, 0, to_height(a, e.height), a);
    let p2 = placed(sat(p1.right() + SPACING_SIZE), 0, to_height(b, e.height), b);
    seq![p1, p2] + move_right_all(c3, sat(p2.right() + SPACING_SIZE) as int)
}

/// Builds the arrangement described by [`four_columns_layout`].
pub fn four_columns_4_mosaic(first: Size, second: Size, third: Size, fourth: Size) -> (r:
    MosaicImageDims)
    requires
        valid_size(first),
        valid_size(second),
        valid_size(third),
        valid_size(fourth),
    ensures
        r.images@ == four_columns_layout(first, second, third, fourth),
{
    let image2_offset = ImageOffset {
        offset: Size { width: sat_add(first.width, SPACING_SIZE), height: 0 },
        dimensions: scale_height_dimension(second, first.height),
        original_dimensions: second,
    };
    let image3_offset = ImageOffset {
        offset: Size { width: sat_add(image2_offset.total_width(), SPACING_SIZE), height: 0 },
        dimensions: scale_height_dimension(third, first.height),
        original_dimensions: third,
    };
    let image4_offset = ImageOffset {
        offset: Size { width: sat_add(image3_offset.total_width(), SPACING_SIZE), height: 0 },
        dimensions: scale_height_dimension(fourth, first.height),
        original_dimensions: fourth,
    };
    let image1_offset = ImageOffset {
        offset: Size { width: 0, height: 0 },
        dimensions: first,
        original_dimensions: first,
    };
    let images = vec![image1_offset, image2_offset, image3_offset, image4_offset];
    assert(images@ =~= four_columns_layout(first, second, third, fourth));
    MosaicImageDims { images }
}

/// Builds the arrangement described by [`four_rows_layout`].
pub fn four_rows_4_mosaic(first: Size, second: Size, third: Size, fourth: Size) -> (r:
    MosaicImageDims)
    requires
        valid_size(first),
        valid_size(second),
        valid_size(third),
        valid_size(fourth),
    ensures
        r.images@ == four_rows_layout(first, second, third, fourth),
{
    let image2_offset = ImageOffset {
        offset: Size { width: 0, height: sat_add(first.height, SPACING_SIZE) },
        dimensions: scale_width_dimension(second, first.width),
        original_dimensions: second,
    };
    let image3_offset = ImageOffset {
        offset: Size { width: 0, height: sat_add(image2_offset.total_height(), SPACING_SIZE) },
        dimensions: scale_width_dimension(third, first.width),
        original_dimensions: third,
    };
    let image4_offset = ImageOffset {
        offset: Size { width: 0, height: sat_add(image3_offset.total_height(), SPACING_SIZE) },
        dimensions: scale_width_dimension(fourth, first.width),
        original_dimensions: fourth,
    };
    let image1_offset = ImageOffset {
        offset: Size { width: 0, height: 0 },
        dimensions: first,
        original_dimensions: first,
    };
    let images = vec![image1_offset, image2_offset, image3_offset, image4_offset];
    assert(images@ =~= four_rows_layout(first, second, third, fourth));
    MosaicImageDims { images }
}

/// Builds the arrangement described by [`two_rows_of_two_layout`].
pub fn two_rows_of_two_4_mosaic(first: Size, second: Size, third: Size, fourth: Size) -> (r:
    MosaicImageDims)
    requires
        valid_size(first),
        valid_size(second),
        valid_size(third),
        valid_size(fourth),
    ensures
        r.images@ == two_rows_of_two_layout(first, second, third, fourth),
{
    let first_row = left_right_2_mosaic(first, second);
    let second_row = left_right_2_mosaic(third, fourth);
    let first_size = first_row.total_size();
    let second_size = second_row.total_size();
    proof {
        lemma_extent_covers(second_row.images@, 1);
    }
    let second_row_moved = second_row.scale(second_size.width, first_size.width).add_height(
        sat_add(first_size.height, SPACING_SIZE),
    );
    let images = vec![
        first_row.images[0],
        first_row.images[1],
        second_row_moved.images[0],
        second_row_moved.images[1],
    ];
    assert(images@ =~= two_rows_of_two_layout(first, second, third, fourth));
    MosaicImageDims { images }
}

/// Builds the arrangement described by [`two_rows_one_three_layout`].
pub fn two_rows_one_three_4_mosaic(first: Size, second: Size, third: Size, fourth: Size) -> (r:
    MosaicImageDims)
    requires
        valid_size(first),
        valid_size(second),
        valid_size(third),
        valid_size(fourth),
    ensures
        r.images@ == two_rows_one_three_layout(first, second, third, fourth),
{
    let second_row = three_columns_3_mosaic(second, third, fourth);
    let image1_dims = scale_width_dimension(first, second_row.total_size().width);
    let second_row_moved = second_row.add_height(sat_add(image1_dims.height, SPACING_SIZE));
    let images = vec![
        ImageOffset {
            offset: Size { width: 0, height: 0 },
            dimensions: image1_dims,
            original_dimensions: first,
        },
        second_row_moved.images[0],
        second_row_moved.images[1],
        second_row_moved.images[2],
    ];
    assert(images@ =~= two_rows_one_three_layout(first, second, third, fourth));
    MosaicImageDims { images }
}

/// Builds the arrangement described by [`two_rows_three_one_layout`].
pub fn two_rows_three_one_4_mosaic(first: Size, second: Size, third: Size, fourth: Size) -> (r:
    MosaicImageDims)
    requires
        valid_size(first),
        valid_size(second),
        valid_size(third),
        valid_size(fourth),
    ensures
        r.images@ == two_rows_three_one_layout(first, second, third, fourth),
{
    let first_row = three_columns_3_mosaic(first, second, third);
    let row_size = first_row.total_size();
    let image4_dims = scale_width_dimension(fourth, row_size.width);
    let images = vec![
        first_row.images[0],
        first_row.images[1],
        first_row.images[2],
        ImageOffset {
            offset: Size { width: 0, height: sat_add(row_size.height, SPACING_SIZE) },
            dimensions: image4_dims,
            original_dimensions: fourth,
        },
    ];
    assert(images@ =~= two_rows_three_one_layout(first, second, third, fourth));
    MosaicImageDims { images }
}

/// Builds the arrangement described by [`two_columns_of_two_layout`].
pub fn two_columns_of_two_4_mosaic(first: Size, second: Size, third: Size, fourth: Size) -> (r:
    MosaicImageDims)
    requires
        valid_size(first),
        valid_size(second),
        valid_size(third),
        valid_size(fourth),
    ensures
        r.images@ == two_columns_of_two_layout(first, second, third, fourth),
{
    let first_col = top_bottom_2_mosaic(first, second);
    let second_col = top_bottom_2_mosaic(third, fourth);
    let first_size = first_col.total_size();
    let second_size = second_col.total_size();
    proof {
        lemma_extent_covers(second_col.images@, 1);
    }
    let second_col_moved = second_col.scale(second_size.height, first_size.height).add_width(
        sat_add(first_size.width, SPACING_SIZE),
    );
    let images = vec![
        first_col.images[0],
        first_col.images[1],
        second_col_moved.images[0],
        second_col_moved.images[1],
    ];
    assert(images@ =~= two_columns_of_two_layout(first, second, third, fourth));
    MosaicImageDims { images }
}

/// Builds the arrangement described by [`two_columns_one_three_layout`].
pub fn two_columns_one_three_4_mosaic(first: Size, second: Size, third: Size, fourth: Size) -> (r:
    MosaicImageDims)
    requires
        valid_size(first),
        valid_size(second),
        valid_size(third),
        valid_size(fourth),
    ensures
        r.images@ == two_columns_one_three_layout(first, second, third, fourth),
{
    let second_col = three_rows_3_mosaic(second, third, fourth);
    let image1_dims = scale_height_dimension(first, second_col.total_size().height);
    let second_col_moved = second_col.add_width(sat_add(image1_dims.width, SPACING_SIZE));
    let images = vec![
        ImageOffset {
            offset: Size { width: 0, height: 0 },
            dimensions: image1_dims,
            original_dimensions: first,
        },
        second_col_moved.images[0],
        second_col_moved.images[1],
        second_col_moved.images[2],
    ];
    assert(images@ =~= two_columns_one_three_layout(first, second, third, fourth));
    MosaicImageDims { images }
}

/// Builds the arrangement described by [`two_columns_three_one_layout`].
pub fn two_columns_three_one_4_mosaic(first: Size, second: Size, third: Size, fourth: Size) -> (r:
    MosaicImageDims)
    requires
        valid_size(first),
        valid_size(second),
        valid_size(third),
        valid_size(fourth),
    ensures
        r.images@ == two_columns_three_one_layout(first, second, third, fourth),
{
    let first_col = three_rows_3_mosaic(first, second, third);
    let col_size = first_col.total_size();
    let image4_dims = scale_height_dimension(fourth, col_size.height);
    let images = vec![
        first_col.images[0],
        first_col.images[1],
        first_col.images[2],
        ImageOffset {
            offset: Size { width: sat_add(col_size.width, SPACING_SIZE), height: 0 },
            dimensions: image4_dims,
            original_dimensions: fourth,
        },
    ];
    assert(images@ =~= two_columns_three_one_layout(first, second, third, fourth));
    MosaicImageDims { images }
}

/// Builds the arrangement described by [`three_rows_211_layout`].
pub fn three_rows_211_4_mosaic(first: Size, second: Size, third: Size, fourth: Size) -> (r:
    MosaicImageDims)
    requires
        valid_size(first),
        valid_size(second),
        valid_size(third),
        valid_size(fourth),
    ensures
        r.images@ == three_rows_211_layout(first, second, third, fourth),
{
    let first_row = left_right_2_mosaic(first, second);
    let row_size = first_row.total_size();
    let image3_offset = ImageOffset {
        offset: Size { width: 0, height: sat_add(row_size.height, SPACING_SIZE) },
        dimensions: scale_width_dimension(third, row_size.width),
        original_dimensions: third,
    };
    let image4_offset = ImageOffset {
        offset: Size { width: 0, height: sat_add(image3_offset.total_height(), SPACING_SIZE) },
        dimensions: scale_width_dimension(fourth, row_size.width),
        original_dimensions: fourth,
    };
    let images = vec![first_row.images[0], first_row.images[1], image3_offset, image4_offset];
    assert(images@ =~= three_rows_211_layout(first, second, third, fourth));
    MosaicImageDims { images }
}

/// Builds the arrangement described by [`three_rows_121_layout`].
pub fn three_rows_121_4_mosaic(first: Size, second: Size, third: Size, fourth: Size) -> (r:
    MosaicImageDims)
    requires
        valid_size(first),
        valid_size(second),
        valid_size(third),
        valid_size(fourth),
    ensures
        r.images@ == three_rows_121_layout(first, second, third, fourth),
{
    let second_row = left_right_2_mosaic(second, third);
    let image1_dims = scale_width_dimension(first, second_row.total_size().width);
    let second_row_moved = second_row.add_height(sat_add(image1_dims.height, SPACING_SIZE));
    let moved_size = second_row_moved.total_size();
    let images = vec![
        ImageOffset {
            offset: Size { width: 0, height: 0 },
            dimensions: image1_dims,
            original_dimensions: first,
        },
        second_row_moved.images[0],
        second_row_moved.images[1],
        ImageOffset {
            offset: Size { width: 0, height: sat_add(moved_size.height, SPACING_SIZE) },
            dimensions: scale_width_dimension(fourth, moved_size.width),
            original_dimensions: fourth,
        },
    ];
    assert(images@ =~= three_rows_121_layout(first, second, third, fourth));
    MosaicImageDims { images }
}

/// Builds the arrangement described by [`three_rows_112_layout`].
pub fn three_rows_112_4_mosaic(first: Size, second: Size, third: Size, fourth: Size) -> (r:
    MosaicImageDims)
    requires
        valid_size(first),
        valid_size(second),
        valid_size(third),
        valid_size(fourth),
    ensures
        r.images@ == three_rows_112_layout(first, second, third, fourth),
{
    let third_row = left_right_2_mosaic(third, fourth);
    let row_size = third_row.total_size();
    let image1_offset = ImageOffset {
        offset: Size { width: 0, height: 0 },
        dimensions: scale_width_dimension(first, row_size.width),
        original_dimensions: first,
    };
    let image2_offset = ImageOffset {
        offset: Size { width: 0, height: sat_add(image1_offset.total_height(), SPACING_SIZE) },
        dimensions: scale_width_dimension(second, row_size.width),
        original_dimensions: second,
    };
    let third_row_moved = third_row.add_height(sat_add(image2_offset.total_height(), SPACING_SIZE));
    let images = vec![
        image1_offset,
        image2_offset,
        third_row_moved.images[0],
        third_row_moved.images[1],
    ];
    assert(images@ =~= three_rows_112_layout(first, second, third, fourth));
    MosaicImageDims { images }
}

/// Builds the arrangement described by [`three_columns_211_layout`].
pub fn three_columns_211_4_mosaic(first: Size, second: Size, third: Size, fourth: Size) -> (r:
    MosaicImageDims)
    requires
        valid_size(first),
        valid_size(second),
        valid_size(third),
        valid_size(fourth),
    ensures
        r.images@ == three_columns_211_layout(first, second, third, fourth),
{
    let first_col = top_bottom_2_mosaic(first, second);
    let col_size = first_col.total_size();
    let image3_offset = ImageOffset {
        offset: Size { width: sat_add(col_size.width, SPACING_SIZE), height: 0 },
        dimensions: scale_height_dimension(third, col_size.height),
        original_dimensions: third,
    };
    let image4_offset = ImageOffset {
        offset: Size { width: sat_add(image3_offset.total_width(), SPACING_SIZE), height: 0 },
        dimensions: scale_height_dimension(fourth, col_size.height),
        original_dimensions: fourth,
    };
    let images = vec![first_col.images[0], first_col.images[1], image3_offset, image4_offset];
    assert(images@ =~= three_columns_211_layout(first, second, third, fourth));
    MosaicImageDims { images }
}

/// Builds the arrangement described by [`three_columns_121_layout`].
pub fn three_columns_121_4_mosaic(first: Size, second: Size, third: Size, fourth: Size) -> (r:
    MosaicImageDims)
    requires
        valid_size(first),
        valid_size(second),
        valid_size(third),
        valid_size(fourth),
    ensures
        r.images@ == three_columns_121_layout(first, second, third, fourth),
{
    let second_col = top_bottom_2_mosaic(second, third);
    let image1_offset = ImageOffset {
        offset: Size { width: 0, height: 0 },
        dimensions: scale_height_dimension(first, second_col.total_size().height),
        original_dimensions: first,
    };
    let second_col_moved = second_col.add_width(sat_add(image1_offset.total_width(), SPACING_SIZE));
    let moved_size = second_col_moved.total_size();
    let images = vec![
        image1_offset,
        second_col_moved.images[0],
        second_col_moved.images[1],
        ImageOffset {
            offset: Size { width: sat_add(moved_size.width, SPACING_SIZE), height: 0 },
            dimensions: scale_height_dimension(fourth, moved_size.height),
            original_dimensions: fourth,
        },
    ];
    assert(images@ =~= three_columns_121_layout(first, second, third, fourth));
    MosaicImageDims { images }
}

/// Builds the arrangement described by [`three_columns_112_layout`].
pub fn three_columns_112_4_mosaic(first: Size, second: Size, third: Size, fourth: Size) -> (r:
    MosaicImageDims)
    requires
        valid_size(first),
        valid_size(second),
        valid_size(third),
        valid_size(fourth),
    ensures
        r.images@ == three_columns_112_layout(first, second, third, fourth),
{
    let third_col = top_bottom_2_mosaic(third, fourth);
    let col_size = third_col.total_size();
    let image1_offset = ImageOffset {
        offset: Size { width: 0, height: 0 },
        dimensions: scale_height_dimension(first, col_size.height),
        original_dimensions: first,
    };
    let image2_offset = ImageOffset {
        offset: Size { width: sat_add(image1_offset.total_width(), SPACING_SIZE), height: 0 },
        dimensions: scale_height_dimension(second, col_size.height),
        original_dimensions: second,
    };
    let third_col_moved = third_col.add_width(sat_add(image2_offset.total_width(), SPACING_SIZE));
    let images = vec![
        image1_offset,
        image2_offset,
        third_col_moved.images[0],
        third_col_moved.images[1],
    ];
    assert(images@ =~= three_columns_112_layout(first, second, third, fourth));
    MosaicImageDims { images }
}


/// The arrangements tried for four images, in order of preference on ties. The
/// column-wise twins of the two-by-two and three-row arrangements are left out: they
/// read less clearly than the row-wise ones.
pub open spec fn candidates_4(a: Size, b: Size, c: Size, d: Size) -> Seq<Seq<ImageOffset>> {
    seq![
        four_columns_layout(a, b, c, d),
        four_rows_layout(a, b, c, d),
        two_rows_of_two_layout(a, b, c, d),
        two_rows_one_three_layout(a, b, c, d),
        two_rows_three_one_layout(a, b, c, d),
        two_columns_one_three_layout(a, b, c, d),
        two_columns_three_one_layout(a, b, c, d),
        three_rows_211_layout(a, b, c, d),
        three_rows_121_layout(a, b, c, d),
        three_rows_112_layout(a, b, c, d),
    ]
}

/// The best arrangement of four images of the given sizes.
/// Builds the arrangement described by [`best_layout`].
pub fn best_4_mosaic(first: Size, second: Size, third: Size, fourth: Size) -> (r: MosaicImageDims)
    requires
        valid_size(first),
        valid_size(second),
        valid_size(third),
        valid_size(fourth),
    ensures
        r.images@ == best_layout(candidates_4(first, second, third, fourth)),
{
    let all = vec![
        four_columns_4_mosaic(first, second, third, fourth),
        four_rows_4_mosaic(first, second, third, fourth),
        two_rows_of_two_4_mosaic(first, second, third, fourth),
        two_rows_one_three_4_mosaic(first, second, third, fourth),
        two_rows_three_one_4_mosaic(first, second, third, fourth),
        two_columns_one_three_4_mosaic(first, second, third, fourth),
        two_columns_three_one_4_mosaic(first, second, third, fourth),
        three_rows_211_4_mosaic(first, second, third, fourth),
        three_rows_121_4_mosaic(first, second, third, fourth),
        three_rows_112_4_mosaic(first, second, third, fourth),
    ];
    assert(views(all@) =~= candidates_4(first, second, third, fourth));
    best_mosaic(all)
}


proof fn lemma_four_columns_apart(a: Size, b: Size, c: Size, d: Size)
    ensures
        no_overlap(four_columns_layout(a, b, c, d)),
{
}

proof fn lemma_four_rows_apart(a: Size, b: Size, c: Size, d: Size)
    ensures
        no_overlap(four_rows_layout(a, b, c, d)),
{
}

proof fn lemma_two_rows_of_two_apart(a: Size, b: Size, c: Size, d: Size)
    ensures
        no_overlap(two_rows_of_two_layout(a, b, c, d)),
{
    let r1 = left_right_layout(a, b);
    let r2 = left_right_layout(c, d);
    let e1 = extent(r1);
    let e2 = extent(r2);
    lemma_extent_covers(r1, 0);
    lemma_extent_covers(r1, 1);
    lemma_extent_covers(r2, 1);
    let num = e2.width as int;
    let den = e1.width as int;
    lemma_scale_len_zero(num, den);
    lemma_scale_len_monotone(c.width as int, r2[1].offset.width as int, num, den);
    let m = move_down_all(scale_all(r2, num, den), sat(e1.height + SPACING_SIZE) as int);
    assert(m[0].right() <= m[1].offset.width);
}

proof fn lemma_two_rows_one_three_apart(a: Size, b: Size, c: Size, d: Size)
    ensures
        no_overlap(two_rows_one_three_layout(a, b, c, d)),
{
}

proof fn lemma_two_rows_three_one_apart(a: Size, b: Size, c: Size, d: Size)
    ensures
        no_overlap(two_rows_three_one_layout(a, b, c, d)),
{
}

proof fn lemma_two_columns_one_three_apart(a: Size, b: Size, c: Size, d: Size)
    ensures
        no_overlap(two_columns_one_three_layout(a, b, c, d)),
{
}

proof fn lemma_two_columns_three_one_apart(a: Size, b: Size, c: Size, d: Size)
    ensures
        no_overlap(two_columns_three_one_layout(a, b, c, d)),
{
}

proof fn lemma_three_rows_211_apart(a: Size, b: Size, c: Size, d: Size)
    ensures
        no_overlap(three_rows_211_layout(a, b, c, d)),
{
}

proof fn lemma_three_rows_121_apart(a: Size, b: Size, c: Size, d: Size)
    ensures
        no_overlap(three_rows_121_layout(a, b, c, d)),
{
}

proof fn lemma_three_rows_112_apart(a: Size, b: Size, c: Size, d: Size)
    ensures
        no_overlap(three_rows_112_layout(a, b, c, d)),
{
}


/// No four-image arrangement overlaps.
pub proof fn lemma_candidates_4_apart(a: Size, b: Size, c: Size, d: Size)
    ensures
        forall|k: int|
            0 <= k < candidates_4(a, b, c, d).len() ==> no_overlap(
                #[trigger] candidates_4(a, b, c, d)[k],
            ),
{
    lemma_four_columns_apart(a, b, c, d);
    lemma_four_rows_apart(a, b, c, d);
    lemma_two_rows_of_two_apart(a, b, c, d);
    lemma_two_rows_one_three_apart(a, b, c, d);
    lemma_two_rows_three_one_apart(a, b, c, d);
    lemma_two_columns_one_three_apart(a, b, c, d);
    lemma_two_columns_three_one_apart(a, b, c, d);
    lemma_three_rows_211_apart(a, b, c, d);
    lemma_three_rows_121_apart(a, b, c, d);
    lemma_three_rows_112_apart(a, b, c, d);
}

} // verus!
