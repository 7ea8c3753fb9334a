use vstd::prelude::*;

use crate::fours::{best_4_mosaic, candidates_4, lemma_candidates_4_apart};
use crate::geometry::{valid_size, ImageOffset, Size, MAX_SIZE};
use crate::layout::{
    best_layout, fitted, law_fitted_within_max, lemma_best_is_fitted_candidate,
    lemma_best_layout_len, lemma_fitted_origin_pair, no_overlap, origin_pair_apart, scorable,
    MosaicImageDims,
};
use crate::threes::{best_3_mosaic, candidates_3, lemma_candidates_3_apart};
use crate::twos::{best_2_mosaic, candidates_2, lemma_candidates_2_apart};

verus! {

/// Why no mosaic could be built.
#[derive(Clone, Copy, Debug, PartialEq, Eq, Structural)]
pub enum MosaicError {
    /// Fewer than two or more than four images were given.
    InvalidImageCount,
    /// An image has no width or no height.
    DegenerateImage,
    /// An image buffer the mosaic needs would not fit in memory.
    ImageTooLarge,
}

/// A mosaic is built from two, three or four images.
pub open spec fn supported_count(n: int) -> bool {
    2 <= n <= 4
}

/// Every size has a positive width and height.
pub open spec fn all_valid(sizes: Seq<Size>) -> bool {
    forall|i: int| 0 <= i < sizes.len() ==> #[trigger] valid_size(sizes[i])
}

/// The arrangement chosen for images of the given sizes.
pub open spec fn layout_for(sizes: Seq<Size>) -> Seq<ImageOffset> {
    if sizes.len() == 2 {
        best_layout(candidates_2(sizes[0], sizes[1]))
    } else if sizes.len() == 3 {
        best_layout(candidates_3(sizes[0], sizes[1], sizes[2]))
    } else {
        best_layout(candidates_4(sizes[0], sizes[1], sizes[2], sizes[3]))
    }
}

/// What planning a mosaic for images of the given sizes gives.
pub open spec fn plan_result(sizes: Seq<Size>) -> Result<Seq<ImageOffset>, MosaicError> {
    if !supported_count(sizes.len() as int) {
        Err(MosaicError::InvalidImageCount)
    } else if !all_valid(sizes) {
        Err(MosaicError::DegenerateImage)
    } else {
        Ok(layout_for(sizes))
    }
}

/// The chosen arrangement has one placement per image.
pub proof fn lemma_layout_len(sizes: Seq<Size>)
    requires
        supported_count(sizes.len() as int),
    ensures
        layout_for(sizes).len() == sizes.len(),
{
    if sizes.len() == 2 {
        let c = candidates_2(sizes[0], sizes[1]);
        assert forall|i: int| 0 <= i < c.len() implies (#[trigger] c[i]).len() == 2 by {}
        lemma_best_layout_len(c, 2);
    } else if sizes.len() == 3 {
        let c = candidates_3(sizes[0], sizes[1], sizes[2]);
        assert forall|i: int| 0 <= i < c.len() implies (#[trigger] c[i]).len() == 3 by {}
        lemma_best_layout_len(c, 3);
    } else {
        let c = candidates_4(sizes[0], sizes[1], sizes[2], sizes[3]);
        assert forall|i: int| 0 <= i < c.len() implies (#[trigger] c[i]).len() == 4 by {}
        lemma_best_layout_len(c, 4);
    }
}

/// Each placement of `c` is for the image of the same position in `sizes`, at its
/// native size.
pub open spec fn in_input_order(c: Seq<ImageOffset>, sizes: Seq<Size>) -> bool {
    &&& c.len() == sizes.len()
    &&& forall|i: int| 0 <= i < c.len() ==> (#[trigger] c[i]).original_dimensions == sizes[i]
}

/// The candidates for images of the given sizes.
pub open spec fn candidates_for(sizes: Seq<Size>) -> Seq<Seq<ImageOffset>> {
    if sizes.len() == 2 {
        candidates_2(sizes[0], sizes[1])
    } else if sizes.len() == 3 {
        candidates_3(sizes[0], sizes[1], sizes[2])
    } else {
        candidates_4(sizes[0], sizes[1], sizes[2], sizes[3])
    }
}

proof fn lemma_candidates_in_order(sizes: Seq<Size>)
    requires
        supported_count(sizes.len() as int),
    ensures
        layout_for(sizes) == best_layout(candidates_for(sizes)),
        candidates_for(sizes).len() > 0,
        forall|k: int|
            0 <= k < candidates_for(sizes).len() ==> in_input_order(
                #[trigger] candidates_for(sizes)[k],
                sizes,
            ),
{
    let c = candidates_for(sizes);
    assert forall|k: int| 0 <= k < c.len() implies in_input_order(#[trigger] c[k], sizes) by {
        assert forall|i: int| 0 <= i < c[k].len() implies (#[trigger] c[k][i]).original_dimensions
            == sizes[i] by {}
    }
}

/// The chosen arrangement has one placement per image, in input order, each knowing
/// its image's native size; and every tile is drawn within `MAX_SIZE` on each side and
/// placed within `MAX_SIZE` of the corner.
pub proof fn law_layout_in_order_and_within_max(sizes: Seq<Size>)
    requires
        supported_count(sizes.len() as int),
        all_valid(sizes),
    ensures
        in_input_order(layout_for(sizes), sizes),
        forall|i: int|
            0 <= i < sizes.len() ==> {
                let p = #[trigger] layout_for(sizes)[i];
                &&& p.dimensions.width <= MAX_SIZE
                &&& p.dimensions.height <= MAX_SIZE
                &&& p.offset.width <= MAX_SIZE
                &&& p.offset.height <= MAX_SIZE
            },
{
    lemma_candidates_in_order(sizes);
    let c = candidates_for(sizes);
    let k = lemma_best_is_fitted_candidate(c);
    assert(in_input_order(c[k], sizes));
    assert(scorable(c[k])) by {
        assert forall|i: int| 0 <= i < c[k].len() implies #[trigger] c[k][i].original_dimensions.width
            > 0 by {
            assert(valid_size(sizes[i]));
        }
    }
    law_fitted_within_max(c[k]);
    let f = fitted(c[k]);
    assert forall|i: int| 0 <= i < f.len() implies (#[trigger] f[i]).original_dimensions
        == sizes[i] by {
        assert(f[i].original_dimensions == c[k][i].original_dimensions);
    }
}

/// In every arrangement tried for a supported number of images, no two tiles overlap.
pub proof fn law_candidates_do_not_overlap(sizes: Seq<Size>)
    requires
        supported_count(sizes.len() as int),
    ensures
        forall|k: int|
            0 <= k < candidates_for(sizes).len() ==> no_overlap(#[trigger] candidates_for(sizes)[k]),
{
    if sizes.len() == 2 {
        lemma_candidates_2_apart(sizes[0], sizes[1]);
    } else if sizes.len() == 3 {
        lemma_candidates_3_apart(sizes[0], sizes[1], sizes[2]);
    } else {
        lemma_candidates_4_apart(sizes[0], sizes[1], sizes[2], sizes[3]);
    }
}

/// For two images, the chosen arrangement, scaled as it will be drawn, has no
/// overlapping tiles.
pub proof fn law_two_image_layout_does_not_overlap(first: Size, second: Size)
    ensures
        no_overlap(layout_for(seq![first, second])),
{
    let sizes = seq![first, second];
    lemma_candidates_in_order(sizes);
    lemma_candidates_2_apart(first, second);
    let c = candidates_for(sizes);
    let k = lemma_best_is_fitted_candidate(c);
    assert(origin_pair_apart(c[k]));
    lemma_fitted_origin_pair(c[k]);
}

/// Chooses the arrangement for images of the given sizes, in input order.
pub fn plan_mosaic(sizes: &Vec<Size>) -> (r: Result<MosaicImageDims, MosaicError>)
    ensures
        r is Ok ==> plan_result(sizes@) == Ok::<Seq<ImageOffset>, MosaicError>(r->Ok_0.images@),
        r is Err ==> plan_result(sizes@) == Err::<Seq<ImageOffset>, MosaicError>(r->Err_0),
{
    let n = sizes.len();
    if n < 2 || n > 4 {
        return Err(MosaicError::InvalidImageCount);
    }
    let mut i: usize = 0;
    while i < n
        invariant
            n == sizes@.len(),
            2 <= n <= 4,
            i <= n,
            forall|j: int| 0 <= j < i ==> #[trigger] valid_size(sizes@[j]),
        decreases n - i,
    {
        if sizes[i].width == 0 || sizes[i].height == 0 {
            assert(!valid_size(sizes@[i as int]));
            return Err(MosaicError::DegenerateImage);
        }
        i = i + 1;
    }
    if n == 2 {
        Ok(best_2_mosaic(sizes[0], sizes[1]))
    } else if n == 3 {
        Ok(best_3_mosaic(sizes[0], sizes[1], sizes[2]))
    } else {
        Ok(best_4_mosaic(sizes[0], sizes[1], sizes[2], sizes[3]))
    }
}

} // verus!
