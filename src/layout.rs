use vstd::prelude::*;

use crate::geometry::{
    lemma_scale_len_monotone, lemma_scale_len_zero, mul_u32, mul_u64, round_div, scale_len,
    ImageOffset, Size, MAX_SIZE,
};

verus! {

/// The smallest area that holds every placement of `s`.
pub open spec fn extent(s: Seq<ImageOffset>) -> Size
    decreases s.len(),
{
    if s.len() == 0 {
        Size { width: 0, height: 0 }
    } else {
        let e = extent(s.drop_last());
        let p = s.last();
        Size {
            width: if p.right() > e.width { p.right() } else { e.width },
            height: if p.bottom() > e.height { p.bottom() } else { e.height },
        }
    }
}

/// Every placement of `s` divided by `num / den`.
pub open spec fn scale_all(s: Seq<ImageOffset>, num: int, den: int) -> Seq<ImageOffset> {
    s.map_values(|p: ImageOffset| p.scaled(num, den))
}

/// Every placement of `s` moved `h` pixels down.
pub open spec fn move_down_all(s: Seq<ImageOffset>, h: int) -> Seq<ImageOffset> {
    s.map_values(|p: ImageOffset| p.moved_down(h))
}

/// Every placement of `s` moved `w` pixels to the right.
pub open spec fn move_right_all(s: Seq<ImageOffset>, w: int) -> Seq<ImageOffset> {
    s.map_values(|p: ImageOffset| p.moved_right(w))
}

/// The extent covers every placement.
pub proof fn lemma_extent_covers(s: Seq<ImageOffset>, i: int)
    requires
        0 <= i < s.len(),
    ensures
        extent(s).width >= s[i].right(),
        extent(s).height >= s[i].bottom(),
    decreases s.len(),
{
    if i < s.len() - 1 {
        lemma_extent_covers(s.drop_last(), i);
    }
}

/// The scale factor of `a` (drawn width over native width) is below that of `b`.
pub open spec fn factor_lt(a: ImageOffset, b: ImageOffset) -> bool {
    a.dimensions.width * b.original_dimensions.width < b.dimensions.width
        * a.original_dimensions.width
}

/// The first placement of `s` with the lowest scale factor.
pub open spec fn least_scaled(s: Seq<ImageOffset>) -> ImageOffset
    decreases s.len(),
{
    if s.len() <= 1 {
        s[0]
    } else {
        let m = least_scaled(s.drop_last());
        if factor_lt(s.last(), m) {
            s.last()
        } else {
            m
        }
    }
}

/// The first placement of `s` with the highest scale factor.
pub open spec fn most_scaled(s: Seq<ImageOffset>) -> ImageOffset
    decreases s.len(),
{
    if s.len() <= 1 {
        s[0]
    } else {
        let m = most_scaled(s.drop_last());
        if factor_lt(m, s.last()) {
            s.last()
        } else {
            m
        }
    }
}

/// Numerator of the ratio between the highest and the lowest scale factor.
pub open spec fn ratio_num(s: Seq<ImageOffset>) -> int {
    most_scaled(s).dimensions.width * least_scaled(s).original_dimensions.width
}

/// Denominator of the ratio between the highest and the lowest scale factor.
pub open spec fn ratio_den(s: Seq<ImageOffset>) -> int {
    most_scaled(s).original_dimensions.width * least_scaled(s).dimensions.width
}

/// The longer side of `e`.
pub open spec fn long_side(e: Size) -> u32 {
    if e.width >= e.height {
        e.width
    } else {
        e.height
    }
}

/// The shorter side of `e`.
pub open spec fn short_side(e: Size) -> u32 {
    if e.width >= e.height {
        e.height
    } else {
        e.width
    }
}

/// Rescaled so that its least enlarged image is drawn at native size; a layout in
/// which some image has collapsed to zero width is left as it is.
pub open spec fn normalized(s: Seq<ImageOffset>) -> Seq<ImageOffset> {
    let m = least_scaled(s);
    if m.dimensions.width > 0 {
        scale_all(s, m.dimensions.width as int, m.original_dimensions.width as int)
    } else {
        s
    }
}

/// Normalized, then scaled down so that its longer side is `MAX_SIZE` if it was longer.
pub open spec fn fitted(s: Seq<ImageOffset>) -> Seq<ImageOffset> {
    let s1 = normalized(s);
    let big = long_side(extent(s1));
    if big > MAX_SIZE {
        scale_all(s1, big as int, MAX_SIZE as int)
    } else {
        s1
    }
}

/// The scale factor ratio of `a` is below that of `b`.
pub open spec fn ratio_lt(a: Seq<ImageOffset>, b: Seq<ImageOffset>) -> bool {
    ratio_num(a) * ratio_den(b) < ratio_num(b) * ratio_den(a)
}

/// The scale factor ratio of `a` exceeds that of `best` by at most one half.
pub open spec fn within_band(a: Seq<ImageOffset>, best: Seq<ImageOffset>) -> bool {
    2 * (ratio_num(a) * ratio_den(best)) <= 2 * (ratio_num(best) * ratio_den(a)) + ratio_den(a)
        * ratio_den(best)
}

/// The bounding box of `a` is strictly closer to a square than that of `b`.
pub open spec fn squarer(a: Seq<ImageOffset>, b: Seq<ImageOffset>) -> bool {
    long_side(extent(a)) * short_side(extent(b)) < long_side(extent(b)) * short_side(
        extent(a),
    )
}

/// Index of the first of `fs[0..n]` with the lowest scale factor ratio.
pub open spec fn lowest_ratio_index(fs: Seq<Seq<ImageOffset>>, n: int) -> int
    decreases n,
{
    if n <= 1 {
        0
    } else {
        let m = lowest_ratio_index(fs, n - 1);
        if ratio_lt(fs[n - 1], fs[m]) {
            n - 1
        } else {
            m
        }
    }
}

/// Index of the first of `fs[0..n]` that is squarest among those within the band of
/// `best`, or -1 when none is.
pub open spec fn squarest_index(fs: Seq<Seq<ImageOffset>>, best: Seq<ImageOffset>, n: int) -> int
    decreases n,
{
    if n <= 0 {
        -1
    } else {
        let prev = squarest_index(fs, best, n - 1);
        if !within_band(fs[n - 1], best) {
            prev
        } else if prev < 0 || squarer(fs[n - 1], fs[prev]) {
            n - 1
        } else {
            prev
        }
    }
}

/// Every candidate fitted.
pub open spec fn fit_all(cands: Seq<Seq<ImageOffset>>) -> Seq<Seq<ImageOffset>> {
    cands.map_values(|c: Seq<ImageOffset>| fitted(c))
}

/// Index of the winning candidate among the fitted ones.
pub open spec fn chosen_index(fs: Seq<Seq<ImageOffset>>) -> int {
    squarest_index(fs, fs[lowest_ratio_index(fs, fs.len() as int)], fs.len() as int)
}

/// The winning arrangement among `cands`, fitted.
pub open spec fn best_layout(cands: Seq<Seq<ImageOffset>>) -> Seq<ImageOffset> {
    let fs = fit_all(cands);
    fs[chosen_index(fs)]
}

/// A layout that can be scored: at least one image, each with a positive native width.
pub open spec fn scorable(s: Seq<ImageOffset>) -> bool {
    &&& s.len() > 0
    &&& forall|i: int| 0 <= i < s.len() ==> #[trigger] s[i].original_dimensions.width > 0
}

/// The placements of each candidate.
pub open spec fn views(ms: Seq<MosaicImageDims>) -> Seq<Seq<ImageOffset>> {
    ms.map_values(|m: MosaicImageDims| m.images@)
}

proof fn lemma_lowest_in_range(fs: Seq<Seq<ImageOffset>>, n: int)
    requires
        1 <= n <= fs.len(),
    ensures
        0 <= lowest_ratio_index(fs, n) < n,
    decreases n,
{
    if n > 1 {
        lemma_lowest_in_range(fs, n - 1);
    }
}

proof fn lemma_squarest_in_range(fs: Seq<Seq<ImageOffset>>, best: Seq<ImageOffset>, n: int)
    requires
        0 <= n <= fs.len(),
    ensures
        -1 <= squarest_index(fs, best, n) < n,
        forall|j: int| 0 <= j < n && within_band(fs[j], best) ==> squarest_index(fs, best, n) >= 0,
    decreases n,
{
    if n > 0 {
        lemma_squarest_in_range(fs, best, n - 1);
    }
}

/// The winner is one of the candidates.
pub proof fn lemma_chosen_in_range(fs: Seq<Seq<ImageOffset>>)
    requires
        fs.len() > 0,
    ensures
        0 <= chosen_index(fs) < fs.len(),
{
    let n = fs.len() as int;
    lemma_lowest_in_range(fs, n);
    let best = fs[lowest_ratio_index(fs, n)];
    assert(within_band(best, best)) by {
        assert(ratio_den(best) * ratio_den(best) >= 0) by (nonlinear_arith);
    }
    lemma_squarest_in_range(fs, best, n);
}

/// The winner is one of the candidates, fitted.
pub proof fn lemma_best_is_fitted_candidate(cands: Seq<Seq<ImageOffset>>) -> (k: int)
    requires
        cands.len() > 0,
    ensures
        0 <= k < cands.len(),
        best_layout(cands) == fitted(cands[k]),
{
    let fs = fit_all(cands);
    lemma_chosen_in_range(fs);
    chosen_index(fs)
}

/// The winner has as many placements as every candidate.
pub proof fn lemma_best_layout_len(cands: Seq<Seq<ImageOffset>>, n: int)
    requires
        cands.len() > 0,
        forall|i: int| 0 <= i < cands.len() ==> (#[trigger] cands[i]).len() == n,
    ensures
        best_layout(cands).len() == n,
{
    let fs = fit_all(cands);
    lemma_chosen_in_range(fs);
    let k = chosen_index(fs);
    assert(fs[k] == fitted(cands[k]));
}

proof fn lemma_fraction_lt_trans(ad: int, ao: int, bd: int, bo: int, cd: int, co: int)
    requires
        ao > 0,
        bo > 0,
        co > 0,
        ad * bo < bd * ao,
        bd * co < cd * bo,
    ensures
        ad * co < cd * ao,
{
    assert(ad * co * bo < cd * ao * bo) by (nonlinear_arith)
        requires
            ao > 0,
            bo > 0,
            co > 0,
            ad * bo < bd * ao,
            bd * co < cd * bo,
    ;
    assert(ad * co < cd * ao) by (nonlinear_arith)
        requires
            ad * co * bo < cd * ao * bo,
            bo > 0,
    ;
}

proof fn lemma_fraction_lt_le_trans(ad: int, ao: int, bd: int, bo: int, cd: int, co: int)
    requires
        ao > 0,
        bo > 0,
        co > 0,
        ad * bo < bd * ao,
        bd * co <= cd * bo,
    ensures
        ad * co < cd * ao,
{
    assert(ad * co * bo < cd * ao * bo) by (nonlinear_arith)
        requires
            ao > 0,
            bo > 0,
            co > 0,
            ad * bo < bd * ao,
            bd * co <= cd * bo,
    ;
    assert(ad * co < cd * ao) by (nonlinear_arith)
        requires
            ad * co * bo < cd * ao * bo,
            bo > 0,
    ;
}

proof fn lemma_fraction_squeeze(md: int, mo: int, id: int, io: int, bd: int, bo: int)
    requires
        mo > 0,
        io > 0,
        bo > 0,
        md * io <= id * mo,
        id * bo <= bd * io,
        bd * mo == md * bo,
    ensures
        id * mo == md * io,
{
    if id * mo != md * io {
        assert(md * io * bo < id * mo * bo) by (nonlinear_arith)
            requires
                md * io < id * mo,
                bo > 0,
        ;
        assert(id * bo * mo <= bd * io * mo) by (nonlinear_arith)
            requires
                id * bo <= bd * io,
                mo > 0,
        ;
        assert(bd * mo * io == md * bo * io) by (nonlinear_arith)
            requires
                bd * mo == md * bo,
        ;
        assert(false) by (nonlinear_arith)
            requires
                md * io * bo < id * mo * bo,
                id * bo * mo <= bd * io * mo,
                bd * mo * io == md * bo * io,
        ;
    }
}

proof fn lemma_factor_lt_trans(a: ImageOffset, b: ImageOffset, c: ImageOffset)
    requires
        a.original_dimensions.width > 0,
        b.original_dimensions.width > 0,
        c.original_dimensions.width > 0,
        factor_lt(a, b),
        factor_lt(b, c),
    ensures
        factor_lt(a, c),
{
    lemma_fraction_lt_trans(
        a.dimensions.width as int,
        a.original_dimensions.width as int,
        b.dimensions.width as int,
        b.original_dimensions.width as int,
        c.dimensions.width as int,
        c.original_dimensions.width as int,
    );
}

/// No placement has a lower scale factor than `least_scaled`, which is one of them.
pub proof fn lemma_least_scaled(s: Seq<ImageOffset>)
    requires
        scorable(s),
    ensures
        exists|k: int| 0 <= k < s.len() && s[k] == least_scaled(s),
        forall|i: int| 0 <= i < s.len() ==> !factor_lt(#[trigger] s[i], least_scaled(s)),
    decreases s.len(),
{
    if s.len() > 1 {
        let t = s.drop_last();
        assert forall|i: int| 0 <= i < t.len() implies #[trigger] t[i].original_dimensions.width
            > 0 by {
            assert(t[i] == s[i]);
        }
        lemma_least_scaled(t);
        let m = least_scaled(t);
        let k = choose|k: int| 0 <= k < t.len() && t[k] == m;
        assert(s[k] == m);
        if factor_lt(s.last(), m) {
            assert(s[s.len() - 1] == least_scaled(s));
            assert forall|i: int| 0 <= i < s.len() implies !factor_lt(
                #[trigger] s[i],
                least_scaled(s),
            ) by {
                if i < s.len() - 1 {
                    assert(t[i] == s[i]);
                    if factor_lt(s[i], s.last()) {
                        lemma_factor_lt_trans(s[i], s.last(), m);
                    }
                }
            }
        } else {
            assert forall|i: int| 0 <= i < s.len() implies !factor_lt(
                #[trigger] s[i],
                least_scaled(s),
            ) by {
                if i < s.len() - 1 {
                    assert(t[i] == s[i]);
                }
            }
        }
    } else {
        assert(s[0] == least_scaled(s));
    }
}

/// No placement has a higher scale factor than `most_scaled`, which is one of them.
pub proof fn lemma_most_scaled(s: Seq<ImageOffset>)
    requires
        scorable(s),
    ensures
        exists|k: int| 0 <= k < s.len() && s[k] == most_scaled(s),
        forall|i: int| 0 <= i < s.len() ==> !factor_lt(most_scaled(s), #[trigger] s[i]),
    decreases s.len(),
{
    if s.len() > 1 {
        let t = s.drop_last();
        assert forall|i: int| 0 <= i < t.len() implies #[trigger] t[i].original_dimensions.width
            > 0 by {
            assert(t[i] == s[i]);
        }
        lemma_most_scaled(t);
        let m = most_scaled(t);
        let k = choose|k: int| 0 <= k < t.len() && t[k] == m;
        assert(s[k] == m);
        if factor_lt(m, s.last()) {
            assert(s[s.len() - 1] == most_scaled(s));
            assert forall|i: int| 0 <= i < s.len() implies !factor_lt(
                most_scaled(s),
                #[trigger] s[i],
            ) by {
                if i < s.len() - 1 {
                    assert(t[i] == s[i]);
                    if factor_lt(s.last(), s[i]) {
                        lemma_factor_lt_trans(m, s.last(), s[i]);
                    }
                }
            }
        } else {
            assert forall|i: int| 0 <= i < s.len() implies !factor_lt(
                most_scaled(s),
                #[trigger] s[i],
            ) by {
                if i < s.len() - 1 {
                    assert(t[i] == s[i]);
                }
            }
        }
    } else {
        assert(s[0] == most_scaled(s));
    }
}

/// Every placement of `s` has the same scale factor.
pub open spec fn uniform_scale(s: Seq<ImageOffset>) -> bool {
    forall|i: int, j: int|
        0 <= i < s.len() && 0 <= j < s.len() ==> #[trigger] s[i].dimensions.width
            * s[j].original_dimensions.width == #[trigger] s[j].dimensions.width
            * s[i].original_dimensions.width
}

/// The scale factor ratio of any layout is at least one, and exactly one when every
/// image has the same scale factor; the longer side of its bounding box is never
/// shorter than the other side, so its unsquaredness is at least one too.
pub proof fn law_ratios_at_least_one(s: Seq<ImageOffset>)
    requires
        scorable(s),
    ensures
        ratio_num(s) >= ratio_den(s),
        ratio_num(s) == ratio_den(s) <==> uniform_scale(s),
        long_side(extent(s)) >= short_side(extent(s)),
{
    lemma_least_scaled(s);
    lemma_most_scaled(s);
    let m = least_scaled(s);
    let big = most_scaled(s);
    let km = choose|k: int| 0 <= k < s.len() && s[k] == m;
    let kb = choose|k: int| 0 <= k < s.len() && s[k] == big;
    assert(!factor_lt(s[kb], m));
    assert(big.dimensions.width * m.original_dimensions.width == ratio_num(s));
    assert(m.dimensions.width * big.original_dimensions.width == ratio_den(s)) by {
        assert(m.dimensions.width * big.original_dimensions.width == big.original_dimensions.width
            * m.dimensions.width) by (nonlinear_arith);
    }
    if ratio_num(s) == ratio_den(s) {
        assert forall|i: int, j: int|
            0 <= i < s.len() && 0 <= j < s.len() implies #[trigger] s[i].dimensions.width
            * s[j].original_dimensions.width == #[trigger] s[j].dimensions.width
            * s[i].original_dimensions.width by {
            let (md, mo) = (m.dimensions.width as int, m.original_dimensions.width as int);
            let (bd, bo) = (big.dimensions.width as int, big.original_dimensions.width as int);
            assert(!factor_lt(s[i], m) && !factor_lt(big, s[i]));
            assert(!factor_lt(s[j], m) && !factor_lt(big, s[j]));
            let (id, io) = (s[i].dimensions.width as int, s[i].original_dimensions.width as int);
            let (jd, jo) = (s[j].dimensions.width as int, s[j].original_dimensions.width as int);
            assert(bd * mo == md * bo);
            lemma_fraction_squeeze(md, mo, id, io, bd, bo);
            lemma_fraction_squeeze(md, mo, jd, jo, bd, bo);
            assert(id * jo == jd * io) by (nonlinear_arith)
                requires
                    mo > 0,
                    io > 0,
                    jo > 0,
                    id * mo == md * io,
                    jd * mo == md * jo,
            ;
        }
    }
    if uniform_scale(s) {
        assert(s[kb].dimensions.width * s[km].original_dimensions.width == s[km].dimensions.width
            * s[kb].original_dimensions.width);
    }
}

proof fn lemma_round_down_within_max(x: int, big: int)
    requires
        0 <= x <= big,
        big > 0,
    ensures
        round_div(x * MAX_SIZE, big) <= MAX_SIZE,
{
    let n = 2 * (x * 4000) + big;
    let q = n / (2 * big);
    assert(x * 4000 <= big * 4000) by (nonlinear_arith)
        requires
            x <= big,
    ;
    assert(q * (2 * big) <= n) by (nonlinear_arith)
        requires
            big > 0,
            q == n / (2 * big),
    ;
    assert(q <= 4000) by (nonlinear_arith)
        requires
            q * (2 * big) <= n,
            n <= 8001 * big,
            big > 0,
    ;
}

/// Scaling down by `big / MAX_SIZE` brings every length up to `big` within `MAX_SIZE`.
proof fn lemma_scaled_within_max(x: u32, big: u32)
    requires
        x <= big,
        big > 0,
    ensures
        scale_len(x as int, big as int, MAX_SIZE as int) <= MAX_SIZE,
{
    lemma_round_down_within_max(x as int, big as int);
}

proof fn lemma_round_pair_bounds(x: int, y: int, big: int)
    requires
        x >= 0,
        y >= 0,
        x + y <= big,
        big > 0,
    ensures
        round_div(x * MAX_SIZE, big) + round_div(y * MAX_SIZE, big) <= MAX_SIZE + 1,
        x + y == big ==> round_div(x * MAX_SIZE, big) + round_div(y * MAX_SIZE, big) >= MAX_SIZE,
{
    let nx = 2 * (x * 4000) + big;
    let ny = 2 * (y * 4000) + big;
    let qx = nx / (2 * big);
    let qy = ny / (2 * big);
    assert(qx * (2 * big) <= nx < qx * (2 * big) + 2 * big) by (nonlinear_arith)
        requires
            big > 0,
            qx == nx / (2 * big),
    ;
    assert(qy * (2 * big) <= ny < qy * (2 * big) + 2 * big) by (nonlinear_arith)
        requires
            big > 0,
            qy == ny / (2 * big),
    ;
    assert(x * 4000 + y * 4000 <= big * 4000) by (nonlinear_arith)
        requires
            x + y <= big,
    ;
    assert(qx + qy <= 4001) by (nonlinear_arith)
        requires
            qx * (2 * big) <= nx,
            qy * (2 * big) <= ny,
            nx + ny <= 8002 * big,
            big > 0,
    ;
    if x + y == big {
        assert(x * 4000 + y * 4000 == big * 4000) by (nonlinear_arith)
            requires
                x + y == big,
        ;
        assert(qx + qy >= 4000) by (nonlinear_arith)
            requires
                nx < qx * (2 * big) + 2 * big,
                ny < qy * (2 * big) + 2 * big,
                nx + ny == 8002 * big,
                big > 0,
        ;
    }
}

/// The extent is reached by some placement on each axis.
pub proof fn lemma_extent_attained(s: Seq<ImageOffset>)
    requires
        s.len() > 0,
    ensures
        exists|i: int| 0 <= i < s.len() && extent(s).width == #[trigger] s[i].right(),
        exists|j: int| 0 <= j < s.len() && extent(s).height == #[trigger] s[j].bottom(),
    decreases s.len(),
{
    if s.len() > 1 {
        let t = s.drop_last();
        lemma_extent_attained(t);
        let i = choose|i: int| 0 <= i < t.len() && extent(t).width == #[trigger] t[i].right();
        let j = choose|j: int| 0 <= j < t.len() && extent(t).height == #[trigger] t[j].bottom();
        let k = s.len() - 1;
        assert(s[i] == t[i] && s[j] == t[j]);
        assert(s[k] == s.last());
        if s[k].right() > extent(t).width {
            assert(extent(s).width == s[k].right());
        } else {
            assert(extent(s).width == s[i].right());
        }
        if s[k].bottom() > extent(t).height {
            assert(extent(s).height == s[k].bottom());
        } else {
            assert(extent(s).height == s[j].bottom());
        }
    } else {
        assert(extent(s.drop_last()) == Size { width: 0, height: 0 });
        assert(s[0] == s.last());
        assert(extent(s).width == s[0].right());
        assert(extent(s).height == s[0].bottom());
    }
}

/// The extent stays within bounds that every placement keeps to.
pub proof fn lemma_extent_bounded(s: Seq<ImageOffset>, w: int, h: int)
    requires
        w >= 0,
        h >= 0,
        forall|i: int| 0 <= i < s.len() ==> (#[trigger] s[i]).right() <= w && s[i].bottom() <= h,
    ensures
        extent(s).width <= w,
        extent(s).height <= h,
    decreases s.len(),
{
    if s.len() > 0 {
        let t = s.drop_last();
        assert forall|i: int| 0 <= i < t.len() implies (#[trigger] t[i]).right() <= w && t[i].bottom()
            <= h by {
            assert(t[i] == s[i]);
        }
        lemma_extent_bounded(t, w, h);
        assert(s[s.len() - 1] == s.last());
    }
}

/// No placement's far edge goes past the range of `u32`.
pub open spec fn unsaturated(s: Seq<ImageOffset>) -> bool {
    forall|i: int|
        0 <= i < s.len() ==> (#[trigger] s[i]).offset.width + s[i].dimensions.width <= u32::MAX
            && s[i].offset.height + s[i].dimensions.height <= u32::MAX
}

/// When a layout had to be scaled down to fit, the longer side of its canvas reaches
/// `MAX_SIZE` and passes it by at most one pixel, offsets and sizes being rounded each
/// on its own.
pub proof fn law_capped_canvas(s: Seq<ImageOffset>)
    requires
        scorable(s),
        unsaturated(normalized(s)),
        long_side(extent(normalized(s))) > MAX_SIZE,
    ensures
        MAX_SIZE <= long_side(extent(fitted(s))) <= MAX_SIZE + 1,
{
    let s1 = normalized(s);
    let e = extent(s1);
    let big = long_side(e);
    let f = fitted(s);
    assert(f == scale_all(s1, big as int, MAX_SIZE as int));
    assert forall|i: int| 0 <= i < f.len() implies (#[trigger] f[i]).right() <= MAX_SIZE + 1
        && f[i].bottom() <= MAX_SIZE + 1 by {
        lemma_extent_covers(s1, i);
        let q = s1[i];
        lemma_round_pair_bounds(q.offset.width as int, q.dimensions.width as int, big as int);
        lemma_round_pair_bounds(q.offset.height as int, q.dimensions.height as int, big as int);
        lemma_scaled_within_max(q.dimensions.width, big);
        lemma_scaled_within_max(q.dimensions.height, big);
        lemma_scaled_within_max(q.offset.width, big);
        lemma_scaled_within_max(q.offset.height, big);
    }
    lemma_extent_bounded(f, MAX_SIZE + 1, MAX_SIZE + 1);
    lemma_extent_attained(s1);
    if e.width >= e.height {
        let i = choose|i: int| 0 <= i < s1.len() && e.width == #[trigger] s1[i].right();
        let q = s1[i];
        lemma_round_pair_bounds(q.offset.width as int, q.dimensions.width as int, big as int);
        lemma_scaled_within_max(q.dimensions.width, big);
        lemma_scaled_within_max(q.offset.width, big);
        lemma_extent_covers(f, i);
    } else {
        let j = choose|j: int| 0 <= j < s1.len() && e.height == #[trigger] s1[j].bottom();
        let q = s1[j];
        lemma_round_pair_bounds(q.offset.height as int, q.dimensions.height as int, big as int);
        lemma_scaled_within_max(q.dimensions.height, big);
        lemma_scaled_within_max(q.offset.height, big);
        lemma_extent_covers(f, j);
    }
}

/// A scored layout keeps the native widths it was given, so it can be scored again.
pub proof fn lemma_fitted_scorable(s: Seq<ImageOffset>)
    requires
        scorable(s),
    ensures
        scorable(fitted(s)),
        fitted(s).len() == s.len(),
{
    let f = fitted(s);
    assert forall|i: int| 0 <= i < f.len() implies #[trigger] f[i].original_dimensions.width
        > 0 by {
        assert(f[i].original_dimensions == s[i].original_dimensions);
    }
}

/// Every tile of a scored layout is drawn within `MAX_SIZE` on each side and placed
/// within `MAX_SIZE` of the top-left corner; when no cap was needed, the whole canvas
/// is within `MAX_SIZE` too.
pub proof fn law_fitted_within_max(s: Seq<ImageOffset>)
    requires
        scorable(s),
    ensures
        forall|i: int|
            0 <= i < s.len() ==> {
                let p = #[trigger] fitted(s)[i];
                &&& p.dimensions.width <= MAX_SIZE
                &&& p.dimensions.height <= MAX_SIZE
                &&& p.offset.width <= MAX_SIZE
                &&& p.offset.height <= MAX_SIZE
            },
        long_side(extent(normalized(s))) <= MAX_SIZE ==> long_side(extent(fitted(s)))
            <= MAX_SIZE,
{
    let s1 = normalized(s);
    let e = extent(s1);
    let big = long_side(e);
    assert forall|i: int| 0 <= i < s.len() implies {
        let p = #[trigger] fitted(s)[i];
        &&& p.dimensions.width <= MAX_SIZE
        &&& p.dimensions.height <= MAX_SIZE
        &&& p.offset.width <= MAX_SIZE
        &&& p.offset.height <= MAX_SIZE
    } by {
        lemma_extent_covers(s1, i);
        let q = s1[i];
        assert(q.dimensions.width <= big && q.offset.width <= big);
        assert(q.dimensions.height <= big && q.offset.height <= big);
        if big > MAX_SIZE {
            lemma_scaled_within_max(q.dimensions.width, big);
            lemma_scaled_within_max(q.dimensions.height, big);
            lemma_scaled_within_max(q.offset.width, big);
            lemma_scaled_within_max(q.offset.height, big);
        }
    }
}

/// Every fitted candidate has a scale factor ratio with a positive denominator and a
/// canvas with a positive shorter side, so both scores are proper fractions.
pub open spec fn proper_scores(fs: Seq<Seq<ImageOffset>>) -> bool {
    forall|i: int|
        0 <= i < fs.len() ==> ratio_den(#[trigger] fs[i]) > 0 && short_side(extent(fs[i])) > 0
}

proof fn lemma_ratio_lt_trans(a: Seq<ImageOffset>, b: Seq<ImageOffset>, c: Seq<ImageOffset>)
    requires
        ratio_den(a) > 0,
        ratio_den(b) > 0,
        ratio_den(c) > 0,
        ratio_lt(a, b),
        ratio_lt(b, c),
    ensures
        ratio_lt(a, c),
{
    lemma_fraction_lt_trans(
        ratio_num(a),
        ratio_den(a),
        ratio_num(b),
        ratio_den(b),
        ratio_num(c),
        ratio_den(c),
    );
}

proof fn lemma_lowest_is_lowest(fs: Seq<Seq<ImageOffset>>, n: int)
    requires
        1 <= n <= fs.len(),
        proper_scores(fs),
    ensures
        0 <= lowest_ratio_index(fs, n) < n,
        forall|j: int| 0 <= j < n ==> !ratio_lt(#[trigger] fs[j], fs[lowest_ratio_index(fs, n)]),
    decreases n,
{
    if n > 1 {
        lemma_lowest_is_lowest(fs, n - 1);
        let m = lowest_ratio_index(fs, n - 1);
        assert(ratio_den(fs[m]) > 0 && ratio_den(fs[n - 1]) > 0);
        if ratio_lt(fs[n - 1], fs[m]) {
            assert forall|j: int| 0 <= j < n implies !ratio_lt(#[trigger] fs[j], fs[n - 1]) by {
                if j < n - 1 && ratio_lt(fs[j], fs[n - 1]) {
                    assert(ratio_den(fs[j]) > 0);
                    lemma_ratio_lt_trans(fs[j], fs[n - 1], fs[m]);
                }
            }
        }
    }
}

proof fn lemma_squarest_is_squarest(fs: Seq<Seq<ImageOffset>>, best: Seq<ImageOffset>, n: int)
    requires
        0 <= n <= fs.len(),
        proper_scores(fs),
    ensures
        squarest_index(fs, best, n) >= 0 ==> {
            let c = squarest_index(fs, best, n);
            &&& c < n
            &&& within_band(fs[c], best)
            &&& forall|j: int|
                0 <= j < n && within_band(fs[j], best) ==> !squarer(#[trigger] fs[j], fs[c])
            &&& forall|j: int|
                0 <= j < c && within_band(fs[j], best) ==> squarer(fs[c], #[trigger] fs[j])
        },
        squarest_index(fs, best, n) < 0 ==> forall|j: int|
            0 <= j < n ==> !within_band(#[trigger] fs[j], best),
    decreases n,
{
    if n > 0 {
        lemma_squarest_is_squarest(fs, best, n - 1);
        let prev = squarest_index(fs, best, n - 1);
        let e = fs[n - 1];
        assert(short_side(extent(e)) > 0);
        if within_band(e, best) && (prev < 0 || squarer(e, fs[prev])) {
            assert forall|j: int|
                0 <= j < n && within_band(fs[j], best) implies !squarer(#[trigger] fs[j], e) by {
                if j < n - 1 {
                    assert(short_side(extent(fs[j])) > 0 && short_side(extent(fs[prev])) > 0);
                    if squarer(fs[j], e) {
                        lemma_fraction_lt_trans(
                            long_side(extent(fs[j])) as int,
                            short_side(extent(fs[j])) as int,
                            long_side(extent(e)) as int,
                            short_side(extent(e)) as int,
                            long_side(extent(fs[prev])) as int,
                            short_side(extent(fs[prev])) as int,
                        );
                    }
                }
            }
            assert forall|j: int|
                0 <= j < n - 1 && within_band(fs[j], best) implies squarer(e, #[trigger] fs[j]) by {
                assert(short_side(extent(fs[j])) > 0 && short_side(extent(fs[prev])) > 0);
                lemma_fraction_lt_le_trans(
                    long_side(extent(e)) as int,
                    short_side(extent(e)) as int,
                    long_side(extent(fs[prev])) as int,
                    short_side(extent(fs[prev])) as int,
                    long_side(extent(fs[j])) as int,
                    short_side(extent(fs[j])) as int,
                );
            }
        }
    }
}

/// The selection rule: the winner's scale factor ratio is at most one half above the
/// lowest of all fitted candidates, which no candidate undercuts; no candidate within
/// that band is strictly closer to a square than the winner; and every candidate listed
/// before the winner within the band is strictly farther from a square, so ties go to
/// the first listed.
pub proof fn law_selection_rule(cands: Seq<Seq<ImageOffset>>)
    requires
        cands.len() > 0,
        proper_scores(fit_all(cands)),
    ensures
        ({
            let fs = fit_all(cands);
            let lo = lowest_ratio_index(fs, fs.len() as int);
            let c = chosen_index(fs);
            &&& 0 <= lo < fs.len()
            &&& 0 <= c < fs.len()
            &&& best_layout(cands) == fs[c]
            &&& forall|j: int| 0 <= j < fs.len() ==> !ratio_lt(#[trigger] fs[j], fs[lo])
            &&& within_band(fs[c], fs[lo])
            &&& forall|j: int|
                0 <= j < fs.len() && within_band(fs[j], fs[lo]) ==> !squarer(#[trigger] fs[j], fs[c])
            &&& forall|j: int|
                0 <= j < c && within_band(fs[j], fs[lo]) ==> squarer(fs[c], #[trigger] fs[j])
        }),
{
    let fs = fit_all(cands);
    let n = fs.len() as int;
    lemma_lowest_is_lowest(fs, n);
    lemma_chosen_in_range(fs);
    lemma_squarest_is_squarest(fs, fs[lowest_ratio_index(fs, n)], n);
}

/// The rectangles of `a` and `b` share no pixel; their edges may touch.
pub open spec fn disjoint(a: ImageOffset, b: ImageOffset) -> bool {
    ||| a.right() <= b.offset.width
    ||| b.right() <= a.offset.width
    ||| a.bottom() <= b.offset.height
    ||| b.bottom() <= a.offset.height
}

/// No two placements of `s` overlap.
pub open spec fn no_overlap(s: Seq<ImageOffset>) -> bool {
    forall|i: int, j: int|
        0 <= i < s.len() && 0 <= j < s.len() && i != j ==> disjoint(#[trigger] s[i], #[trigger] s[j])
}

/// Once a candidate has been scored, its scale factor ratio is at least one, and exactly
/// one when all its images share one scale factor; its unsquaredness is at least one.
pub proof fn law_scored_ratios_at_least_one(s: Seq<ImageOffset>)
    requires
        scorable(s),
    ensures
        ratio_num(fitted(s)) >= ratio_den(fitted(s)),
        ratio_num(fitted(s)) == ratio_den(fitted(s)) <==> uniform_scale(fitted(s)),
        long_side(extent(fitted(s))) >= short_side(extent(fitted(s))),
{
    lemma_fitted_scorable(s);
    law_ratios_at_least_one(fitted(s));
}

/// Rescaling keeps a tile at the origin clear of any tile it was clear of.
proof fn lemma_scaled_from_origin_apart(a: ImageOffset, b: ImageOffset, num: int, den: int)
    requires
        a.offset.width == 0,
        a.offset.height == 0,
        disjoint(a, b),
        num > 0,
        den >= 0,
    ensures
        disjoint(a.scaled(num, den), b.scaled(num, den)),
{
    lemma_scale_len_zero(num, den);
    if a.right() <= b.offset.width {
        lemma_scale_len_monotone(a.dimensions.width as int, b.offset.width as int, num, den);
    } else if a.bottom() <= b.offset.height {
        lemma_scale_len_monotone(a.dimensions.height as int, b.offset.height as int, num, den);
    } else if b.right() <= a.offset.width {
        assert(b.offset.width == 0 && b.dimensions.width == 0);
    } else {
        assert(b.offset.height == 0 && b.dimensions.height == 0);
    }
}

/// A pair of tiles, the first at the origin, clear of each other.
pub open spec fn origin_pair_apart(s: Seq<ImageOffset>) -> bool {
    &&& s.len() == 2
    &&& s[0].offset.width == 0
    &&& s[0].offset.height == 0
    &&& disjoint(s[0], s[1])
}

proof fn lemma_scale_all_origin_pair(s: Seq<ImageOffset>, num: int, den: int)
    requires
        origin_pair_apart(s),
        num > 0,
        den >= 0,
    ensures
        origin_pair_apart(scale_all(s, num, den)),
{
    lemma_scale_len_zero(num, den);
    lemma_scaled_from_origin_apart(s[0], s[1], num, den);
}

/// Scoring keeps two tiles clear of each other when the first is at the origin.
pub proof fn lemma_fitted_origin_pair(s: Seq<ImageOffset>)
    requires
        origin_pair_apart(s),
    ensures
        origin_pair_apart(fitted(s)),
        no_overlap(fitted(s)),
{
    let m = least_scaled(s);
    if m.dimensions.width > 0 {
        lemma_scale_all_origin_pair(s, m.dimensions.width as int, m.original_dimensions.width as int);
    }
    let s1 = normalized(s);
    let big = long_side(extent(s1));
    if big > MAX_SIZE {
        lemma_scale_all_origin_pair(s1, big as int, MAX_SIZE as int);
    }
}

/// One candidate arrangement: a placement for each input image, in input order.
pub struct MosaicImageDims {
    pub images: Vec<ImageOffset>,
}

impl MosaicImageDims {
    /// A copy of the arrangement.
    pub fn copy(&self) -> (r: MosaicImageDims)
        ensures
            r.images@ == self.images@,
    {
        let mut out: Vec<ImageOffset> = Vec::new();
        let mut i: usize = 0;
        while i < self.images.len()
            invariant
                i <= self.images@.len(),
                out@ =~= self.images@.subrange(0, i as int),
            decreases self.images@.len() - i,
        {
            out.push(self.images[i]);
            i = i + 1;
        }
        assert(out@ =~= self.images@);
        MosaicImageDims { images: out }
    }

    /// The lowest scale factor, as drawn width over native width.
    pub fn min_scale_factor(&self) -> (r: (u32, u32))
        requires
            self.images@.len() > 0,
        ensures
            r == (least_scaled(self.images@).dimensions.width, least_scaled(
                self.images@,
            ).original_dimensions.width),
    {
        let mut m = self.images[0];
        let mut i: usize = 1;
        assert(self.images@.subrange(0, 1) =~= seq![self.images@[0]]);
        while i < self.images.len()
            invariant
                1 <= i <= self.images@.len(),
                m == least_scaled(self.images@.subrange(0, i as int)),
            decreases self.images@.len() - i,
        {
            let p = self.images[i];
            assert(self.images@.subrange(0, i as int + 1).drop_last() =~= self.images@.subrange(
                0,
                i as int,
            ));
            if mul_u32(p.dimensions.width, m.original_dimensions.width) < mul_u32(
                m.dimensions.width,
                p.original_dimensions.width,
            ) {
                m = p;
            }
            i = i + 1;
        }
        assert(self.images@.subrange(0, i as int) =~= self.images@);
        (m.dimensions.width, m.original_dimensions.width)
    }

    /// The highest scale factor, as drawn width over native width.
    pub fn max_scale_factor(&self) -> (r: (u32, u32))
        requires
            self.images@.len() > 0,
        ensures
            r == (most_scaled(self.images@).dimensions.width, most_scaled(
                self.images@,
            ).original_dimensions.width),
    {
        let mut m = self.images[0];
        let mut i: usize = 1;
        assert(self.images@.subrange(0, 1) =~= seq![self.images@[0]]);
        while i < self.images.len()
            invariant
                1 <= i <= self.images@.len(),
                m == most_scaled(self.images@.subrange(0, i as int)),
            decreases self.images@.len() - i,
        {
            let p = self.images[i];
            assert(self.images@.subrange(0, i as int + 1).drop_last() =~= self.images@.subrange(
                0,
                i as int,
            ));
            if mul_u32(m.dimensions.width, p.original_dimensions.width) < mul_u32(
                p.dimensions.width,
                m.original_dimensions.width,
            ) {
                m = p;
            }
            i = i + 1;
        }
        assert(self.images@.subrange(0, i as int) =~= self.images@);
        (m.dimensions.width, m.original_dimensions.width)
    }

    /// The highest scale factor over the lowest, as a fraction.
    pub fn scale_factor_ratio(&self) -> (r: (u64, u64))
        requires
            self.images@.len() > 0,
        ensures
            r.0 == ratio_num(self.images@),
            r.1 == ratio_den(self.images@),
    {
        let (min_w, min_orig) = self.min_scale_factor();
        let (max_w, max_orig) = self.max_scale_factor();
        (mul_u32(max_w, min_orig), mul_u32(max_orig, min_w))
    }

    /// The longer and the shorter side of the canvas; their ratio is how far the
    /// arrangement is from a square.
    pub fn unsquaredness(&self) -> (r: (u32, u32))
        ensures
            r == (long_side(extent(self.images@)), short_side(extent(self.images@))),
    {
        let total = self.total_size();
        if total.width >= total.height {
            (total.width, total.height)
        } else {
            (total.height, total.width)
        }
    }

    /// Rescales so that the least enlarged image is at native size, then scales down to
    /// fit `MAX_SIZE` on the longer side.
    pub fn scale_to_fit(&self) -> (r: MosaicImageDims)
        requires
            self.images@.len() > 0,
        ensures
            r.images@ == fitted(self.images@),
    {
        let (min_w, min_orig) = self.min_scale_factor();
        let scaled = if min_w > 0 {
            self.scale(min_w, min_orig)
        } else {
            self.copy()
        };
        let total = scaled.total_size();
        let biggest = if total.width >= total.height {
            total.width
        } else {
            total.height
        };
        if biggest > MAX_SIZE {
            scaled.scale(biggest, MAX_SIZE)
        } else {
            scaled
        }
    }

    /// The size of the canvas the arrangement needs.
    pub fn total_size(&self) -> (r: Size)
        ensures
            r == extent(self.images@),
    {
        let mut w: u32 = 0;
        let mut h: u32 = 0;
        let mut i: usize = 0;
        while i < self.images.len()
            invariant
                i <= self.images@.len(),
                extent(self.images@.subrange(0, i as int)) == (Size { width: w, height: h }),
            decreases self.images@.len() - i,
        {
            let p = self.images[i];
            assert(self.images@.subrange(0, i as int + 1).drop_last() =~= self.images@.subrange(0, i as int));
            let r = p.total_width();
            let b = p.total_height();
            if r > w {
                w = r;
            }
            if b > h {
                h = b;
            }
            i = i + 1;
        }
        assert(self.images@.subrange(0, i as int) =~= self.images@);
        Size { width: w, height: h }
    }

    /// Every placement divided by `num / den`.
    pub fn scale(&self, num: u32, den: u32) -> (r: MosaicImageDims)
        requires
            num > 0,
        ensures
            r.images@ == scale_all(self.images@, num as int, den as int),
    {
        let mut out: Vec<ImageOffset> = Vec::new();
        let mut i: usize = 0;
        while i < self.images.len()
            invariant
                i <= self.images@.len(),
                num > 0,
                out@ =~= scale_all(self.images@, num as int, den as int).subrange(0, i as int),
            decreases self.images@.len() - i,
        {
            out.push(self.images[i].scale(num, den));
            i = i + 1;
        }
        MosaicImageDims { images: out }
    }

    /// Every placement moved `height` pixels down.
    pub fn add_height(&self, height: u32) -> (r: MosaicImageDims)
        ensures
            r.images@ == move_down_all(self.images@, height as int),
    {
        let mut out: Vec<ImageOffset> = Vec::new();
        let mut i: usize = 0;
        while i < self.images.len()
            invariant
                i <= self.images@.len(),
                out@ =~= move_down_all(self.images@, height as int).subrange(0, i as int),
            decreases self.images@.len() - i,
        {
            out.push(self.images[i].add_height(height));
            i = i + 1;
        }
        MosaicImageDims { images: out }
    }

    /// Every placement moved `width` pixels to the right.
    pub fn add_width(&self, width: u32) -> (r: MosaicImageDims)
        ensures
            r.images@ == move_right_all(self.images@, width as int),
    {
        let mut out: Vec<ImageOffset> = Vec::new();
        let mut i: usize = 0;
        while i < self.images.len()
            invariant
                i <= self.images@.len(),
                out@ =~= move_right_all(self.images@, width as int).subrange(0, i as int),
            decreases self.images@.len() - i,
        {
            out.push(self.images[i].add_width(width));
            i = i + 1;
        }
        MosaicImageDims { images: out }
    }
}

/// Fits every candidate, keeps those whose scale factor ratio is at most one half
/// above the lowest, and returns the first of those that is closest to a square.
pub fn best_mosaic(mosaics: Vec<MosaicImageDims>) -> (r: MosaicImageDims)
    requires
        mosaics@.len() > 0,
        forall|i: int| 0 <= i < mosaics@.len() ==> #[trigger] mosaics@[i].images@.len() > 0,
    ensures
        r.images@ == best_layout(views(mosaics@)),
{
    let n = mosaics.len();
    let ghost fs = fit_all(views(mosaics@));
    let mut scaled: Vec<MosaicImageDims> = Vec::new();
    let mut i: usize = 0;
    while i < n
        invariant
            n == mosaics@.len(),
            i <= n,
            fs == fit_all(views(mosaics@)),
            forall|j: int| 0 <= j < mosaics@.len() ==> #[trigger] mosaics@[j].images@.len() > 0,
            scaled@.len() == i,
            forall|j: int| 0 <= j < i ==> #[trigger] scaled@[j].images@ == fs[j],
        decreases n - i,
    {
        scaled.push(mosaics[i].scale_to_fit());
        i = i + 1;
    }
    assert(views(scaled@) =~= fs);
    assert forall|j: int| 0 <= j < n implies #[trigger] fs[j].len() > 0 by {
        assert(fs[j] == fitted(mosaics@[j].images@));
    }

    let (mut lo_n, mut lo_d) = scaled[0].scale_factor_ratio();
    let mut lo: usize = 0;
    i = 1;
    while i < n
        invariant
            n == scaled@.len(),
            1 <= i <= n,
            forall|j: int| 0 <= j < n ==> #[trigger] scaled@[j].images@ == fs[j],
            forall|j: int| 0 <= j < n ==> #[trigger] fs[j].len() > 0,
            lo == lowest_ratio_index(fs, i as int),
            0 <= lo < i,
            lo_n == ratio_num(fs[lo as int]),
            lo_d == ratio_den(fs[lo as int]),
        decreases n - i,
    {
        let (rn, rd) = scaled[i].scale_factor_ratio();
        if mul_u64(rn, lo_d) < mul_u64(lo_n, rd) {
            lo = i;
            lo_n = rn;
            lo_d = rd;
        }
        i = i + 1;
    }
    assert(fs.len() == n);
    let ghost best = fs[lo as int];
    assert(within_band(best, best)) by {
        assert(ratio_den(best) * ratio_den(best) >= 0) by (nonlinear_arith);
    }
    proof {
        lemma_squarest_in_range(fs, best, n as int);
    }

    let mut chosen: usize = 0;
    let mut found = false;
    let mut chosen_long: u32 = 0;
    let mut chosen_short: u32 = 0;
    i = 0;
    while i < n
        invariant
            n == scaled@.len(),
            n == fs.len(),
            i <= n,
            forall|j: int| 0 <= j < n ==> #[trigger] scaled@[j].images@ == fs[j],
            forall|j: int| 0 <= j < n ==> #[trigger] fs[j].len() > 0,
            0 <= lo < n,
            best == fs[lo as int],
            lo_n == ratio_num(best),
            lo_d == ratio_den(best),
            found ==> chosen == squarest_index(fs, best, i as int) && chosen < i,
            found ==> chosen_long == long_side(extent(fs[chosen as int])) && chosen_short
                == short_side(extent(fs[chosen as int])),
            !found ==> squarest_index(fs, best, i as int) == -1,
        decreases n - i,
    {
        let (rn, rd) = scaled[i].scale_factor_ratio();
        let x = mul_u64(rn, lo_d);
        let y = mul_u64(lo_n, rd);
        let z = mul_u64(rd, lo_d);
        let keep = x <= y || x - y <= z / 2;
        assert(keep == within_band(fs[i as int], best));
        if keep {
            let (long, short) = scaled[i].unsquaredness();
            if !found || mul_u32(long, chosen_short) < mul_u32(chosen_long, short) {
                chosen = i;
                found = true;
                chosen_long = long;
                chosen_short = short;
            }
        }
        i = i + 1;
    }
    proof {
        lemma_lowest_in_range(fs, n as int);
    }
    assert(found);
    scaled.remove(chosen)
}

} // verus!
