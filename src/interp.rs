//! Interpolation and bracket-lookup primitives on fixed-point values.

use vstd::prelude::*;

verus! {

/// Linear interpolation from `start` towards `end` by the factor `offset / span`,
/// rounded down to a whole fixed-point unit. A factor outside `[0, 1]` extrapolates.
pub open spec fn lerp(start: int, end: int, offset: int, span: int) -> int {
    start + (end - start) * offset / span
}

/// `start + (end - start) * factor`, the factor given as the ratio `offset / span`.
pub fn interpolate(start: i64, end: i64, offset: i64, span: i64) -> (r: i64)
    requires
        span > 0,
        i64::MIN <= lerp(start as int, end as int, offset as int, span as int) <= i64::MAX,
    ensures
        r == lerp(start as int, end as int, offset as int, span as int),
{
    let delta: i128 = end as i128 - start as i128;
    proof {
        lemma_product_fits(delta as int, offset as int);
    }
    let scaled: i128 = delta * offset as i128;
    let step: i128 = match scaled.checked_div_euclid(span as i128) {
        Some(q) => q,
        None => 0,
    };
    (start as i128 + step) as i64
}

/// A straight calibration segment of a chart: the value `y_at_min` at `x_min`
/// and `y_at_max` at `x_max`, extended linearly on both sides.
#[derive(Clone, Copy, Debug, PartialEq, Eq, Structural)]
pub struct Segment {
    pub x_min: i64,
    pub x_max: i64,
    pub y_at_min: i64,
    pub y_at_max: i64,
}

impl Segment {
    pub open spec fn well_formed(self) -> bool {
        self.x_min < self.x_max && self.x_max - self.x_min <= i64::MAX
    }

    /// The segment's value at `x`.
    pub open spec fn value(self, x: int) -> int {
        lerp(self.y_at_min as int, self.y_at_max as int, x - self.x_min, self.x_max - self.x_min)
    }

    pub fn value_at(&self, x: i64) -> (r: i64)
        requires
            self.well_formed(),
            i64::MIN <= x - self.x_min <= i64::MAX,
            i64::MIN <= self.value(x as int) <= i64::MAX,
        ensures
            r == self.value(x as int),
    {
        interpolate(self.y_at_min, self.y_at_max, x - self.x_min, self.x_max - self.x_min)
    }
}

/// The first entry of `table` from index `i` on that is at least `query`,
/// or `fallback` where no entry is.
pub open spec fn ceiling_from(table: Seq<i64>, i: int, query: int, fallback: int) -> int
    decreases table.len() - i,
{
    if i < 0 || i >= table.len() {
        fallback
    } else if table[i] >= query {
        table[i] as int
    } else {
        ceiling_from(table, i + 1, query, fallback)
    }
}

/// The first entry of `table` that is at least `query`, or `fallback` where none is.
pub open spec fn ceiling(table: Seq<i64>, query: int, fallback: int) -> int {
    ceiling_from(table, 0, query, fallback)
}

/// Looks up the first entry of `table`, in its order, that is at least `query`;
/// a query above every entry gives `fallback`.
pub fn ceiling_lookup(table: &[i64], query: i64, fallback: i64) -> (r: i64)
    ensures
        r == ceiling(table@, query as int, fallback as int),
{
    let mut i: usize = 0;
    while i < table.len()
        invariant
            0 <= i <= table@.len(),
            ceiling_from(table@, i as int, query as int, fallback as int) == ceiling(
                table@,
                query as int,
                fallback as int,
            ),
        decreases table@.len() - i,
    {
        if table[i] >= query {
            return table[i];
        }
        i = i + 1;
    }
    fallback
}

/// Whatever the query, the lookup gives an entry of the table or the fallback;
/// so it stays within any bounds that they all respect.
pub proof fn lemma_ceiling_within(table: Seq<i64>, i: int, query: int, fallback: int, lo: int, hi: int)
    requires
        0 <= i,
        lo <= fallback <= hi,
        forall|j: int| 0 <= j < table.len() ==> lo <= #[trigger] table[j] <= hi,
    ensures
        lo <= ceiling_from(table, i, query, fallback) <= hi,
    decreases table.len() - i,
{
    if i < table.len() && table[i] < query {
        lemma_ceiling_within(table, i + 1, query, fallback, lo, hi);
    }
}

proof fn lemma_product_fits(a: int, b: int)
    requires
        -0xffff_ffff_ffff_ffff <= a <= 0xffff_ffff_ffff_ffff,
        i64::MIN <= b <= i64::MAX,
    ensures
        i128::MIN <= a * b <= i128::MAX,
{
    if a >= 0 && b >= 0 {
        assert(0 <= a * b <= 0xffff_ffff_ffff_ffff * 0x7fff_ffff_ffff_ffff) by (nonlinear_arith)
            requires 0 <= a <= 0xffff_ffff_ffff_ffff, 0 <= b <= 0x7fff_ffff_ffff_ffff;
    } else if a >= 0 {
        assert(0xffff_ffff_ffff_ffff * -0x8000_0000_0000_0000 <= a * b <= 0) by (nonlinear_arith)
            requires 0 <= a <= 0xffff_ffff_ffff_ffff, -0x8000_0000_0000_0000 <= b < 0;
    } else if b >= 0 {
        assert(-0xffff_ffff_ffff_ffff * 0x7fff_ffff_ffff_ffff <= a * b <= 0) by (nonlinear_arith)
            requires -0xffff_ffff_ffff_ffff <= a < 0, 0 <= b <= 0x7fff_ffff_ffff_ffff;
    } else {
        assert(0 <= a * b <= 0xffff_ffff_ffff_ffff * 0x8000_0000_0000_0000) by (nonlinear_arith)
            requires -0xffff_ffff_ffff_ffff <= a < 0, -0x8000_0000_0000_0000 <= b < 0;
    }
}


/// The step that `lerp` takes away from `start` is bounded by the size of the
/// difference `end - start`, the size of the offset and the smallest possible span:
/// `min_span * step` lies in `[-(d * x) - min_span, d * x]`.
pub proof fn lemma_lerp_step_bound(
    start: int,
    end: int,
    offset: int,
    span: int,
    d: int,
    x: int,
    min_span: int,
)
    requires
        -d <= end - start <= d,
        -x <= offset <= x,
        1 <= min_span <= span,
    ensures
        -(d * x) - min_span <= min_span * (lerp(start, end, offset, span) - start) <= d * x,
{
    let n = (end - start) * offset;
    assert(-(d * x) <= n <= d * x) by (nonlinear_arith)
        requires
            -d <= end - start <= d,
            -x <= offset <= x,
            n == (end - start) * offset,
    ;
    let q = n / span;
    vstd::arithmetic::div_mod::lemma_fundamental_div_mod(n, span);
    assert(n == span * q + n % span);
    assert(0 <= n % span < span);
    assert(-(d * x) - min_span <= min_span * q <= d * x) by (nonlinear_arith)
        requires
            n == span * q + n % span,
            0 <= n % span < span,
            1 <= min_span <= span,
            -(d * x) <= n <= d * x,
    ;
}

/// With an offset inside `[0, span]` the interpolated value lies between `start` and `end`.
pub proof fn lemma_lerp_between(start: int, end: int, offset: int, span: int)
    requires
        0 <= offset <= span,
        span > 0,
    ensures
        start <= end ==> start <= lerp(start, end, offset, span) <= end,
        end <= start ==> end <= lerp(start, end, offset, span) <= start,
{
    let n = (end - start) * offset;
    let q = n / span;
    vstd::arithmetic::div_mod::lemma_fundamental_div_mod(n, span);
    assert(0 <= n % span < span);
    if start <= end {
        assert(0 <= q <= end - start) by (nonlinear_arith)
            requires
                n == (end - start) * offset,
                n == span * q + n % span,
                0 <= n % span < span,
                0 <= offset <= span,
                start <= end,
        ;
    } else {
        assert(end - start <= q <= 0) by (nonlinear_arith)
            requires
                n == (end - start) * offset,
                n == span * q + n % span,
                0 <= n % span < span,
                0 <= offset <= span,
                end < start,
        ;
    }
}

} // verus!
