//! Mapping raw encoder readings from one range onto another.
use vstd::prelude::*;

verus! {

/// Types of range that can bring a value into themselves.
pub trait Normalize<T> {
    /// Whether normalising `value` is defined.
    spec fn normalize_defined(&self, value: T) -> bool;

    /// The offset of `value`, clamped into the range, from the range's start.
    spec fn spec_normalize(&self, value: T) -> T;

    fn normalize(&self, value: T) -> (offset: T)
        requires
            self.normalize_defined(value),
        ensures
            offset == self.spec_normalize(value),
    ;
}

/// `value` clamped into `[start, end]`: below the start it is the start,
/// above the end it is the end.
pub open spec fn spec_clamp(start: u64, end: u64, value: u64) -> u64 {
    if value < start {
        start
    } else if value > end {
        end
    } else {
        value
    }
}

impl Normalize<u64> for std::ops::Range<u64> {
    /// The subtraction is defined unless the range is reversed and the value
    /// is clamped to its end.
    open spec fn normalize_defined(&self, value: u64) -> bool {
        spec_clamp(self.start, self.end, value) >= self.start
    }

    open spec fn spec_normalize(&self, value: u64) -> u64 {
        (spec_clamp(self.start, self.end, value) - self.start) as u64
    }

    fn normalize(&self, value: u64) -> (offset: u64) {
        let domain_value = if value < self.start {
            self.start
        } else if value > self.end {
            self.end
        } else {
            value
        };
        domain_value - self.start
    }
}

/// On a range whose start does not lie beyond its end, normalising is
/// defined everywhere, lies between zero and the range's width, and keeps
/// the order of values.
pub proof fn lemma_normalize_bounds(range: std::ops::Range<u64>, a: u64, b: u64)
    requires
        range.start <= range.end,
    ensures
        range.normalize_defined(a),
        range.spec_normalize(a) <= range.end - range.start,
        a <= range.start ==> range.spec_normalize(a) == 0,
        a >= range.end ==> range.spec_normalize(a) == range.end - range.start,
        a <= b ==> range.spec_normalize(a) <= range.spec_normalize(b),
{
}

/// Scales readings from one range onto the width of another.
pub struct Encoder<T> {
    range_from: std::ops::Range<T>,
    range_to: std::ops::Range<T>,
}

/// What `scale_to` gives: the normalised value times how many units of the
/// domain one unit of the source range is worth, in whole units.
pub open spec fn spec_scale_to(range_from: std::ops::Range<u64>, domain: u64, value: u64) -> int {
    range_from.spec_normalize(value) as int * (domain as int / (range_from.end - range_from.start))
}

impl Encoder<u64> {
    /// The range readings come from.
    pub closed spec fn spec_range_from(&self) -> std::ops::Range<u64> {
        self.range_from
    }

    /// The range readings are scaled onto.
    pub closed spec fn spec_range_to(&self) -> std::ops::Range<u64> {
        self.range_to
    }

    pub fn new(range_from: std::ops::Range<u64>, range_to: std::ops::Range<u64>) -> (encoder: Self)
        ensures
            encoder.spec_range_from() == range_from,
            encoder.spec_range_to() == range_to,
    {
        Self { range_from, range_to }
    }

    #[inline]
    pub fn scale_to(&self, domain: u64, value: u64) -> (scaled: u64)
        requires
            self.spec_range_from().start < self.spec_range_from().end,
            spec_scale_to(self.spec_range_from(), domain, value) <= u64::MAX,
        ensures
            scaled == spec_scale_to(self.spec_range_from(), domain, value),
    {
        self.range_from.normalize(value) * (domain / (self.range_from.end - self.range_from.start))
    }

    pub fn scale(&self, value: u64) -> (scaled: u64)
        requires
            self.spec_range_from().start < self.spec_range_from().end,
            self.spec_range_to().start <= self.spec_range_to().end,
            spec_scale_to(
                self.spec_range_from(),
                (self.spec_range_to().end - self.spec_range_to().start) as u64,
                value,
            ) <= u64::MAX,
        ensures
            scaled == spec_scale_to(
                self.spec_range_from(),
                (self.spec_range_to().end - self.spec_range_to().start) as u64,
                value,
            ),
    {
        self.scale_to(self.range_to.end - self.range_to.start, value)
    }
}

/// A scaled reading never exceeds the domain it is scaled to, readings at
/// or below the start of the source range scale to zero, and larger
/// readings never scale to smaller results.
pub proof fn lemma_scale_bounds(range_from: std::ops::Range<u64>, domain: u64, a: u64, b: u64)
    requires
        range_from.start < range_from.end,
    ensures
        0 <= spec_scale_to(range_from, domain, a) <= domain,
        a <= range_from.start ==> spec_scale_to(range_from, domain, a) == 0,
        a <= b ==> spec_scale_to(range_from, domain, a) <= spec_scale_to(range_from, domain, b),
{
    let width = (range_from.end - range_from.start) as int;
    let unit = domain as int / width;
    let na = range_from.spec_normalize(a) as int;
    let nb = range_from.spec_normalize(b) as int;
    assert(0 <= na <= width);
    assert(unit >= 0) by (nonlinear_arith)
        requires
            width > 0,
            domain >= 0,
            unit == domain as int / width,
    ;
    assert(na * unit <= width * unit) by (nonlinear_arith)
        requires
            0 <= na <= width,
            unit >= 0,
    ;
    assert(width * unit <= domain) by (nonlinear_arith)
        requires
            width > 0,
            domain >= 0,
            unit == domain as int / width,
    ;
    assert(0 <= na * unit) by (nonlinear_arith)
        requires
            0 <= na,
            unit >= 0,
    ;
    if a <= range_from.start {
        assert(na == 0);
        assert(na * unit == 0) by (nonlinear_arith)
            requires
                na == 0,
        ;
    }
    if a <= b {
        assert(na <= nb);
        assert(na * unit <= nb * unit) by (nonlinear_arith)
            requires
                na <= nb,
                unit >= 0,
        ;
    }
}

/// What an encoder makes of readings: they scale onto the width of the
/// target range, whose start plays no part; the result lies between zero
/// and that width, is zero for readings at or below the start of the source
/// range, and never decreases as the reading grows.
pub proof fn lemma_encoder_scale(encoder: Encoder<u64>, a: u64, b: u64)
    requires
        encoder.spec_range_from().start < encoder.spec_range_from().end,
        encoder.spec_range_to().start <= encoder.spec_range_to().end,
    ensures
        ({
            let from = encoder.spec_range_from();
            let width = (encoder.spec_range_to().end - encoder.spec_range_to().start) as u64;
            &&& 0 <= spec_scale_to(from, width, a) <= width
            &&& a <= from.start ==> spec_scale_to(from, width, a) == 0
            &&& a <= b ==> spec_scale_to(from, width, a) <= spec_scale_to(from, width, b)
        }),
{
    lemma_scale_bounds(
        encoder.spec_range_from(),
        (encoder.spec_range_to().end - encoder.spec_range_to().start) as u64,
        a,
        b,
    );
}

} // verus!
