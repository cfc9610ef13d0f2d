//! Fixed-point units: times in milliseconds, fractions in millionths.

use vstd::prelude::*;

verus! {

/// A time or a duration in whole milliseconds.
pub type Millis = u64;

/// The fixed-point value of one: a fraction is counted in millionths.
pub const FULL_SCALE: u64 = 1_000_000;

/// The part of `length` that lies below the fraction `millionths`, rounded
/// down.
pub open spec fn scaled(length: int, millionths: int) -> int {
    length * millionths / (FULL_SCALE as int)
}

/// The fraction `part / whole` in millionths, rounded down and cut off at one.
pub open spec fn ratio(part: int, whole: int) -> int {
    if part >= whole {
        FULL_SCALE as int
    } else {
        part * (FULL_SCALE as int) / whole
    }
}

/// A fraction between zero and one inclusive, in millionths.
#[derive(Debug, Clone, Copy, PartialEq, Eq, Structural)]
pub struct Percent {
    millionths: u64,
}

impl View for Percent {
    type V = int;

    closed spec fn view(&self) -> int {
        self.millionths as int
    }
}

impl Percent {
    #[verifier::type_invariant]
    closed spec fn in_range(self) -> bool {
        self.millionths <= FULL_SCALE
    }

    /// Whether the fraction lies between zero and one. Every value that
    /// executable code can hold does.
    pub open spec fn wf(self) -> bool {
        0 <= self@ <= FULL_SCALE
    }

    /// The fraction of `millionths` millionths, for `millionths` between
    /// zero and one million.
    pub closed spec fn spec_new(millionths: int) -> Percent {
        Percent { millionths: millionths as u64 }
    }

    /// The fraction one.
    pub open spec fn spec_full() -> Percent {
        Self::spec_new(FULL_SCALE as int)
    }

    /// The fraction zero.
    pub open spec fn spec_zero() -> Percent {
        Self::spec_new(0)
    }

    /// A fraction is its number of millionths and nothing more: `spec_new`
    /// and the view undo each other.
    pub proof fn lemma_spec_new(millionths: int)
        requires
            0 <= millionths <= FULL_SCALE,
        ensures
            Self::spec_new(millionths)@ == millionths,
            Self::spec_new(millionths).wf(),
    {
    }

    /// Two fractions of the same number of millionths are the same fraction.
    pub proof fn lemma_view_injective(self, other: Percent)
        requires
            self@ == other@,
        ensures
            self == other,
    {
    }

    /// The fraction of `millionths` millionths; anything above one is one.
    pub fn new(millionths: u64) -> (p: Percent)
        ensures
            p.wf(),
            p@ == if millionths <= FULL_SCALE { millionths as int } else { FULL_SCALE as int },
            p == Self::spec_new(p@),
    {
        if millionths <= FULL_SCALE {
            Percent { millionths }
        } else {
            Percent { millionths: FULL_SCALE }
        }
    }

    /// The fraction zero.
    pub fn zero() -> (p: Percent)
        ensures
            p.wf(),
            p@ == 0,
            p == Self::spec_zero(),
    {
        Percent { millionths: 0 }
    }

    /// The fraction one.
    pub fn full() -> (p: Percent)
        ensures
            p.wf(),
            p@ == FULL_SCALE,
            p == Self::spec_full(),
    {
        Percent { millionths: FULL_SCALE }
    }

    /// The fraction in millionths.
    pub fn millionths(&self) -> (m: u64)
        ensures
            m == self@,
            m <= FULL_SCALE,
            self.wf(),
            *self == Self::spec_new(m as int),
    {
        proof {
            use_type_invariant(self);
        }
        self.millionths
    }

    /// What is left of the whole: one minus this fraction.
    pub fn complement(&self) -> (p: Percent)
        ensures
            self.wf(),
            p.wf(),
            p@ == FULL_SCALE - self@,
            p == Self::spec_new(FULL_SCALE - self@),
    {
        proof {
            use_type_invariant(self);
        }
        Percent { millionths: FULL_SCALE - self.millionths }
    }

    /// The time at this fraction of a medium of the given length, rounded
    /// down to a whole millisecond.
    pub fn of(&self, length: Millis) -> (time: Millis)
        ensures
            self.wf(),
            time == scaled(length as int, self@),
            time <= length,
    {
        proof {
            use_type_invariant(self);
            lemma_scaled_bounds(length as int, self.millionths as int);
        }
        let wide: u128 = (length as u128) * (self.millionths as u128);
        (wide / (FULL_SCALE as u128)) as u64
    }

    /// The fraction `part / whole`, rounded down to a millionth and cut off
    /// at one. There is none of a whole of zero.
    pub fn from_ratio(part: u64, whole: u64) -> (p: Option<Percent>)
        ensures
            whole == 0 <==> p is None,
            p matches Some(f) ==> f.wf() && f@ == ratio(part as int, whole as int) && f
                == Self::spec_new(ratio(part as int, whole as int)),
    {
        if whole == 0 {
            None
        } else if part >= whole {
            Some(Percent { millionths: FULL_SCALE })
        } else {
            proof {
                lemma_ratio_bounds(part as int, whole as int);
            }
            let wide: u128 = (part as u128) * (FULL_SCALE as u128);
            let m: u64 = (wide / (whole as u128)) as u64;
            Some(Percent { millionths: m })
        }
    }
}

/// A fraction of a length is never negative, never above the length, and
/// fits the machine where the product does.
pub proof fn lemma_scaled_bounds(length: int, millionths: int)
    requires
        0 <= length <= u64::MAX,
        0 <= millionths <= FULL_SCALE,
    ensures
        0 <= length * millionths <= u128::MAX,
        0 <= scaled(length, millionths) <= length,
        millionths == 0 ==> scaled(length, millionths) == 0,
        millionths == FULL_SCALE ==> scaled(length, millionths) == length,
{
    assert(0 <= length * millionths <= length * 1_000_000) by (nonlinear_arith)
        requires
            0 <= length,
            0 <= millionths <= 1_000_000,
    ;
    assert(length * millionths / 1_000_000 <= length) by (nonlinear_arith)
        requires
            0 <= length * millionths <= length * 1_000_000,
    ;
    assert(0 <= length * millionths / 1_000_000) by (nonlinear_arith)
        requires
            0 <= length * millionths,
    ;
    if millionths == 1_000_000 {
        assert(length * 1_000_000 / 1_000_000 == length) by (nonlinear_arith);
    }
    if millionths == 0 {
        assert(length * 0 / 1_000_000 == 0int) by (nonlinear_arith);
    }
}

/// A proper part of a whole gives a fraction below one, and no part gives
/// the fraction zero.
pub proof fn lemma_ratio_bounds(part: int, whole: int)
    requires
        0 <= part < whole <= u64::MAX,
    ensures
        0 <= part * FULL_SCALE <= u128::MAX,
        0 <= ratio(part, whole) < FULL_SCALE,
        part == 0 ==> ratio(part, whole) == 0,
{
    assert(0 <= part * 1_000_000 < whole * 1_000_000) by (nonlinear_arith)
        requires
            0 <= part < whole,
    ;
    assert(whole * 1_000_000 <= 0xffff_ffff_ffff_ffff * 1_000_000) by (nonlinear_arith)
        requires
            whole <= 0xffff_ffff_ffff_ffff,
    ;
    assert(0 <= part * 1_000_000 / whole < 1_000_000) by (nonlinear_arith)
        requires
            0 <= part * 1_000_000 < whole * 1_000_000,
            0 < whole,
    ;
    if part == 0 {
        assert(0int * 1_000_000 / whole == 0) by (nonlinear_arith)
            requires
                0 < whole,
        ;
    }
}

} // verus!
