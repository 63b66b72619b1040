//! Fixed-point quantities.
//!
//! Probabilities and stakes are held as integers so that every comparison the
//! trading rules make is exact: a probability counts millionths, an amount
//! counts thousandths of one unit of play money.

use vstd::prelude::*;

verus! {

/// Millionths in a probability of one.
pub const MILLION: u32 = 1_000_000;

/// Lowest limit price an order may carry: one percent.
pub const LIMIT_FLOOR: u32 = 10_000;

/// Highest limit price an order may carry: ninety-nine percent.
pub const LIMIT_CEILING: u32 = 990_000;

/// A probability, counted in millionths.
#[derive(Clone, Copy, Debug, PartialEq, Eq, Structural)]
pub struct Probability {
    pub millionths: u32,
}

/// An amount of play money, counted in thousandths.
#[derive(Clone, Copy, Debug, PartialEq, Eq, Structural)]
pub struct Amount {
    pub thousandths: u64,
}

/// The value `x` held between `low` and `high`.
pub open spec fn clamped(x: int, low: int, high: int) -> int {
    if x < low {
        low
    } else if x > high {
        high
    } else {
        x
    }
}

impl Probability {
    /// A probability lies between zero and one.
    pub open spec fn wf(self) -> bool {
        self.millionths <= MILLION
    }

    /// The probability of `millionths` parts in a million, if that is at most one.
    pub fn from_millionths(millionths: u32) -> (r: Option<Probability>)
        ensures
            r == if millionths <= MILLION {
                Some(Probability { millionths })
            } else {
                None::<Probability>
            },
    {
        if millionths <= MILLION {
            Some(Probability { millionths })
        } else {
            None
        }
    }

    /// One half, the price assumed for a market that quotes none.
    pub fn even() -> (r: Probability)
        ensures
            r.millionths == 500_000,
            r.wf(),
    {
        Probability { millionths: 500_000 }
    }

    /// The limit price for an order at this probability: the probability
    /// itself, held between one and ninety-nine percent.
    pub fn clamp_to_limits(self) -> (r: Probability)
        ensures
            r.millionths == clamped(self.millionths as int, LIMIT_FLOOR as int, LIMIT_CEILING as int),
            LIMIT_FLOOR <= r.millionths <= LIMIT_CEILING,
            r.wf(),
    {
        if self.millionths < LIMIT_FLOOR {
            Probability { millionths: LIMIT_FLOOR }
        } else if self.millionths > LIMIT_CEILING {
            Probability { millionths: LIMIT_CEILING }
        } else {
            self
        }
    }

    /// This probability in whole percent, halves rounded up.
    pub open spec fn percent_rounded(self) -> nat {
        ((self.millionths + 5_000) / 10_000) as nat
    }
}

impl Amount {
    /// This amount in whole units, halves rounded up.
    pub open spec fn units_rounded(self) -> nat {
        ((self.thousandths + 500) / 1_000) as nat
    }

    /// Whether this amount reaches `floor`.
    pub fn at_least(self, floor: Amount) -> (r: bool)
        ensures
            r == (self.thousandths >= floor.thousandths),
    {
        self.thousandths >= floor.thousandths
    }
}

} // verus!
