//! The completed share of a countdown as an exact fraction, and what is
//! derived from it: a percentage in hundredths and the width of a bar.

use vstd::prelude::*;
use crate::model::ProgressModel;

verus! {

/// The longest target duration in seconds: sixty times the largest number
/// of minutes.
pub const MAX_TOTAL_SECS: u128 = 1_106_804_644_422_573_096_900;

/// A fraction between zero and one: `done` parts of `total`.
pub struct Progress {
    done: u128,
    total: u128,
}

impl View for Progress {
    type V = ProgressModel;

    closed spec fn view(&self) -> ProgressModel {
        ProgressModel { done: self.done as nat, total: self.total as nat }
    }
}

impl Progress {
    #[verifier::type_invariant]
    spec fn inv(&self) -> bool {
        0 < self.total <= MAX_TOTAL_SECS && self.done <= self.total
    }

    /// `done` parts of `total`.
    pub(crate) fn of(done: u128, total: u128) -> (p: Progress)
        requires
            0 < total <= MAX_TOTAL_SECS,
            done <= total,
        ensures
            p@ == (ProgressModel { done: done as nat, total: total as nat }),
    {
        Progress { done, total }
    }

    /// The numerator of the fraction.
    pub fn done_parts(&self) -> (n: u128)
        ensures
            n == self@.done,
            self@.wf(),
    {
        proof {
            use_type_invariant(self);
        }
        self.done
    }

    /// The denominator of the fraction, which is never zero.
    pub fn total_parts(&self) -> (n: u128)
        ensures
            n == self@.total,
            self@.wf(),
    {
        proof {
            use_type_invariant(self);
        }
        self.total
    }

    /// Whether the fraction is one.
    pub fn is_complete(&self) -> (full: bool)
        ensures
            full == self@.is_complete(),
    {
        self.done == self.total
    }

    /// The fraction in hundredths of a percent, between 0 and 10000, rounded
    /// to the nearest with an exact half going to the even neighbour.
    pub fn hundredths(&self) -> (h: u16)
        ensures
            h == self@.hundredths(),
            h <= 10_000,
    {
        proof {
            use_type_invariant(self);
        }
        let scaled: u128 = self.done * 10_000;
        let floor: u128 = scaled / self.total;
        let rest: u128 = scaled % self.total;
        proof {
            lemma_quotient_bound(scaled as int, self.total as int, 10_000);
        }
        if 2 * rest > self.total || (2 * rest == self.total && floor % 2 == 1) {
            (floor + 1) as u16
        } else {
            floor as u16
        }
    }

    /// The part of `width` that the fraction covers, rounded down.
    pub fn scale(&self, width: u16) -> (w: u16)
        ensures
            w == self@.scaled(width as nat),
            w <= width,
    {
        proof {
            use_type_invariant(self);
        }
        let wide: u128 = width as u128;
        assert(wide * self.done <= 65_535 * MAX_TOTAL_SECS) by (nonlinear_arith)
            requires
                wide <= 65_535,
                self.done <= MAX_TOTAL_SECS,
        ;
        assert(wide * self.done <= wide * self.total) by (nonlinear_arith)
            requires
                self.done <= self.total,
        ;
        let covered: u128 = wide * self.done / self.total;
        proof {
            lemma_quotient_bound((wide * self.done) as int, self.total as int, wide as int);
        }
        covered as u16
    }
}

/// A quotient is at most `k` when the dividend is at most `k` times the
/// divisor, and a quotient of exactly `k` leaves no remainder.
proof fn lemma_quotient_bound(x: int, d: int, k: int)
    by (nonlinear_arith)
    requires
        0 <= x <= k * d,
        0 < d,
    ensures
        0 <= x / d <= k,
        x / d == k ==> x % d == 0,
{
}

} // verus!
