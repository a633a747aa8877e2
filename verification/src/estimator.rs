//! The age estimator: classifies a numeric user id against the anchor table
//! and interpolates an approximate registration timestamp for ids that fall
//! between two anchors.

use vstd::prelude::*;
use vstd::arithmetic::div_mod::{lemma_div_is_ordered, lemma_div_multiples_vanish,
    lemma_div_basics_4};
use vstd::arithmetic::mul::lemma_mul_inequality;
use crate::anchors::{AnchorTable, table_wf, MS_BOUND};
use crate::dates::{MonthDate, date_of_millis, to_month_date};

verus! {

/// The estimator's verdict at the timestamp level, before any calendar
/// conversion: a registration epoch-millis bound or estimate, or nothing
/// when the table is empty.
#[derive(Clone, Copy, Debug, PartialEq, Eq, Structural)]
pub enum MsEstimate {
    /// The account predates the earliest anchor; its timestamp is the bound.
    Older(u64),
    /// The account postdates the latest anchor; its timestamp is the bound.
    Newer(u64),
    /// An interpolated (or exact-anchor) registration timestamp.
    Approx(u64),
    /// The table is empty; nothing can be said.
    Unknown,
}

/// The estimator's verdict as a calendar date.
#[derive(Clone, Copy, Debug, PartialEq, Eq, Structural)]
pub enum AgeEstimate {
    /// Registered no later than this month.
    OlderThan(MonthDate),
    /// Registered no earlier than this month.
    NewerThan(MonthDate),
    /// Registered in about this month.
    Approx(MonthDate),
    /// The table is empty; nothing can be said.
    Unknown,
}

/// The smaller of two timestamps.
pub open spec fn ms_min(a: u64, b: u64) -> u64 {
    if a <= b {
        a
    } else {
        b
    }
}

/// The larger of two timestamps.
pub open spec fn ms_max(a: u64, b: u64) -> u64 {
    if a <= b {
        b
    } else {
        a
    }
}

/// Linear interpolation of a registration timestamp between the anchors
/// `lo` and `hi` at position `user`, in exact integer arithmetic:
/// `lo.1 + (user - lo.0) * (hi.1 - lo.1) / (hi.0 - lo.0)`, with the
/// subtraction in the numerator taken on whichever side keeps it
/// non-negative. A zero-width bracket short-circuits to the anchor's own
/// timestamp.
pub open spec fn interp_ms(lo: (u64, u64), hi: (u64, u64), user: u64) -> int {
    if lo.0 == hi.0 {
        lo.1 as int
    } else if hi.1 >= lo.1 {
        lo.1 + (user - lo.0) * (hi.1 - lo.1) / (hi.0 - lo.0)
    } else {
        lo.1 - (user - lo.0) * (lo.1 - hi.1) / (hi.0 - lo.0)
    }
}

/// The first position at or after `i` whose anchor id is at least `user`,
/// or `s.len()` when there is none.
pub open spec fn first_ge_from(s: Seq<(u64, u64)>, user: u64, i: int) -> int
    decreases s.len() - i,
{
    if i >= s.len() {
        i
    } else if s[i].0 >= user {
        i
    } else {
        first_ge_from(s, user, i + 1)
    }
}

/// What the estimator returns at the timestamp level, for a table sorted
/// ascending by id: a bound from the outermost anchor when `user` lies
/// outside the table, otherwise the interpolation over the tightest
/// bracketing pair, with an id at or below the first anchor resolving to
/// that anchor's own timestamp.
pub open spec fn ms_estimate_spec(s: Seq<(u64, u64)>, user: u64) -> MsEstimate {
    if s.len() == 0 {
        MsEstimate::Unknown
    } else if user < s[0].0 {
        MsEstimate::Older(s[0].1)
    } else if user > s[s.len() - 1].0 {
        MsEstimate::Newer(s[s.len() - 1].1)
    } else {
        let k = first_ge_from(s, user, 0);
        if k == 0 {
            MsEstimate::Approx(s[0].1)
        } else {
            MsEstimate::Approx(interp_ms(s[k - 1], s[k], user) as u64)
        }
    }
}

/// What the estimator returns as calendar dates: the timestamp-level
/// verdict with each timestamp turned into its UTC month and year.
pub open spec fn age_estimate_spec(s: Seq<(u64, u64)>, user: u64) -> AgeEstimate {
    match ms_estimate_spec(s, user) {
        MsEstimate::Older(ms) => AgeEstimate::OlderThan(date_of_millis(ms)),
        MsEstimate::Newer(ms) => AgeEstimate::NewerThan(date_of_millis(ms)),
        MsEstimate::Approx(ms) => AgeEstimate::Approx(date_of_millis(ms)),
        MsEstimate::Unknown => AgeEstimate::Unknown,
    }
}

/// The interpolated timestamp never leaves the closed interval spanned by
/// its two bracketing anchors, and meets an anchor exactly when `user`
/// does.
pub proof fn lemma_interp_bounds(lo: (u64, u64), hi: (u64, u64), user: u64)
    requires
        lo.0 <= user <= hi.0,
    ensures
        ms_min(lo.1, hi.1) <= interp_ms(lo, hi, user) <= ms_max(lo.1, hi.1),
        user == lo.0 && lo.0 < hi.0 ==> interp_ms(lo, hi, user) == lo.1,
        user == hi.0 && lo.0 < hi.0 ==> interp_ms(lo, hi, user) == hi.1,
{
    if lo.0 == hi.0 {
    } else {
        let delta = user - lo.0;
        let width = hi.0 - lo.0;
        let diff: int = if hi.1 >= lo.1 {
            hi.1 - lo.1
        } else {
            lo.1 - hi.1
        };
        let q = delta * diff / width;
        lemma_div_basics_4(delta * diff, width);
        assert(delta * diff >= 0) by (nonlinear_arith)
            requires
                delta >= 0,
                diff >= 0,
        ;
        assert(q >= 0);
        lemma_mul_inequality(delta, width as int, diff);
        lemma_div_is_ordered(delta * diff, width * diff, width);
        lemma_div_multiples_vanish(diff, width);
        assert(width * diff == width as int * diff);
        assert(q <= diff);
        if user == lo.0 {
            assert(delta == 0);
            assert(delta * diff == 0) by (nonlinear_arith)
                requires
                    delta == 0,
            ;
            assert(q == 0) by {
                lemma_div_multiples_vanish(0, width);
            }
        }
        if user == hi.0 {
            assert(delta == width);
            assert(q == diff) by {
                lemma_div_multiples_vanish(diff, width);
                assert(delta * diff == width * diff);
            }
        }
    }
}

proof fn lemma_first_ge_from_props(s: Seq<(u64, u64)>, user: u64, i: int)
    requires
        0 <= i <= s.len(),
    ensures
        i <= first_ge_from(s, user, i) <= s.len(),
        first_ge_from(s, user, i) < s.len() ==> s[first_ge_from(s, user, i)].0 >= user,
        forall|j: int| i <= j < first_ge_from(s, user, i) ==> s[j].0 < user,
    decreases s.len() - i,
{
    if i < s.len() && s[i].0 < user {
        lemma_first_ge_from_props(s, user, i + 1);
    }
}

proof fn lemma_first_ge_from_unique(s: Seq<(u64, u64)>, user: u64, i: int, k: int)
    requires
        0 <= i <= k < s.len(),
        forall|j: int| i <= j < k ==> s[j].0 < user,
        s[k].0 >= user,
    ensures
        first_ge_from(s, user, i) == k,
    decreases s.len() - i,
{
    if i < k {
        lemma_first_ge_from_unique(s, user, i + 1, k);
    }
}

/// Every timestamp the estimator can produce over a well-formed table fits
/// the range that a calendar conversion accepts.
pub proof fn lemma_ms_estimate_in_range(s: Seq<(u64, u64)>, user: u64)
    requires
        table_wf(s),
    ensures
        match ms_estimate_spec(s, user) {
            MsEstimate::Older(ms) => ms < MS_BOUND,
            MsEstimate::Newer(ms) => ms < MS_BOUND,
            MsEstimate::Approx(ms) => ms < MS_BOUND && ms == interp_bracket(s, user),
            MsEstimate::Unknown => true,
        },
{
    if s.len() == 0 {
    } else if user < s[0].0 {
    } else if user > s[s.len() - 1].0 {
    } else {
        let k = first_ge_from(s, user, 0);
        lemma_first_ge_from_props(s, user, 0);
        assert(k < s.len()) by {
            if k == s.len() {
                assert(s[s.len() - 1].0 < user);
            }
        }
        if k > 0 {
            assert(s[k - 1].0 < user);
            lemma_interp_bounds(s[k - 1], s[k], user);
        }
    }
}

/// The exact interpolated timestamp behind an `Approx` verdict for a `user`
/// inside the table: the anchor's own timestamp at or below the first
/// anchor, the bracketing interpolation otherwise.
pub open spec fn interp_bracket(s: Seq<(u64, u64)>, user: u64) -> int {
    let k = first_ge_from(s, user, 0);
    if k == 0 {
        s[0].1 as int
    } else {
        interp_ms(s[k - 1], s[k], user)
    }
}

impl AnchorTable {
    /// Classifies `user_id` against the table and, inside it, interpolates
    /// a registration timestamp, all at the epoch-millis level.
    pub fn estimate_ms(&self, user_id: u64) -> (r: MsEstimate)
        requires
            self.wf(),
        ensures
            r == ms_estimate_spec(self@, user_id),
    {
        let ghost s = self@;
        let n = self.len();
        if n == 0 {
            return MsEstimate::Unknown;
        }
        let first = self.pair_at(0);
        if user_id < first.0 {
            return MsEstimate::Older(first.1);
        }
        let last = self.pair_at(n - 1);
        if user_id > last.0 {
            return MsEstimate::Newer(last.1);
        }
        let mut i: usize = 0;
        while self.pair_at(i).0 < user_id
            invariant
                self.wf(),
                n == s.len(),
                s == self@,
                0 < n,
                i < n,
                user_id <= s[n - 1].0,
                forall|j: int| 0 <= j < i ==> s[j].0 < user_id,
            decreases n - i,
        {
            assert(i < n - 1) by {
                assert(s[i as int].0 < user_id <= s[n - 1].0);
            }
            i = i + 1;
        }
        proof {
            lemma_first_ge_from_unique(s, user_id, 0, i as int);
        }
        if i == 0 {
            MsEstimate::Approx(first.1)
        } else {
            let lo = self.pair_at(i - 1);
            let hi = self.pair_at(i);
            proof {
                assert(s[i - 1].0 < user_id);
            }
            let est = interp_exec(lo, hi, user_id);
            MsEstimate::Approx(est)
        }
    }

    /// Classifies `user_id` and reports the verdict as a calendar date.
    pub fn estimate(&self, user_id: u64) -> (r: AgeEstimate)
        requires
            self.wf(),
        ensures
            r == age_estimate_spec(self@, user_id),
    {
        proof {
            lemma_ms_estimate_in_range(self@, user_id);
        }
        match self.estimate_ms(user_id) {
            MsEstimate::Older(ms) => AgeEstimate::OlderThan(to_month_date(ms)),
            MsEstimate::Newer(ms) => AgeEstimate::NewerThan(to_month_date(ms)),
            MsEstimate::Approx(ms) => AgeEstimate::Approx(to_month_date(ms)),
            MsEstimate::Unknown => AgeEstimate::Unknown,
        }
    }
}

fn interp_exec(lo: (u64, u64), hi: (u64, u64), user: u64) -> (r: u64)
    requires
        lo.0 < hi.0,
        lo.0 <= user <= hi.0,
    ensures
        r as int == interp_ms(lo, hi, user),
{
    proof {
        lemma_interp_bounds(lo, hi, user);
    }
    let delta = (user - lo.0) as u128;
    let width = (hi.0 - lo.0) as u128;
    if hi.1 >= lo.1 {
        let diff = (hi.1 - lo.1) as u128;
        proof {
            assert(delta * diff < 0x1_0000_0000_0000_0000_0000_0000_0000_0000) by (nonlinear_arith)
                requires
                    delta < 0x1_0000_0000_0000_0000,
                    diff < 0x1_0000_0000_0000_0000,
            ;
        }
        let q = delta * diff / width;
        lo.1 + (q as u64)
    } else {
        let diff = (lo.1 - hi.1) as u128;
        proof {
            assert(delta * diff < 0x1_0000_0000_0000_0000_0000_0000_0000_0000) by (nonlinear_arith)
                requires
                    delta < 0x1_0000_0000_0000_0000,
                    diff < 0x1_0000_0000_0000_0000,
            ;
        }
        let q = delta * diff / width;
        lo.1 - (q as u64)
    }
}

/// Below the earliest anchor the verdict is `Older` with exactly that
/// anchor's timestamp.
pub proof fn lemma_below_min(s: Seq<(u64, u64)>, user: u64)
    requires
        table_wf(s),
        s.len() > 0,
        user < s[0].0,
    ensures
        ms_estimate_spec(s, user) == MsEstimate::Older(s[0].1),
        age_estimate_spec(s, user) == AgeEstimate::OlderThan(date_of_millis(s[0].1)),
{
}

/// Above the latest anchor the verdict is `Newer` with exactly that
/// anchor's timestamp.
pub proof fn lemma_above_max(s: Seq<(u64, u64)>, user: u64)
    requires
        table_wf(s),
        s.len() > 0,
        user > s[s.len() - 1].0,
    ensures
        ms_estimate_spec(s, user) == MsEstimate::Newer(s[s.len() - 1].1),
        age_estimate_spec(s, user) == AgeEstimate::NewerThan(date_of_millis(s[s.len() - 1].1)),
{
    assert(user >= s[0].0) by {
        if s.len() > 1 {
            assert(s[0].0 < s[s.len() - 1].0);
        }
    }
}

/// An id that meets an anchor exactly gets `Approx` with exactly that
/// anchor's timestamp: the degenerate bracket never divides by zero.
pub proof fn lemma_exact_anchor(s: Seq<(u64, u64)>, user: u64, i: int)
    requires
        table_wf(s),
        0 <= i < s.len(),
        s[i].0 == user,
    ensures
        ms_estimate_spec(s, user) == MsEstimate::Approx(s[i].1),
        age_estimate_spec(s, user) == AgeEstimate::Approx(date_of_millis(s[i].1)),
{
    assert(user >= s[0].0) by {
        if i > 0 {
            assert(s[0].0 < s[i].0);
        }
    }
    assert(user <= s[s.len() - 1].0) by {
        if i < s.len() - 1 {
            assert(s[i].0 < s[s.len() - 1].0);
        }
    }
    assert forall|j: int| 0 <= j < i implies s[j].0 < user by {
        assert(s[j].0 < s[i].0);
    }
    lemma_first_ge_from_unique(s, user, 0, i);
    if i > 0 {
        lemma_interp_bounds(s[i - 1], s[i], user);
        assert(s[i - 1].1 < MS_BOUND && s[i].1 < MS_BOUND);
    }
}

/// Strictly between two adjacent anchors the verdict is `Approx` with the
/// bracketing interpolation, and that timestamp stays within the closed
/// interval the two anchors span.
pub proof fn lemma_between_anchors(s: Seq<(u64, u64)>, user: u64, i: int)
    requires
        table_wf(s),
        0 <= i,
        i + 1 < s.len(),
        s[i].0 < user < s[i + 1].0,
    ensures
        ms_estimate_spec(s, user) == MsEstimate::Approx(interp_ms(s[i], s[i + 1], user) as u64),
        ms_min(s[i].1, s[i + 1].1) <= interp_ms(s[i], s[i + 1], user)
            <= ms_max(s[i].1, s[i + 1].1),
{
    assert(user >= s[0].0) by {
        if i > 0 {
            assert(s[0].0 < s[i].0);
        }
    }
    assert(user <= s[s.len() - 1].0) by {
        if i + 1 < s.len() - 1 {
            assert(s[i + 1].0 < s[s.len() - 1].0);
        }
    }
    assert forall|j: int| 0 <= j < i + 1 implies s[j].0 < user by {
        if j < i {
            assert(s[j].0 < s[i].0);
        }
    }
    lemma_first_ge_from_unique(s, user, 0, i + 1);
    lemma_interp_bounds(s[i], s[i + 1], user);
    assert(s[i].1 < MS_BOUND && s[i + 1].1 < MS_BOUND);
}

} // verus!
