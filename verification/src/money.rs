//! Money rendering in integer cents and the deterministic club ranking.
//!
//! Amounts are whole cents (`i64`). A dollar string is `-`?`$`, the whole
//! dollars with thousands separators, `.`, and two cent digits.

use vstd::prelude::*;
use vstd::relations::{sorted_by, total_ordering};
use crate::text::{chars_le, chars_le_exec, dec, dec_chars, grouped, push_char, push_grouped,
    to_chars, two_digits, digit, lemma_chars_le_reflexive, lemma_chars_le_antisymmetric,
    lemma_chars_le_transitive, lemma_chars_le_total};

verus! {

/// `-$1,234.56`-style text for `cents` (a magnitude) with an optional
/// leading minus sign.
pub open spec fn money_text(negative: bool, cents: nat) -> Seq<char> {
    (if negative { seq!['-'] } else { seq![] }) + seq!['$'] + grouped(dec(cents / 100)) + seq!['.']
        + two_digits(cents % 100)
}

/// `|c|` as a natural number.
pub open spec fn abs_cents(c: int) -> nat {
    if c < 0 { (-c) as nat } else { c as nat }
}

/// Dollar text for a sign and a magnitude in cents. A caller that rounds a
/// fractional amount to cents passes the sign of the unrounded amount.
pub fn money_string(negative: bool, cents: u128) -> (s: String)
    ensures
        s@ == money_text(negative, cents as nat),
{
    let mut s = String::new();
    if negative {
        push_char(&mut s, '-');
    }
    push_char(&mut s, '$');
    let whole = dec_chars(cents / 100);
    push_grouped(&mut s, whole.as_slice());
    push_char(&mut s, '.');
    let rem = cents % 100;
    push_char(&mut s, digit((rem / 10) as u64));
    push_char(&mut s, digit((rem % 10) as u64));
    proof {
        let pre = (if negative { seq!['-'] } else { seq![] }) + seq!['$'];
        assert(s@ =~= money_text(negative, cents as nat));
    }
    s
}

/// Dollar text for a signed cents amount.
pub fn money_cents(cents: i128) -> (s: String)
    requires
        cents > i128::MIN,
    ensures
        s@ == money_text(cents < 0, abs_cents(cents as int)),
{
    let mag: u128 = if cents < 0 {
        (-cents) as u128
    } else {
        cents as u128
    };
    money_string(cents < 0, mag)
}

/// Format a cents amount as a dollar string with thousands separators,
/// e.g. `2_500_000 -> "$25,000.00"`, `-12_345 -> "-$123.45"`.
pub fn format_cents(cents: i64) -> (s: String)
    ensures
        s@ == money_text(cents < 0, abs_cents(cents as int)),
{
    money_cents(cents as i128)
}

/// Profit/loss text: a `+` before gains, losses keep their `-`, zero has no
/// sign (`444_450 -> "+$4,444.50"`, `-120_000 -> "-$1,200.00"`).
pub open spec fn pnl_text(cents: int) -> Seq<char> {
    (if cents > 0 { seq!['+'] } else { seq![] }) + money_text(cents < 0, abs_cents(cents))
}

/// Format a profit/loss figure in cents with an explicit leading sign.
pub fn fmt_pnl(cents: i128) -> (s: String)
    requires
        cents > i128::MIN,
    ensures
        s@ == pnl_text(cents as int),
{
    let body = money_cents(cents);
    if cents > 0 {
        let mut s = String::new();
        push_char(&mut s, '+');
        let cs = to_chars(body.as_str());
        crate::text::push_chars(&mut s, cs.as_slice());
        s
    } else {
        body
    }
}

/// A member's standing: username and total paper balance in cents.
#[derive(Debug, Clone, PartialEq, Eq)]
pub struct Standing {
    pub username: String,
    /// Combined paper balance, in cents.
    pub total_cents: i64,
}

/// The plain value of a [`Standing`].
pub struct StandingView {
    pub username: Seq<char>,
    pub total_cents: int,
}

impl View for Standing {
    type V = StandingView;

    open spec fn view(&self) -> StandingView {
        StandingView { username: self.username@, total_cents: self.total_cents as int }
    }
}

/// Ranking order: higher balance first; equal balances alphabetically.
pub open spec fn standing_le(a: StandingView, b: StandingView) -> bool {
    a.total_cents > b.total_cents || (a.total_cents == b.total_cents && chars_le(
        a.username,
        b.username,
    ))
}

/// The views of a sequence of standings.
pub open spec fn standing_views(s: Seq<Standing>) -> Seq<StandingView> {
    s.map_values(|x: Standing| x@)
}

/// `standing_le` is a total order.
pub proof fn lemma_standing_le_total_ordering()
    ensures
        total_ordering(|a: StandingView, b: StandingView| standing_le(a, b)),
{
    let r = |a: StandingView, b: StandingView| standing_le(a, b);
    assert forall|a: StandingView| #[trigger] r(a, a) by {
        lemma_chars_le_reflexive(a.username);
    }
    assert forall|a: StandingView, b: StandingView| #[trigger] r(a, b) && #[trigger] r(b, a)
        implies a == b by {
        if a.total_cents == b.total_cents {
            lemma_chars_le_antisymmetric(a.username, b.username);
        }
    }
    assert forall|a: StandingView, b: StandingView, c: StandingView|
        #[trigger] r(a, b) && #[trigger] r(b, c) implies r(a, c) by {
        if a.total_cents == b.total_cents && b.total_cents == c.total_cents {
            lemma_chars_le_transitive(a.username, b.username, c.username);
        }
    }
    assert forall|a: StandingView, b: StandingView| #[trigger] r(a, b) || #[trigger] r(b, a) by {
        lemma_chars_le_total(a.username, b.username);
    }
}

fn standing_le_exec(a: &Standing, b: &Standing) -> (r: bool)
    ensures
        r == standing_le(a@, b@),
{
    if a.total_cents != b.total_cents {
        a.total_cents > b.total_cents
    } else {
        let x = to_chars(a.username.as_str());
        let y = to_chars(b.username.as_str());
        chars_le_exec(x.as_slice(), y.as_slice())
    }
}

/// Rank highest balance first. Ties break alphabetically by username so the
/// ordering is stable and reproducible.
pub fn rank(standings: Vec<Standing>) -> (r: Vec<Standing>)
    ensures
        standing_views(r@).to_multiset() == standing_views(standings@).to_multiset(),
        sorted_by(standing_views(r@), |a: StandingView, b: StandingView| standing_le(a, b)),
{
    proof {
        lemma_standing_le_total_ordering();
    }
    let ghost leq = |a: StandingView, b: StandingView| standing_le(a, b);
    let ghost input = standing_views(standings@);
    let mut out: Vec<Standing> = Vec::new();
    let mut rest = standings;
    let ghost taken: Seq<StandingView> = seq![];
    proof {
        broadcast use vstd::seq_lib::group_to_multiset_ensures, vstd::multiset::group_multiset_axioms;
        assert(standing_views(rest@) =~= input);
        assert(standing_views(out@) =~= seq![]);
        assert(standing_views(out@).to_multiset() =~= vstd::multiset::Multiset::empty());
        assert(standing_views(out@).to_multiset().add(standing_views(rest@).to_multiset())
            =~= input.to_multiset());
    }
    while rest.len() > 0
        invariant
            total_ordering(leq),
            leq == (|a: StandingView, b: StandingView| standing_le(a, b)),
            standing_views(out@).to_multiset().add(standing_views(rest@).to_multiset())
                == input.to_multiset(),
            sorted_by(standing_views(out@), leq),
        decreases rest.len(),
    {
        let ghost rest_before = standing_views(rest@);
        let x = rest.pop().unwrap();
        proof {
            assert(rest_before =~= standing_views(rest@).push(x@));
            vstd::seq_lib::to_multiset_build(standing_views(rest@), x@);
        }
        let mut p: usize = 0;
        while p < out.len() && standing_le_exec(&out[p], &x)
            invariant
                total_ordering(leq),
                leq == (|a: StandingView, b: StandingView| standing_le(a, b)),
                p <= out@.len(),
                forall|j: int| 0 <= j < p ==> standing_le(#[trigger] out@[j]@, x@),
            decreases out@.len() - p,
        {
            p = p + 1;
        }
        let ghost before = standing_views(out@);
        proof {
            // Every later element is above x.
            assert forall|j: int| p <= j < out@.len() implies standing_le(x@, #[trigger] out@[j]@) by {
                if p < out@.len() {
                    assert(!standing_le(out@[p as int]@, x@));
                    assert(leq(out@[p as int]@, x@) || leq(x@, out@[p as int]@));
                    assert(standing_le(x@, out@[p as int]@));
                    if j > p {
                        assert(leq(before[p as int], before[j]));
                        assert(leq(x@, before[p as int]));
                    }
                }
            }
        }
        out.insert(p, x);
        proof {
            assert(standing_views(out@) =~= before.insert(p as int, x@));
            vstd::seq_lib::to_multiset_insert(before, p as int, x@);
            assert forall|i: int, j: int| 0 <= i < j < out@.len() implies #[trigger] leq(
                standing_views(out@)[i],
                standing_views(out@)[j],
            ) by {
                if i < p && j == p {
                } else if i < p && j > p {
                    assert(leq(before[i], before[j - 1]));
                } else if i == p && j > p {
                } else if i > p {
                    assert(leq(before[i - 1], before[j - 1]));
                } else {
                    assert(leq(before[i], before[j]));
                }
            }
        }
        proof {
            broadcast use vstd::multiset::group_multiset_axioms;
            assert(standing_views(out@).to_multiset().add(standing_views(rest@).to_multiset())
                =~= input.to_multiset());
        }
    }
    proof {
        assert(standing_views(rest@) =~= seq![]);
        broadcast use vstd::seq_lib::group_to_multiset_ensures, vstd::multiset::group_multiset_axioms;
        assert(standing_views(rest@).to_multiset() =~= vstd::multiset::Multiset::empty());
        assert(standing_views(out@).to_multiset() =~= input.to_multiset());
    }
    out
}

/// Ranking is deterministic and idempotent: any two sequences that hold the
/// same standings and are both in ranking order are equal, so re-ranking a
/// ranked list gives the same list back.
pub proof fn lemma_ranking_unique(a: Seq<StandingView>, b: Seq<StandingView>)
    requires
        a.to_multiset() == b.to_multiset(),
        sorted_by(a, |x: StandingView, y: StandingView| standing_le(x, y)),
        sorted_by(b, |x: StandingView, y: StandingView| standing_le(x, y)),
    ensures
        a == b,
{
    lemma_standing_le_total_ordering();
    vstd::seq_lib::lemma_sorted_unique(a, b, |x: StandingView, y: StandingView| standing_le(x, y));
}

} // verus!
