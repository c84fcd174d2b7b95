//! The leaderboard board: member rows, hiding staff accounts, the ranking
//! order, the club statistics block and the board page.
//!
//! Amounts are whole cents (`i64`).

use vstd::prelude::*;
use vstd::relations::{sorted_by, total_ordering};
use vstd::string::StringSliceAdditionalSpecFns;
use vstd::utf8::encode_utf8;
use crate::money::{abs_cents, fmt_pnl, money_string, money_text, pnl_text};
use crate::text::{dec, dec_chars, esc, esc_text, from_chars, push_dec, push_str, to_chars, trim_chars,
    trim_text, truncate, truncate_text, url_encode, url_path_encode};
use crate::site::pages::{page_shell, page_shell_text};
use crate::site::table::{build_table_cells, cell, header_views, rows_views, table_text,
    Align, Cell, CellView};

verus! {

/// One member row of the board, amounts in cents.
pub struct Leader {
    pub username: String,
    /// Net worth: free cash + escrow + marked positions.
    pub net_worth: i64,
    /// Free (un-escrowed) cash, used for the club-stats aggregate only.
    pub cash: i64,
    /// Mark-to-market value of open positions, used for club stats.
    pub positions_value: i64,
}

/// The plain value of a [`Leader`].
pub struct LeaderView {
    pub username: Seq<char>,
    pub net_worth: i64,
    pub cash: i64,
    pub positions_value: i64,
}

impl View for Leader {
    type V = LeaderView;

    open spec fn view(&self) -> LeaderView {
        LeaderView {
            username: self.username@,
            net_worth: self.net_worth,
            cash: self.cash,
            positions_value: self.positions_value,
        }
    }
}

/// The views of a sequence of rows.
pub open spec fn leader_views(s: Seq<Leader>) -> Seq<LeaderView> {
    s.map_values(|l: Leader| l@)
}

/// The texts of a sequence of strings.
pub open spec fn string_views(s: Seq<String>) -> Seq<Seq<char>> {
    s.map_values(|x: String| x@)
}

fn copy_leader(l: &Leader) -> (r: Leader)
    ensures
        r@ == l@,
{
    Leader {
        username: l.username.clone(),
        net_worth: l.net_worth,
        cash: l.cash,
        positions_value: l.positions_value,
    }
}

/// The rows whose username is not listed in `exclude`, in input order.
pub open spec fn kept_leaders(rows: Seq<LeaderView>, exclude: Seq<Seq<char>>) -> Seq<LeaderView> {
    rows.filter(|l: LeaderView| !exclude.contains(l.username))
}

/// The rows of `s` with net worth `v`, in order.
pub open spec fn with_worth(s: Seq<LeaderView>, v: int) -> Seq<LeaderView> {
    s.filter(|l: LeaderView| l.net_worth == v)
}

/// Highest net worth first.
pub open spec fn worth_desc(s: Seq<LeaderView>) -> bool {
    forall|i: int, j: int|
        0 <= i < j < s.len() ==> #[trigger] s[i].net_worth >= #[trigger] s[j].net_worth
}

fn is_listed(names: &[String], u: &String) -> (r: bool)
    ensures
        r == string_views(names@).contains(u@),
{
    let ghost nv = string_views(names@);
    let mut i: usize = 0;
    while i < names.len()
        invariant
            i <= names@.len(),
            nv == string_views(names@),
            forall|j: int| 0 <= j < i ==> #[trigger] nv[j] != u@,
        decreases names@.len() - i,
    {
        if names[i] == *u {
            proof {
                assert(nv[i as int] == u@);
            }
            return true;
        }
        i = i + 1;
    }
    false
}

/// Inserting `x` just before the first row worth less than it appends `x`
/// to the rows of its own worth and leaves every other worth's rows as they
/// were.
proof fn lemma_insert_by_worth(out: Seq<LeaderView>, p: int, x: LeaderView, v: int)
    requires
        0 <= p <= out.len(),
        forall|j: int| p <= j < out.len() ==> #[trigger] out[j].net_worth < x.net_worth,
    ensures
        with_worth(out.insert(p, x), v) == (if v == x.net_worth {
            with_worth(out, v).push(x)
        } else {
            with_worth(out, v)
        }),
{
    let pred = |l: LeaderView| l.net_worth == v;
    let a = out.take(p);
    let b = out.skip(p);
    assert(out =~= a + b);
    assert(out.insert(p, x) =~= (a + seq![x]) + b);
    Seq::filter_distributes_over_add(a, b, pred);
    Seq::filter_distributes_over_add(a + seq![x], b, pred);
    Seq::filter_distributes_over_add(a, seq![x], pred);
    Seq::<LeaderView>::empty().lemma_filter_push(x, pred);
    assert(Seq::<LeaderView>::empty().push(x) =~= seq![x]);
    assert(Seq::<LeaderView>::empty().filter(pred) =~= Seq::<LeaderView>::empty()) by {
        reveal(Seq::filter);
    }
    if v == x.net_worth {
        assert forall|j: int| 0 <= j < b.len() implies !pred(#[trigger] b[j]) by {
            assert(b[j] == out[p + j]);
        }
        b.lemma_all_neg_filter_empty(pred);
        assert(b.filter(pred) =~= Seq::<LeaderView>::empty());
        assert(a.filter(pred) + seq![x] + b.filter(pred) =~= (a.filter(pred) + b.filter(
            pred,
        )).push(x));
    } else {
        assert(a.filter(pred) + Seq::<LeaderView>::empty() =~= a.filter(pred));
    }
}

/// The rows of the board: members not listed in `exclude`, highest net
/// worth first; rows of equal net worth keep their input order (a stable
/// sort).
pub fn select_leaders(rows: &[Leader], exclude: &[String]) -> (r: Vec<Leader>)
    ensures
        worth_desc(leader_views(r@)),
        forall|v: int|
            #[trigger] with_worth(leader_views(r@), v) == with_worth(
                kept_leaders(leader_views(rows@), string_views(exclude@)),
                v,
            ),
{
    let ghost rv = leader_views(rows@);
    let ghost ex = string_views(exclude@);
    let ghost keep = |l: LeaderView| !ex.contains(l.username);
    let mut out: Vec<Leader> = Vec::new();
    let mut i: usize = 0;
    while i < rows.len()
        invariant
            i <= rows@.len(),
            rv == leader_views(rows@),
            ex == string_views(exclude@),
            keep == (|l: LeaderView| !ex.contains(l.username)),
            worth_desc(leader_views(out@)),
            forall|v: int|
                #[trigger] with_worth(leader_views(out@), v) == with_worth(
                    kept_leaders(rv.take(i as int), ex),
                    v,
                ),
        decreases rows@.len() - i,
    {
        let ghost prev = kept_leaders(rv.take(i as int), ex);
        proof {
            assert(rv.take(i + 1) =~= rv.take(i as int).push(rv[i as int]));
            rv.take(i as int).lemma_filter_push(rv[i as int], keep);
        }
        if !is_listed(exclude, &rows[i].username) {
            let x = copy_leader(&rows[i]);
            let mut p: usize = 0;
            while p < out.len() && out[p].net_worth >= x.net_worth
                invariant
                    p <= out@.len(),
                    forall|j: int| 0 <= j < p ==> #[trigger] out@[j].net_worth >= x.net_worth,
                decreases out@.len() - p,
            {
                p = p + 1;
            }
            let ghost before = leader_views(out@);
            proof {
                assert forall|j: int| p <= j < before.len() implies #[trigger] before[j].net_worth
                    < x@.net_worth by {
                    assert(before[p as int].net_worth < x.net_worth);
                    if j > p {
                        assert(before[p as int].net_worth >= before[j].net_worth);
                    }
                }
            }
            out.insert(p, x);
            proof {
                let now = leader_views(out@);
                assert(now =~= before.insert(p as int, x@));
                assert forall|v: int| #[trigger]
                    with_worth(now, v) == with_worth(kept_leaders(rv.take(i + 1), ex), v) by {
                    lemma_insert_by_worth(before, p as int, x@, v);
                    prev.lemma_filter_push(x@, |l: LeaderView| l.net_worth == v);
                }
                assert forall|a: int, b: int| 0 <= a < b < now.len() implies #[trigger]
                    now[a].net_worth >= #[trigger] now[b].net_worth by {
                    if a < p && b > p {
                        assert(before[a].net_worth >= before[b - 1].net_worth);
                    } else if a > p {
                        assert(before[a - 1].net_worth >= before[b - 1].net_worth);
                    } else if b < p {
                        assert(before[a].net_worth >= before[b].net_worth);
                    }
                }
            }
        }
        i = i + 1;
    }
    proof {
        assert(rv.take(rows@.len() as int) =~= rv);
    }
    out
}

/// A member listed in `exclude` never appears among the rows chosen by
/// [`select_leaders`]: any sequence that agrees with the kept rows on every
/// net worth holds only kept rows.
pub proof fn lemma_excluded_never_shown(
    out: Seq<LeaderView>,
    rows: Seq<LeaderView>,
    exclude: Seq<Seq<char>>,
    i: int,
)
    requires
        forall|v: int| #[trigger] with_worth(out, v) == with_worth(kept_leaders(rows, exclude), v),
        0 <= i < out.len(),
    ensures
        !exclude.contains(out[i].username),
{
    let v = out[i].net_worth as int;
    let pred = |l: LeaderView| l.net_worth == v;
    let keep = |l: LeaderView| !exclude.contains(l.username);
    out.lemma_filter_contains(pred, i);
    assert(with_worth(out, v) == with_worth(kept_leaders(rows, exclude), v));
    let k = kept_leaders(rows, exclude);
    assert(k.filter(pred).contains(out[i]));
    let j = choose|j: int| 0 <= j < k.filter(pred).len() && k.filter(pred)[j] == out[i];
    k.filter_lemma(pred);
    assert(k.contains(k.filter(pred)[j])) by {
        reveal(Seq::filter);
        lemma_filtered_member(k, pred, j);
    }
    let m = choose|m: int| 0 <= m < k.len() && k[m] == out[i];
    rows.filter_lemma(keep);
    assert(keep(k[m]));
}

/// Every element of a filtered sequence is an element of the sequence.
proof fn lemma_filtered_member(s: Seq<LeaderView>, p: spec_fn(LeaderView) -> bool, j: int)
    requires
        0 <= j < s.filter(p).len(),
    ensures
        s.contains(s.filter(p)[j]),
    decreases s.len(),
{
    reveal(Seq::filter);
    if s.len() > 0 {
        let rest = s.drop_last();
        if p(s.last()) && j == s.filter(p).len() - 1 {
            assert(s[s.len() - 1] == s.last());
        } else {
            lemma_filtered_member(rest, p, j);
            let m = choose|m: int| 0 <= m < rest.len() && rest[m] == rest.filter(p)[j];
            assert(s[m] == rest[m]);
        }
    }
}

/// Sum of a sequence of amounts.
pub open spec fn sum_amounts(s: Seq<i64>) -> int
    decreases s.len(),
{
    if s.len() == 0 {
        0
    } else {
        sum_amounts(s.drop_last()) + s.last()
    }
}

/// The net worths of the rows, in order.
pub open spec fn worths(s: Seq<LeaderView>) -> Seq<i64> {
    s.map_values(|l: LeaderView| l.net_worth)
}

/// The free cash of the rows, in order.
pub open spec fn cashes(s: Seq<LeaderView>) -> Seq<i64> {
    s.map_values(|l: LeaderView| l.cash)
}

/// The position values of the rows, in order.
pub open spec fn deployed_values(s: Seq<LeaderView>) -> Seq<i64> {
    s.map_values(|l: LeaderView| l.positions_value)
}

/// How many rows are worth more than `start`.
pub open spec fn beating_count(s: Seq<LeaderView>, start: int) -> nat {
    s.filter(|l: LeaderView| l.net_worth > start).len()
}

/// `m / d` rounded to the nearest integer, halves away from zero.
pub open spec fn round_half_away(m: nat, d: nat) -> nat {
    if 2 * (m % d) >= d {
        m / d + 1
    } else {
        m / d
    }
}

/// Dollar text of the fractional cents amount `num / den`, rounded to a
/// whole cent (halves away from zero); the sign is that of `num`.
pub open spec fn ratio_money(num: int, den: nat) -> Seq<char> {
    money_text(num < 0, round_half_away(abs_cents(num), den))
}

/// Dollar text of the median of an ascending sequence: the middle amount,
/// or the mean of the two middle amounts.
pub open spec fn median_money(sorted: Seq<i64>) -> Seq<char> {
    let n = sorted.len() as int;
    if n % 2 == 1 {
        ratio_money(sorted[n / 2] as int, 1)
    } else {
        ratio_money(sorted[n / 2 - 1] + sorted[n / 2], 2)
    }
}

/// `s` in ascending order.
pub open spec fn ascending(s: Seq<i64>) -> bool {
    sorted_by(s, |a: i64, b: i64| a <= b)
}

/// `s` is `t` rearranged into ascending order.
pub open spec fn sorted_perm(s: Seq<i64>, t: Seq<i64>) -> bool {
    s.to_multiset() == t.to_multiset() && ascending(s)
}

/// The club-stats key/value lines (before escaping), given the rows, the
/// starting stake and the net worths in ascending order.
pub open spec fn stats_kv(rows: Seq<LeaderView>, start: int, sorted: Seq<i64>) -> Seq<char> {
    let n = rows.len();
    let total = sum_amounts(worths(rows));
    let deployed = sum_amounts(deployed_values(rows));
    let cash = sum_amounts(cashes(rows));
    "  members       "@ + dec(n) + "\n  paper AUM     "@ + ratio_money(total, 1)
        + "\n  avg net worth "@ + ratio_money(total, n) + "\n  median        "@ + median_money(
        sorted,
    ) + "\n  beating start "@ + dec(beating_count(rows, start)) + " / "@ + dec(n)
        + "\n  deployed      "@ + ratio_money(deployed, 1) + "  (free cash "@ + ratio_money(cash, 1)
        + ")"@
}

/// The club-stats block of the board.
pub open spec fn stats_text(rows: Seq<LeaderView>, start: int, sorted: Seq<i64>) -> Seq<char> {
    "<span class=\"dim\"># club stats</span>\n"@ + esc_text(stats_kv(rows, start, sorted))
}

/// Sorts amounts ascending.
fn sort_amounts(v: Vec<i64>) -> (r: Vec<i64>)
    ensures
        sorted_perm(r@, v@),
{
    let ghost leq = |a: i64, b: i64| a <= b;
    let ghost input = v@;
    let mut out: Vec<i64> = Vec::new();
    let mut rest = v;
    proof {
        broadcast use vstd::seq_lib::group_to_multiset_ensures, vstd::multiset::group_multiset_axioms;
        assert(out@.to_multiset() =~= vstd::multiset::Multiset::empty());
        assert(out@.to_multiset().add(rest@.to_multiset()) =~= input.to_multiset());
    }
    while rest.len() > 0
        invariant
            leq == (|a: i64, b: i64| a <= b),
            out@.to_multiset().add(rest@.to_multiset()) == input.to_multiset(),
            sorted_by(out@, leq),
        decreases rest.len(),
    {
        let ghost rest_before = rest@;
        let x = rest.pop().unwrap();
        proof {
            assert(rest_before =~= rest@.push(x));
            vstd::seq_lib::to_multiset_build(rest@, x);
        }
        let mut p: usize = 0;
        while p < out.len() && out[p] <= x
            invariant
                p <= out@.len(),
                forall|j: int| 0 <= j < p ==> #[trigger] out@[j] <= x,
            decreases out@.len() - p,
        {
            p = p + 1;
        }
        let ghost before = out@;
        proof {
            assert forall|j: int| p <= j < before.len() implies x <= #[trigger] before[j] by {
                assert(x < before[p as int]);
                if j > p {
                    assert(leq(before[p as int], before[j]));
                }
            }
        }
        out.insert(p, x);
        proof {
            assert(out@ =~= before.insert(p as int, x));
            vstd::seq_lib::to_multiset_insert(before, p as int, x);
            assert forall|i: int, j: int| 0 <= i < j < out@.len() implies #[trigger] leq(
                out@[i],
                out@[j],
            ) by {
                if i < p && j > p {
                    assert(leq(before[i], before[j - 1]));
                } else if i > p {
                    assert(leq(before[i - 1], before[j - 1]));
                } else if j < p {
                    assert(leq(before[i], before[j]));
                }
            }
            broadcast use vstd::multiset::group_multiset_axioms;
            assert(out@.to_multiset().add(rest@.to_multiset()) =~= input.to_multiset());
        }
    }
    proof {
        assert(rest@ =~= seq![]);
        broadcast use vstd::seq_lib::group_to_multiset_ensures, vstd::multiset::group_multiset_axioms;
        assert(rest@.to_multiset() =~= vstd::multiset::Multiset::empty());
        assert(out@.to_multiset() =~= input.to_multiset());
    }
    out
}

/// An ascending rearrangement is unique, so the median is well defined.
pub proof fn lemma_sorted_perm_unique(a: Seq<i64>, b: Seq<i64>, t: Seq<i64>)
    requires
        sorted_perm(a, t),
        sorted_perm(b, t),
    ensures
        a == b,
{
    let leq = |x: i64, y: i64| x <= y;
    assert(total_ordering(leq));
    vstd::seq_lib::lemma_sorted_unique(a, b, leq);
}

/// Dollar text of `num / den` cents, rounded to a whole cent.
fn money_ratio(num: i128, den: u128) -> (s: String)
    requires
        den > 0,
        num > i128::MIN,
    ensures
        s@ == ratio_money(num as int, den as nat),
{
    let m: u128 = if num < 0 {
        (-num) as u128
    } else {
        num as u128
    };
    let q = m / den;
    let r = m % den;
    let rounded: u128 = if r >= den - r {
        q + 1
    } else {
        q
    };
    proof {
        assert(abs_cents(num as int) == m as nat);
    }
    money_string(num < 0, rounded)
}

/// The net worths of the rows as a vector.
fn worth_vec(rows: &[Leader]) -> (v: Vec<i64>)
    ensures
        v@ == worths(leader_views(rows@)),
{
    let mut v: Vec<i64> = Vec::new();
    let mut i: usize = 0;
    while i < rows.len()
        invariant
            i <= rows@.len(),
            v@ == worths(leader_views(rows@)).take(i as int),
        decreases rows@.len() - i,
    {
        v.push(rows[i].net_worth);
        i = i + 1;
        proof {
            assert(v@ =~= worths(leader_views(rows@)).take(i as int));
        }
    }
    proof {
        assert(worths(leader_views(rows@)).take(i as int) =~= worths(leader_views(rows@)));
    }
    v
}

/// The aggregates of the rows: total net worth, free cash, position value,
/// and how many rows beat the starting stake.
fn club_totals(rows: &[Leader], start_balance: i64) -> (t: (i128, i128, i128, usize))
    ensures
        t.0 == sum_amounts(worths(leader_views(rows@))),
        t.1 == sum_amounts(cashes(leader_views(rows@))),
        t.2 == sum_amounts(deployed_values(leader_views(rows@))),
        t.3 == beating_count(leader_views(rows@), start_balance as int),
        -0x8000_0000_0000_0000 * rows@.len() <= t.0 <= 0x8000_0000_0000_0000 * rows@.len(),
        t.0 > i128::MIN,
        t.1 > i128::MIN,
        t.2 > i128::MIN,
{
    let ghost rv = leader_views(rows@);
    let ghost beats = |l: LeaderView| l.net_worth > start_balance as int;
    let mut total: i128 = 0;
    let mut cash: i128 = 0;
    let mut deployed: i128 = 0;
    let mut beating: usize = 0;
    let mut i: usize = 0;
    while i < rows.len()
        invariant
            i <= rows@.len(),
            rv == leader_views(rows@),
            beats == (|l: LeaderView| l.net_worth > start_balance as int),
            total == sum_amounts(worths(rv.take(i as int))),
            cash == sum_amounts(cashes(rv.take(i as int))),
            deployed == sum_amounts(deployed_values(rv.take(i as int))),
            beating == rv.take(i as int).filter(beats).len(),
            beating <= i,
            -0x8000_0000_0000_0000 * i <= total <= 0x8000_0000_0000_0000 * i,
            -0x8000_0000_0000_0000 * i <= cash <= 0x8000_0000_0000_0000 * i,
            -0x8000_0000_0000_0000 * i <= deployed <= 0x8000_0000_0000_0000 * i,
        decreases rows@.len() - i,
    {
        let l = &rows[i];
        proof {
            let t = rv.take(i + 1);
            assert(t =~= rv.take(i as int).push(rv[i as int]));
            assert(worths(t).drop_last() =~= worths(rv.take(i as int)));
            assert(cashes(t).drop_last() =~= cashes(rv.take(i as int)));
            assert(deployed_values(t).drop_last() =~= deployed_values(rv.take(i as int)));
            rv.take(i as int).lemma_filter_push(rv[i as int], beats);
        }
        total = total + l.net_worth as i128;
        cash = cash + l.cash as i128;
        deployed = deployed + l.positions_value as i128;
        if l.net_worth > start_balance {
            beating = beating + 1;
        }
        i = i + 1;
    }
    proof {
        assert(rv.take(i as int) =~= rv);
    }
    (total, cash, deployed, beating)
}

/// Aggregate club metrics rendered above the board: member count, total
/// paper AUM, average and median net worth, how many beat the starting
/// stake, and capital deployed versus free cash. There is at least one row.
pub fn club_stats(rows: &[Leader], start_balance: i64) -> (s: String)
    requires
        rows@.len() > 0,
    ensures
        exists|sorted: Seq<i64>|
            sorted_perm(sorted, worths(leader_views(rows@))) && s@ == stats_text(
                leader_views(rows@),
                start_balance as int,
                sorted,
            ),
{
    let ghost rv = leader_views(rows@);
    let n = rows.len();
    let (total, cash, deployed, beating) = club_totals(rows, start_balance);
    let sorted = sort_amounts(worth_vec(rows));
    proof {
        assert(sorted@.to_multiset().len() == worths(rv).to_multiset().len());
        broadcast use vstd::seq_lib::group_to_multiset_ensures;
    }
    let half = n / 2;
    let median = if n % 2 == 1 {
        money_ratio(sorted[half] as i128, 1)
    } else {
        money_ratio(sorted[half - 1] as i128 + sorted[half] as i128, 2)
    };
    let mut kv = String::new();
    push_str(&mut kv, "  members       ");
    push_dec(&mut kv, n as u128);
    push_str(&mut kv, "\n  paper AUM     ");
    push_str(&mut kv, money_ratio(total, 1).as_str());
    push_str(&mut kv, "\n  avg net worth ");
    push_str(&mut kv, money_ratio(total, n as u128).as_str());
    push_str(&mut kv, "\n  median        ");
    push_str(&mut kv, median.as_str());
    push_str(&mut kv, "\n  beating start ");
    push_dec(&mut kv, beating as u128);
    push_str(&mut kv, " / ");
    push_dec(&mut kv, n as u128);
    push_str(&mut kv, "\n  deployed      ");
    push_str(&mut kv, money_ratio(deployed, 1).as_str());
    push_str(&mut kv, "  (free cash ");
    push_str(&mut kv, money_ratio(cash, 1).as_str());
    push_str(&mut kv, ")");
    proof {
        assert(kv@ =~= stats_kv(rv, start_balance as int, sorted@));
    }
    let mut out = String::new();
    push_str(&mut out, "<span class=\"dim\"># club stats</span>\n");
    push_str(&mut out, esc(kv.as_str()).as_str());
    proof {
        assert(out@ =~= stats_text(rv, start_balance as int, sorted@));
    }
    out
}

/// A plain auto-escaped cell.
pub open spec fn text_cell(t: Seq<char>) -> CellView {
    CellView { visible: t, html: esc_text(t) }
}

/// The MEMBER cell: the name cut to 28 chars sets the width; the output is
/// a link to the member's profile page.
pub open spec fn member_cell(u: Seq<char>) -> CellView {
    CellView {
        visible: truncate_text(u, 28),
        html: "<a href=\"/u/"@ + url_encode(encode_utf8(u)) + "\">"@ + esc_text(truncate_text(u, 28))
            + "</a>"@,
    }
}

/// Board row `i`: rank, member link, net worth and P&L against `start`.
pub open spec fn board_row(i: int, l: LeaderView, start: int) -> Seq<CellView> {
    seq![
        text_cell(dec((i + 1) as nat)),
        member_cell(l.username),
        text_cell(ratio_money(l.net_worth as int, 1)),
        text_cell(pnl_text(l.net_worth - start)),
    ]
}

/// All board rows, ranked in the given order.
pub open spec fn board_rows(rows: Seq<LeaderView>, start: int) -> Seq<Seq<CellView>> {
    Seq::new(rows.len(), |i: int| board_row(i, rows[i], start))
}

/// Column headers of the board.
pub open spec fn board_headers() -> Seq<Seq<char>> {
    seq!["#"@, "MEMBER"@, "NET WORTH"@, "P&L"@]
}

/// Column alignments of the board.
pub open spec fn board_aligns() -> Seq<Align> {
    seq![Align::Right, Align::Left, Align::Right, Align::Right]
}

/// The board page for a non-empty roster, given the net worths ascending.
pub open spec fn board_text(rows: Seq<LeaderView>, start: int, sorted: Seq<i64>) -> Seq<char> {
    page_shell_text(
        stats_text(rows, start, sorted) + "\n\n"@ + table_text(
            board_headers(),
            board_aligns(),
            board_rows(rows, start),
        ),
    )
}

/// The board page when nobody is listed yet.
pub open spec fn empty_board_text() -> Seq<char> {
    page_shell_text(esc_text("  (no members yet — check back once keys are issued)"@))
}

fn member_cell_exec(u: &String) -> (c: Cell)
    ensures
        c@ == member_cell(u@),
{
    let us = u.as_str();
    let disp = truncate(us, 28);
    let mut link = String::new();
    push_str(&mut link, "<a href=\"/u/");
    push_str(&mut link, url_path_encode(us).as_str());
    push_str(&mut link, "\">");
    push_str(&mut link, esc(disp.as_str()).as_str());
    push_str(&mut link, "</a>");
    proof {
        assert(us.spec_bytes() == encode_utf8(u@));
        assert(link@ =~= member_cell(u@).html);
    }
    Cell { visible: disp, html: link }
}

/// The leaderboard page for rows already in board order. Each MEMBER cell
/// carries the bare (truncated) username for width but a profile link for
/// output, so a numeric or duplicate-prefix username can never collide
/// with rank or money digits.
pub fn render_page(rows: &[Leader], start_balance: i64) -> (p: String)
    ensures
        rows@.len() == 0 ==> p@ == empty_board_text(),
        rows@.len() > 0 ==> exists|sorted: Seq<i64>|
            sorted_perm(sorted, worths(leader_views(rows@))) && p@ == board_text(
                leader_views(rows@),
                start_balance as int,
                sorted,
            ),
{
    if rows.len() == 0 {
        return page_shell(esc("  (no members yet — check back once keys are issued)").as_str());
    }
    let ghost rv = leader_views(rows@);
    let ghost br = board_rows(rv, start_balance as int);
    let mut cells: Vec<Vec<Cell>> = Vec::new();
    let mut i: usize = 0;
    while i < rows.len()
        invariant
            i <= rows@.len(),
            rv == leader_views(rows@),
            br == board_rows(rv, start_balance as int),
            cells@.len() == i,
            forall|j: int| 0 <= j < i ==> (#[trigger] cells@[j])@.map_values(|c: Cell| c@) == br[j],
        decreases rows@.len() - i,
    {
        let l = &rows[i];
        let rank = from_chars(dec_chars((i + 1) as u128).as_slice());
        let worth = money_ratio(l.net_worth as i128, 1);
        let pnl = fmt_pnl(l.net_worth as i128 - start_balance as i128);
        let row: Vec<Cell> = vec![
            cell(rank.as_str()),
            member_cell_exec(&l.username),
            cell(worth.as_str()),
            cell(pnl.as_str()),
        ];
        proof {
            assert(rv[i as int] == l@);
            assert(row@.map_values(|c: Cell| c@) =~= br[i as int]);
        }
        cells.push(row);
        i = i + 1;
    }
    let headers: Vec<&str> = vec!["#", "MEMBER", "NET WORTH", "P&L"];
    let aligns: Vec<Align> = vec![Align::Right, Align::Left, Align::Right, Align::Right];
    proof {
        assert(rows_views(cells@) =~= br);
        assert(header_views(headers@) =~= board_headers());
        assert(aligns@ =~= board_aligns());
        assert forall|k: int| 0 <= k < br.len() implies #[trigger] br[k].len() <= headers@.len() by {
        }
    }
    let table = build_table_cells(headers.as_slice(), aligns.as_slice(), cells.as_slice());
    let stats = club_stats(rows, start_balance);
    let mut inner = String::new();
    push_str(&mut inner, stats.as_str());
    push_str(&mut inner, "\n\n");
    push_str(&mut inner, table.as_str());
    let ghost sorted = choose|sorted: Seq<i64>|
        sorted_perm(sorted, worths(rv)) && stats@ == stats_text(rv, start_balance as int, sorted);
    proof {
        assert(inner@ =~= stats_text(rv, start_balance as int, sorted) + "\n\n"@ + table_text(
            board_headers(),
            board_aligns(),
            br,
        ));
    }
    page_shell(inner.as_str())
}

/// The pieces of `s` between separators `sep` (one more piece than there
/// are separators; pieces may be empty).
pub open spec fn split_on(s: Seq<char>, sep: char) -> Seq<Seq<char>>
    decreases s.len(),
{
    if s.len() == 0 {
        seq![Seq::empty()]
    } else {
        let rest = split_on(s.drop_last(), sep);
        if s.last() == sep {
            rest.push(Seq::empty())
        } else {
            rest.drop_last().push(rest.last().push(s.last()))
        }
    }
}

/// `s` keeping only the first occurrence of each element.
pub open spec fn dedup(s: Seq<Seq<char>>) -> Seq<Seq<char>>
    decreases s.len(),
{
    if s.len() == 0 {
        seq![]
    } else {
        let d = dedup(s.drop_last());
        if d.contains(s.last()) {
            d
        } else {
            d.push(s.last())
        }
    }
}

/// The non-empty trimmed pieces.
pub open spec fn trimmed_names(pieces: Seq<Seq<char>>) -> Seq<Seq<char>> {
    pieces.map_values(|p: Seq<char>| trim_text(p)).filter(|t: Seq<char>| t.len() > 0)
}

/// The usernames named by a comma-separated setting such as
/// `"club_admin, demo_trader"`: each piece trimmed, empty pieces dropped,
/// each name once.
pub open spec fn exclude_names(s: Seq<char>) -> Seq<Seq<char>> {
    dedup(trimmed_names(split_on(s, ',')))
}

/// Deduplicating keeps exactly the elements of the input.
pub proof fn lemma_dedup_contains(s: Seq<Seq<char>>, x: Seq<char>)
    ensures
        dedup(s).contains(x) == s.contains(x),
    decreases s.len(),
{
    if s.len() > 0 {
        lemma_dedup_contains(s.drop_last(), x);
        assert(s =~= s.drop_last().push(s.last()));
        if s.drop_last().contains(x) {
            let j = choose|j: int| 0 <= j < s.drop_last().len() && s.drop_last()[j] == x;
            assert(s[j] == x);
        }
        if s.contains(x) {
            let j = choose|j: int| 0 <= j < s.len() && s[j] == x;
            if j < s.len() - 1 {
                assert(s.drop_last()[j] == x);
            }
        }
        let d = dedup(s.drop_last());
        if !d.contains(s.last()) {
            assert(d.push(s.last())[d.len() as int] == s.last());
            if d.contains(x) {
                let j = choose|j: int| 0 <= j < d.len() && d[j] == x;
                assert(d.push(s.last())[j] == x);
            }
            if d.push(s.last()).contains(x) {
                let j = choose|j: int| 0 <= j < d.len() + 1 && d.push(s.last())[j] == x;
                if j < d.len() {
                    assert(d[j] == x);
                }
            }
        }
    }
}

/// The deduplicated list holds no name twice.
pub proof fn lemma_dedup_distinct(s: Seq<Seq<char>>)
    ensures
        forall|i: int, j: int|
            0 <= i < j < dedup(s).len() ==> #[trigger] dedup(s)[i] != #[trigger] dedup(s)[j],
    decreases s.len(),
{
    if s.len() > 0 {
        lemma_dedup_distinct(s.drop_last());
        let d = dedup(s.drop_last());
        if !d.contains(s.last()) {
            assert forall|i: int, j: int| 0 <= i < j < d.push(s.last()).len() implies #[trigger] d.push(
                s.last(),
            )[i] != #[trigger] d.push(s.last())[j] by {
                if j == d.len() {
                    assert(d[i] != s.last());
                } else {
                    assert(d[i] != d[j]);
                }
            }
        }
    }
}

fn chars_listed(names: &Vec<String>, t: &String) -> (r: bool)
    ensures
        r == string_views(names@).contains(t@),
{
    is_listed(names.as_slice(), t)
}

proof fn lemma_names_push(done: Seq<Seq<char>>, cur: Seq<char>)
    ensures
        trimmed_names(done.push(cur)) == (if trim_text(cur).len() > 0 {
            trimmed_names(done).push(trim_text(cur))
        } else {
            trimmed_names(done)
        }),
{
    let f = |p: Seq<char>| trim_text(p);
    let keep = |t: Seq<char>| t.len() > 0;
    assert(done.push(cur).map_values(f) =~= done.map_values(f).push(trim_text(cur)));
    done.map_values(f).lemma_filter_push(trim_text(cur), keep);
}

proof fn lemma_split_step(s: Seq<char>, i: int)
    requires
        0 <= i < s.len(),
    ensures
        split_on(s.take(i + 1), ',') == (if s[i] == ',' {
            split_on(s.take(i), ',').push(Seq::empty())
        } else {
            split_on(s.take(i), ',').drop_last().push(split_on(s.take(i), ',').last().push(s[i]))
        }),
{
    assert(s.take(i + 1).drop_last() =~= s.take(i));
}

proof fn lemma_split_nonempty(s: Seq<char>)
    ensures
        split_on(s, ',').len() >= 1,
    decreases s.len(),
{
    if s.len() > 0 {
        lemma_split_nonempty(s.drop_last());
    }
}

fn finish_piece(out: &mut Vec<String>, cur: &[char], Ghost(done): Ghost<Seq<Seq<char>>>)
    requires
        string_views(old(out)@) == dedup(trimmed_names(done)),
    ensures
        string_views(final(out)@) == dedup(trimmed_names(done.push(cur@))),
{
    let t = trim_chars(cur);
    proof {
        lemma_names_push(done, cur@);
    }
    if t.len() > 0 {
        let mut name = String::new();
        crate::text::push_chars(&mut name, t.as_slice());
        let seen = chars_listed(out, &name);
        proof {
            let tn = trimmed_names(done.push(cur@));
            assert(tn.drop_last() =~= trimmed_names(done));
            assert(tn.last() == name@);
        }
        if !seen {
            let ghost before = out@;
            out.push(name);
            proof {
                assert(string_views(out@) =~= string_views(before).push(t@));
            }
        }
    }
}

/// The usernames named by a comma-separated setting (the site's
/// `EXCLUDE_USERS`): trimmed, non-empty, each once, in first-seen order.
pub fn parse_name_list(s: &str) -> (r: Vec<String>)
    ensures
        string_views(r@) == exclude_names(s@),
{
    let cs = to_chars(s);
    let mut out: Vec<String> = Vec::new();
    let mut cur: Vec<char> = Vec::new();
    let ghost mut done: Seq<Seq<char>> = seq![];
    let mut i: usize = 0;
    proof {
        assert(cs@.take(0) =~= Seq::<char>::empty());
        assert(split_on(Seq::<char>::empty(), ',') == seq![Seq::<char>::empty()]);
        assert(done.push(cur@) =~= seq![Seq::<char>::empty()]);
        assert(trimmed_names(done) =~= Seq::<Seq<char>>::empty()) by {
            reveal(Seq::filter);
        }
        assert(string_views(out@) =~= Seq::<Seq<char>>::empty());
    }
    while i < cs.len()
        invariant
            i <= cs@.len(),
            cs@ == s@,
            split_on(cs@.take(i as int), ',') == done.push(cur@),
            string_views(out@) == dedup(trimmed_names(done)),
        decreases cs@.len() - i,
    {
        proof {
            lemma_split_step(cs@, i as int);
            lemma_split_nonempty(cs@.take(i as int));
        }
        if cs[i] == ',' {
            finish_piece(&mut out, cur.as_slice(), Ghost(done));
            proof {
                done = done.push(cur@);
            }
            cur = Vec::new();
            proof {
                assert(split_on(cs@.take(i + 1), ',') =~= done.push(cur@));
            }
        } else {
            proof {
                assert(done.push(cur@).drop_last() =~= done);
            }
            cur.push(cs[i]);
            proof {
                assert(split_on(cs@.take(i + 1), ',') =~= done.push(cur@));
            }
        }
        i = i + 1;
    }
    finish_piece(&mut out, cur.as_slice(), Ghost(done));
    proof {
        assert(cs@.take(i as int) =~= cs@);
    }
    out
}


/// The beating-start count grows by one for each member strictly above
/// the starting stake: adding a member at or below it (one who never
/// traded, say) leaves the count as it was.
pub proof fn lemma_beating_counts_strictly_above(s: Seq<LeaderView>, l: LeaderView, start: int)
    ensures
        beating_count(Seq::<LeaderView>::empty(), start) == 0,
        beating_count(s.push(l), start) == beating_count(s, start) + (if l.net_worth > start {
            1int
        } else {
            0int
        }),
{
    let p = |x: LeaderView| x.net_worth > start;
    s.lemma_filter_push(l, p);
    assert(Seq::<LeaderView>::empty().filter(p) =~= Seq::<LeaderView>::empty());
}

/// A club where nobody is above the starting stake (nobody has traded,
/// for one) has nobody beating it.
pub proof fn lemma_nobody_above_start(s: Seq<LeaderView>, start: int)
    requires
        forall|i: int| 0 <= i < s.len() ==> #[trigger] s[i].net_worth <= start,
    ensures
        beating_count(s, start) == 0,
    decreases s.len(),
{
    if s.len() > 0 {
        let init = s.drop_last();
        assert forall|i: int| 0 <= i < init.len() implies #[trigger] init[i].net_worth <= start by {
            assert(init[i] == s[i]);
        }
        lemma_nobody_above_start(init, start);
        lemma_beating_counts_strictly_above(init, s.last(), start);
        assert(init.push(s.last()) =~= s);
    } else {
        lemma_beating_counts_strictly_above(s, LeaderView { username: seq![], net_worth: 0, cash: 0, positions_value: 0 }, start);
        assert(s =~= Seq::<LeaderView>::empty());
    }
}

} // verus!
