//! Box-drawn monospace tables for the leaderboard site.
//!
//! Each cell carries the bare text that sets column width and alignment
//! (`visible`) and the HTML actually emitted (`html`), so a cell can hold a
//! link without throwing off the padding.

use vstd::prelude::*;
use crate::text::{esc, esc_text, push_char, push_chars, to_chars};

verus! {

/// Column alignment.
#[derive(Clone, Copy, PartialEq, Eq)]
pub enum Align {
    Left,
    Right,
}

/// One table cell. `visible` is the bare text that drives column width and
/// alignment; `html` is what we actually emit (already HTML-escaped).
pub struct Cell {
    pub visible: String,
    pub html: String,
}

/// The plain value of a [`Cell`].
pub struct CellView {
    pub visible: Seq<char>,
    pub html: Seq<char>,
}

impl View for Cell {
    type V = CellView;

    open spec fn view(&self) -> CellView {
        CellView { visible: self.visible@, html: self.html@ }
    }
}

/// A plain auto-escaped cell (`visible` == unescaped text, `html` == escaped).
pub fn cell(s: &str) -> (c: Cell)
    ensures
        c@.visible == s@,
        c@.html == esc_text(s@),
{
    Cell { visible: String::from_str(s), html: esc(s) }
}

/// `n` copies of `c`.
pub open spec fn repeat(c: char, n: nat) -> Seq<char> {
    Seq::new(n, |_i: int| c)
}

/// The larger of two naturals.
pub open spec fn max_nat(a: nat, b: nat) -> nat {
    if a >= b { a } else { b }
}

/// Width of column `i` over the header and the first `k` rows: the widest
/// visible text in it.
pub open spec fn width_upto(headers: Seq<Seq<char>>, rows: Seq<Seq<CellView>>, i: int, k: int) -> nat
    decreases k,
{
    if k <= 0 {
        headers[i].len()
    } else {
        let cell_w: nat = if i < rows[k - 1].len() { rows[k - 1][i].visible.len() } else { 0 };
        max_nat(width_upto(headers, rows, i, k - 1), cell_w)
    }
}

/// Column widths: for each header column, the widest visible text in it.
pub open spec fn widths(headers: Seq<Seq<char>>, rows: Seq<Seq<CellView>>) -> Seq<nat> {
    Seq::new(headers.len(), |i: int| width_upto(headers, rows, i, rows.len() as int))
}

/// The first `k` segments of a border line: `─` runs of width+2, each
/// closed by `m`, or by `r` after the last column.
pub open spec fn border_upto(ws: Seq<nat>, m: char, r: char, k: int) -> Seq<char>
    decreases k,
{
    if k <= 0 {
        seq![]
    } else {
        border_upto(ws, m, r, k - 1) + repeat('─', ws[k - 1] + 2) + seq![
            if k == ws.len() { r } else { m },
        ]
    }
}

/// A full border line.
pub open spec fn border(ws: Seq<nat>, l: char, m: char, r: char) -> Seq<char> {
    seq![l] + border_upto(ws, m, r, ws.len() as int)
}

/// One cell padded to width `w`: ` text␣␣ │` or ` ␣␣text │`.
pub open spec fn padded(c: CellView, w: nat, a: Align) -> Seq<char> {
    let spaces = repeat(' ', if w >= c.visible.len() { (w - c.visible.len()) as nat } else { 0 });
    seq![' '] + (match a {
        Align::Left => c.html + spaces,
        Align::Right => spaces + c.html,
    }) + seq![' ', '│']
}

/// The first `k` cells of a row line.
pub open spec fn row_upto(ws: Seq<nat>, aligns: Seq<Align>, cells: Seq<CellView>, k: int) -> Seq<char>
    decreases k,
{
    if k <= 0 {
        seq![]
    } else {
        row_upto(ws, aligns, cells, k - 1) + padded(cells[k - 1], ws[k - 1], aligns[k - 1])
    }
}

/// One row line: `│` followed by every padded cell.
pub open spec fn row_line(ws: Seq<nat>, aligns: Seq<Align>, cells: Seq<CellView>) -> Seq<char> {
    seq!['│'] + row_upto(ws, aligns, cells, cells.len() as int)
}

/// The first `k` body rows, each followed by a newline.
pub open spec fn body_upto(ws: Seq<nat>, aligns: Seq<Align>, rows: Seq<Seq<CellView>>, k: int) -> Seq<char>
    decreases k,
{
    if k <= 0 {
        seq![]
    } else {
        body_upto(ws, aligns, rows, k - 1) + row_line(ws, aligns, rows[k - 1]) + seq!['\n']
    }
}

/// Header cells: visible text and its escaping.
pub open spec fn header_cells(headers: Seq<Seq<char>>) -> Seq<CellView> {
    Seq::new(headers.len(), |i: int| CellView { visible: headers[i], html: esc_text(headers[i]) })
}

/// The whole table text.
pub open spec fn table_text(headers: Seq<Seq<char>>, aligns: Seq<Align>, rows: Seq<Seq<CellView>>) -> Seq<char> {
    let ws = widths(headers, rows);
    border(ws, '┌', '┬', '┐') + seq!['\n'] + row_line(ws, aligns, header_cells(headers)) + seq![
        '\n',
    ] + border(ws, '├', '┼', '┤') + seq!['\n'] + body_upto(ws, aligns, rows, rows.len() as int)
        + border(ws, '└', '┴', '┘')
}

/// Header texts of a header slice.
pub open spec fn header_views(headers: Seq<&str>) -> Seq<Seq<char>> {
    headers.map_values(|h: &str| h@)
}

/// Cell views of rows.
pub open spec fn rows_views(rows: Seq<Vec<Cell>>) -> Seq<Seq<CellView>> {
    rows.map_values(|r: Vec<Cell>| r@.map_values(|c: Cell| c@))
}

/// Whether every row fits the header columns.
pub open spec fn rows_fit(ncols: nat, rows: Seq<Seq<CellView>>) -> bool {
    forall|k: int| 0 <= k < rows.len() ==> #[trigger] rows[k].len() <= ncols
}

fn push_repeat(out: &mut String, c: char, n: usize)
    ensures
        final(out)@ == old(out)@ + repeat(c, n as nat),
{
    let mut i: usize = 0;
    while i < n
        invariant
            i <= n,
            out@ == old(out)@ + repeat(c, i as nat),
        decreases n - i,
    {
        push_char(out, c);
        i = i + 1;
        proof {
            assert(repeat(c, i as nat) =~= repeat(c, (i - 1) as nat).push(c));
        }
    }
}

fn compute_widths(headers: &[&str], rows: &[Vec<Cell>]) -> (ws: Vec<usize>)
    requires
        rows_fit(headers@.len(), rows_views(rows@)),
    ensures
        ws@.len() == headers@.len(),
        forall|i: int| 0 <= i < ws@.len() ==> #[trigger] ws@[i] as nat == widths(
            header_views(headers@),
            rows_views(rows@),
        )[i],
{
    let ghost hv = header_views(headers@);
    let ghost rv = rows_views(rows@);
    let mut ws: Vec<usize> = Vec::new();
    let mut i: usize = 0;
    while i < headers.len()
        invariant
            i <= headers@.len(),
            hv == header_views(headers@),
            rv == rows_views(rows@),
            ws@.len() == i,
            forall|j: int| 0 <= j < i ==> #[trigger] ws@[j] as nat == width_upto(hv, rv, j, 0),
        decreases headers@.len() - i,
    {
        let hc = to_chars(headers[i]);
        ws.push(hc.len());
        proof {
            assert(hv[i as int] == headers@[i as int]@);
        }
        i = i + 1;
    }
    let mut k: usize = 0;
    while k < rows.len()
        invariant
            k <= rows@.len(),
            hv == header_views(headers@),
            rv == rows_views(rows@),
            rv.len() == rows@.len(),
            ws@.len() == headers@.len(),
            rows_fit(headers@.len(), rv),
            forall|j: int| 0 <= j < ws@.len() ==> #[trigger] ws@[j] as nat == width_upto(hv, rv, j, k as int),
        decreases rows@.len() - k,
    {
        let row = &rows[k];
        let mut i: usize = 0;
        assert(rv[k as int] == row@.map_values(|c: Cell| c@));
        while i < row.len()
            invariant
                i <= row@.len(),
                row@.len() <= ws@.len(),
                ws@.len() == headers@.len(),
                rv == rows_views(rows@),
                k < rows@.len(),
                rv.len() == rows@.len(),
                row == rows@[k as int],
                rv[k as int] == row@.map_values(|c: Cell| c@),
                forall|j: int| 0 <= j < i ==> #[trigger] ws@[j] as nat == width_upto(hv, rv, j, k + 1),
                forall|j: int| i <= j < ws@.len() ==> #[trigger] ws@[j] as nat == width_upto(hv, rv, j, k as int),
            decreases row@.len() - i,
        {
            let vc = to_chars(row[i].visible.as_str());
            let w = ws[i];
            if vc.len() > w {
                ws.set(i, vc.len());
            }
            proof {
                assert(rv[k as int][i as int] == row@[i as int]@);
                assert(width_upto(hv, rv, i as int, k + 1) == max_nat(
                    width_upto(hv, rv, i as int, k as int),
                    rv[k as int][i as int].visible.len(),
                ));
            }
            i = i + 1;
        }
        proof {
            assert forall|j: int| row@.len() <= j < ws@.len() implies #[trigger] ws@[j] as nat
                == width_upto(hv, rv, j, k + 1) by {
                assert(width_upto(hv, rv, j, k + 1) == max_nat(width_upto(hv, rv, j, k as int), 0));
            }
        }
        k = k + 1;
    }
    ws
}

/// Widths as naturals.
pub open spec fn nats(ws: Seq<usize>) -> Seq<nat> {
    ws.map_values(|w: usize| w as nat)
}

fn push_border(out: &mut String, ws: &[usize], l: char, m: char, r: char)
    ensures
        final(out)@ == old(out)@ + border(nats(ws@), l, m, r),
{
    let ghost wn = nats(ws@);
    push_char(out, l);
    let mut i: usize = 0;
    while i < ws.len()
        invariant
            i <= ws@.len(),
            wn == nats(ws@),
            out@ == old(out)@ + seq![l] + border_upto(wn, m, r, i as int),
        decreases ws@.len() - i,
    {
        push_repeat(out, '─', ws[i]);
        push_char(out, '─');
        push_char(out, '─');
        if i + 1 == ws.len() {
            push_char(out, r);
        } else {
            push_char(out, m);
        }
        proof {
            assert(repeat('─', ws@[i as int] as nat).push('─').push('─') =~= repeat(
                '─',
                wn[i as int] + 2,
            ));
            assert(out@ =~= old(out)@ + seq![l] + border_upto(wn, m, r, i + 1));
        }
        i = i + 1;
    }
}

fn push_row(out: &mut String, ws: &[usize], aligns: &[Align], cells: &[Cell])
    requires
        cells@.len() <= ws@.len(),
        cells@.len() <= aligns@.len(),
    ensures
        final(out)@ == old(out)@ + row_line(nats(ws@), aligns@, cells@.map_values(|c: Cell| c@)),
{
    let ghost wn = nats(ws@);
    let ghost cv = cells@.map_values(|c: Cell| c@);
    push_char(out, '│');
    let mut i: usize = 0;
    while i < cells.len()
        invariant
            i <= cells@.len(),
            cells@.len() <= ws@.len(),
            cells@.len() <= aligns@.len(),
            wn == nats(ws@),
            cv == cells@.map_values(|c: Cell| c@),
            out@ == old(out)@ + seq!['│'] + row_upto(wn, aligns@, cv, i as int),
        decreases cells@.len() - i,
    {
        let c = &cells[i];
        let vc = to_chars(c.visible.as_str());
        let hc = to_chars(c.html.as_str());
        let w = ws[i];
        let n: usize = if w >= vc.len() { w - vc.len() } else { 0 };
        let ghost before = out@;
        push_char(out, ' ');
        match aligns[i] {
            Align::Left => {
                push_chars(out, hc.as_slice());
                push_repeat(out, ' ', n);
            },
            Align::Right => {
                push_repeat(out, ' ', n);
                push_chars(out, hc.as_slice());
            },
        }
        push_char(out, ' ');
        push_char(out, '│');
        proof {
            assert(cv[i as int] == c@);
            assert(out@ =~= before + padded(cv[i as int], wn[i as int], aligns@[i as int]));
        }
        i = i + 1;
    }
}

/// Render an aligned, box-drawn monospace table from pre-built cells.
/// Borders are raw box-drawing characters; each cell's `html` is emitted
/// verbatim and padded by its `visible` width.
pub fn build_table_cells(headers: &[&str], aligns: &[Align], rows: &[Vec<Cell>]) -> (t: String)
    requires
        headers@.len() <= aligns@.len(),
        rows_fit(headers@.len(), rows_views(rows@)),
    ensures
        t@ == table_text(header_views(headers@), aligns@, rows_views(rows@)),
{
    let ghost hv = header_views(headers@);
    let ghost rv = rows_views(rows@);
    let ws = compute_widths(headers, rows);
    let ghost wn = nats(ws@);
    proof {
        assert(wn =~= widths(hv, rv));
    }
    let mut header_row: Vec<Cell> = Vec::new();
    let mut i: usize = 0;
    while i < headers.len()
        invariant
            i <= headers@.len(),
            hv == header_views(headers@),
            header_row@.len() == i,
            forall|j: int| 0 <= j < i ==> (#[trigger] header_row@[j])@ == header_cells(hv)[j],
        decreases headers@.len() - i,
    {
        header_row.push(cell(headers[i]));
        i = i + 1;
    }
    proof {
        assert(header_row@.map_values(|c: Cell| c@) =~= header_cells(hv));
    }
    let mut out = String::new();
    push_border(&mut out, ws.as_slice(), '┌', '┬', '┐');
    push_char(&mut out, '\n');
    push_row(&mut out, ws.as_slice(), aligns, header_row.as_slice());
    push_char(&mut out, '\n');
    push_border(&mut out, ws.as_slice(), '├', '┼', '┤');
    push_char(&mut out, '\n');
    let ghost head = out@;
    let mut k: usize = 0;
    while k < rows.len()
        invariant
            k <= rows@.len(),
            rv == rows_views(rows@),
            wn == nats(ws@),
            ws@.len() == headers@.len(),
            headers@.len() <= aligns@.len(),
            rows_fit(headers@.len(), rv),
            out@ == head + body_upto(wn, aligns@, rv, k as int),
        decreases rows@.len() - k,
    {
        proof {
            assert(rv[k as int] == rows@[k as int]@.map_values(|c: Cell| c@));
            assert(rv[k as int].len() <= headers@.len());
        }
        push_row(&mut out, ws.as_slice(), aligns, rows[k].as_slice());
        push_char(&mut out, '\n');
        k = k + 1;
    }
    push_border(&mut out, ws.as_slice(), '└', '┴', '┘');
    proof {
        assert(out@ =~= table_text(hv, aligns@, rv));
    }
    out
}

/// The cells of plain-text rows, each auto-escaped as by [`cell`].
pub open spec fn plain_rows(rows: Seq<Vec<String>>) -> Seq<Seq<CellView>> {
    rows.map_values(
        |r: Vec<String>| r@.map_values(|s: String| CellView { visible: s@, html: esc_text(s@) }),
    )
}

/// Build a table from plain string cells (auto-escaped). The returned
/// string is already HTML-safe; callers must not escape it again.
pub fn build_table(headers: &[&str], aligns: &[Align], rows: &[Vec<String>]) -> (t: String)
    requires
        headers@.len() <= aligns@.len(),
        rows_fit(headers@.len(), plain_rows(rows@)),
    ensures
        t@ == table_text(header_views(headers@), aligns@, plain_rows(rows@)),
{
    let ghost pr = plain_rows(rows@);
    let mut cells: Vec<Vec<Cell>> = Vec::new();
    let mut k: usize = 0;
    while k < rows.len()
        invariant
            k <= rows@.len(),
            pr == plain_rows(rows@),
            cells@.len() == k,
            forall|j: int| 0 <= j < k ==> (#[trigger] cells@[j])@.map_values(|c: Cell| c@) == pr[j],
        decreases rows@.len() - k,
    {
        let row = &rows[k];
        let mut out_row: Vec<Cell> = Vec::new();
        let mut i: usize = 0;
        while i < row.len()
            invariant
                i <= row@.len(),
                row@ == rows@[k as int]@,
                out_row@.len() == i,
                forall|j: int| 0 <= j < i ==> (#[trigger] out_row@[j])@ == (CellView {
                    visible: row@[j]@,
                    html: esc_text(row@[j]@),
                }),
            decreases row@.len() - i,
        {
            out_row.push(cell(row[i].as_str()));
            i = i + 1;
        }
        proof {
            assert(out_row@.map_values(|c: Cell| c@) =~= pr[k as int]);
        }
        cells.push(out_row);
        k = k + 1;
    }
    proof {
        assert(rows_views(cells@) =~= pr);
    }
    build_table_cells(headers, aligns, cells.as_slice())
}

} // verus!
