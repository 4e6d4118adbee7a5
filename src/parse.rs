//! Splitting captured tool output into label/value rows, one row per non-empty line.

use vstd::prelude::*;
use vstd::string::*;
use crate::text::{chars_of, trim, trim_bounds};

verus! {

broadcast use vstd::string::group_string_axioms;

/// How the lines of a tool's output are split.
#[derive(Clone, Copy, Debug, PartialEq, Eq)]
pub enum LineStyle {
    /// `label: value` lines, split at the first `:` (baseboard and CPU descriptors).
    Descriptor,
    /// `address name: description` lines, split at the first `": "`; the text after
    /// the delimiter becomes the label and the text before it the value.
    DeviceListing,
}

impl LineStyle {
    /// The delimiter that separates the two sides of a line.
    pub open spec fn delimiter(self) -> Seq<char> {
        match self {
            LineStyle::Descriptor => seq![':'],
            LineStyle::DeviceListing => seq![':', ' '],
        }
    }

    /// Whether the side after the delimiter is the label.
    pub open spec fn swapped(self) -> bool {
        self is DeviceListing
    }
}

/// One label/value pair shown on a page.
#[derive(Clone, Debug, PartialEq, Eq)]
pub struct DisplayRow {
    pub label: String,
    pub value: String,
}

impl View for DisplayRow {
    type V = (Seq<char>, Seq<char>);

    open spec fn view(&self) -> (Seq<char>, Seq<char>) {
        (self.label@, self.value@)
    }
}

/// The view of an optional row.
pub open spec fn opt_row_view(r: Option<DisplayRow>) -> Option<(Seq<char>, Seq<char>)> {
    match r {
        Some(row) => Some(row@),
        None => None,
    }
}

/// The views of a sequence of rows.
pub open spec fn rows_view(rs: Seq<DisplayRow>) -> Seq<(Seq<char>, Seq<char>)> {
    rs.map_values(|r: DisplayRow| r@)
}

/// The first position at or after `from` where `d` occurs in `line`.
pub open spec fn find_from(line: Seq<char>, d: Seq<char>, from: int) -> Option<int>
    decreases line.len() - from,
{
    if from < 0 || from >= line.len() || from + d.len() > line.len() {
        None
    } else if line.subrange(from, from + d.len()) == d {
        Some(from)
    } else {
        find_from(line, d, from + 1)
    }
}

/// A position that `find_from` reports holds the delimiter, inside the line.
pub proof fn lemma_find_from_hit(line: Seq<char>, d: Seq<char>, from: int)
    ensures
        find_from(line, d, from) matches Some(k) ==> from <= k && k + d.len() <= line.len()
            && line.subrange(k, k + d.len()) == d,
    decreases line.len() - from,
{
    if !(from < 0 || from >= line.len() || from + d.len() > line.len()) && line.subrange(from, from + d.len()) != d {
        lemma_find_from_hit(line, d, from + 1);
    }
}

/// The text of `line` before and after the first occurrence of the delimiter, untrimmed.
pub open spec fn split_parts(line: Seq<char>, style: LineStyle) -> Option<(Seq<char>, Seq<char>)> {
    match find_from(line, style.delimiter(), 0) {
        Some(k) => Some(
            (line.subrange(0, k), line.subrange(k + style.delimiter().len(), line.len() as int)),
        ),
        None => None,
    }
}

/// The row for one line: its two sides around the first delimiter, trimmed of blanks,
/// in the order that the style gives; none where the line lacks the delimiter.
pub open spec fn row_of(line: Seq<char>, style: LineStyle) -> Option<(Seq<char>, Seq<char>)> {
    match split_parts(line, style) {
        Some(parts) => if style.swapped() {
            Some((trim(parts.1), trim(parts.0)))
        } else {
            Some((trim(parts.0), trim(parts.1)))
        },
        None => None,
    }
}

/// The position of the first delimiter in `cs[lo..hi]`, counted from the start of `cs`.
fn find_delimiter(cs: &Vec<char>, lo: usize, hi: usize, style: LineStyle) -> (r: Option<usize>)
    requires
        lo <= hi <= cs@.len(),
    ensures
        match r {
            Some(p) => lo <= p && p + style.delimiter().len() <= hi && find_from(cs@.subrange(lo as int, hi as int), style.delimiter(), 0)
                == Some(p - lo),
            None => find_from(cs@.subrange(lo as int, hi as int), style.delimiter(), 0) is None,
        },
{
    let ghost line = cs@.subrange(lo as int, hi as int);
    let ghost d = style.delimiter();
    let dl: usize = match style {
        LineStyle::Descriptor => 1,
        LineStyle::DeviceListing => 2,
    };
    let mut k: usize = lo;
    while k < hi && dl <= hi - k
        invariant
            lo <= k <= hi <= cs@.len(),
            line == cs@.subrange(lo as int, hi as int),
            d == style.delimiter(),
            dl == d.len(),
            find_from(line, d, 0) == find_from(line, d, k - lo),
        decreases hi - k,
    {
        proof {
            lemma_find_from_hit(line, d, 0);
        }
        let ghost at = (k - lo) as int;
        let hit = cs[k] == ':' && (dl == 1 || cs[k + 1] == ' ');
        assert(line.subrange(at, at + dl)[0] == cs@[k as int]);
        if dl == 2 {
            assert(line.subrange(at, at + dl)[1] == cs@[k + 1]);
        }
        if hit {
            assert(line.subrange(at, at + dl) =~= d);
            return Some(k);
        }
        k = k + 1;
    }
    None
}

/// The row for the line `cs[lo..hi]`, where `cs` holds the characters of `text`.
fn row_in(
    text: &str,
    cs: &Vec<char>,
    lo: usize,
    hi: usize,
    style: LineStyle,
) -> (r: Option<DisplayRow>)
    requires
        cs@ == text@,
        lo <= hi <= cs@.len(),
    ensures
        opt_row_view(r) == row_of(cs@.subrange(lo as int, hi as int), style),
{
    let ghost line = cs@.subrange(lo as int, hi as int);
    match find_delimiter(cs, lo, hi, style) {
        None => None,
        Some(p) => {
            let dl: usize = match style {
                LineStyle::Descriptor => 1,
                LineStyle::DeviceListing => 2,
            };
            let (a, b) = trim_bounds(cs, lo, p);
            let (c, e) = trim_bounds(cs, p + dl, hi);
            assert(line.subrange(0, p - lo) =~= cs@.subrange(lo as int, p as int));
            assert(line.subrange(p - lo + dl, line.len() as int) =~= cs@.subrange(
                p + dl,
                hi as int,
            ));
            let before = text.substring_char(a, b).to_owned();
            let after = text.substring_char(c, e).to_owned();
            match style {
                LineStyle::Descriptor => Some(DisplayRow { label: before, value: after }),
                LineStyle::DeviceListing => Some(DisplayRow { label: after, value: before }),
            }
        },
    }
}

/// Splits one line at the first occurrence of the style's delimiter.
pub fn split_row(line: &str, style: LineStyle) -> (r: Option<DisplayRow>)
    ensures
        opt_row_view(r) == row_of(line@, style),
{
    let cs = chars_of(line);
    let n = cs.len();
    assert(cs@.subrange(0, n as int) =~= line@);
    row_in(line, &cs, 0, n, style)
}


/// The pieces of `s` between newline characters, the last one included even where empty.
pub open spec fn raw_lines(s: Seq<char>) -> Seq<Seq<char>>
    decreases s.len(),
{
    if s.len() == 0 {
        seq![Seq::empty()]
    } else {
        let init = raw_lines(s.drop_last());
        if s.last() == '\n' {
            init.push(Seq::empty())
        } else {
            init.update(init.len() - 1, init.last().push(s.last()))
        }
    }
}

/// A line without the carriage return that may end it.
pub open spec fn line_text(l: Seq<char>) -> Seq<char> {
    if l.len() > 0 && l.last() == '\r' {
        l.drop_last()
    } else {
        l
    }
}

/// The rows of the non-empty lines of `ls`, in order; none where one of them lacks the
/// delimiter.
pub open spec fn rows_of_lines(ls: Seq<Seq<char>>, style: LineStyle) -> Option<
    Seq<(Seq<char>, Seq<char>)>,
>
    decreases ls.len(),
{
    if ls.len() == 0 {
        Some(Seq::empty())
    } else {
        match rows_of_lines(ls.drop_last(), style) {
            None => None,
            Some(rs) => {
                let l = line_text(ls.last());
                if l.len() == 0 {
                    Some(rs)
                } else {
                    match row_of(l, style) {
                        Some(r) => Some(rs.push(r)),
                        None => None,
                    }
                }
            },
        }
    }
}

/// The rows of a captured text.
pub open spec fn rows_of_text(text: Seq<char>, style: LineStyle) -> Option<
    Seq<(Seq<char>, Seq<char>)>,
> {
    rows_of_lines(raw_lines(text), style)
}

/// How many of the lines `ls` are non-empty.
pub open spec fn count_nonempty(ls: Seq<Seq<char>>) -> nat
    decreases ls.len(),
{
    if ls.len() == 0 {
        0
    } else {
        count_nonempty(ls.drop_last()) + if line_text(ls.last()).len() > 0 {
            1nat
        } else {
            0nat
        }
    }
}

/// How many non-empty lines `text` has.
pub open spec fn nonempty_line_count(text: Seq<char>) -> nat {
    count_nonempty(raw_lines(text))
}

/// What the rows gathered so far say of the lines `done`: their rows while no line has
/// failed, and no rows at all once one has.
pub open spec fn gathered(done: Seq<Seq<char>>, style: LineStyle, rows: Seq<DisplayRow>, failed: bool) -> bool {
    if failed {
        rows_of_lines(done, style) is None
    } else {
        rows_of_lines(done, style) == Some(rows_view(rows))
    }
}

/// Takes the line `cs[start..stop]` into the rows gathered for the lines `done`.
fn gather_line(
    text: &str,
    cs: &Vec<char>,
    start: usize,
    stop: usize,
    style: LineStyle,
    rows: &mut Vec<DisplayRow>,
    failed: bool,
    Ghost(done): Ghost<Seq<Seq<char>>>,
) -> (f: bool)
    requires
        cs@ == text@,
        start <= stop <= cs@.len(),
        gathered(done, style, old(rows)@, failed),
    ensures
        gathered(done.push(cs@.subrange(start as int, stop as int)), style, final(rows)@, f),
{
    let ghost line = cs@.subrange(start as int, stop as int);
    let ghost old_rows = rows@;
    assert(done.push(line).drop_last() =~= done);
    if failed {
        return true;
    }
    let end = if stop > start && cs[stop - 1] == '\r' {
        stop - 1
    } else {
        stop
    };
    assert(line_text(line) =~= cs@.subrange(start as int, end as int));
    if end > start {
        match row_in(text, cs, start, end, style) {
            Some(row) => {
                rows.push(row);
                assert(rows_view(rows@) =~= rows_view(old_rows).push(row@));
                false
            },
            None => true,
        }
    } else {
        false
    }
}

/// Splits each non-empty line of `text` into a row; `None` where a non-empty line lacks
/// the delimiter.
pub fn parse_rows(text: &str, style: LineStyle) -> (r: Option<Vec<DisplayRow>>)
    ensures
        match r {
            Some(rows) => rows_of_text(text@, style) == Some(rows_view(rows@)),
            None => rows_of_text(text@, style) is None,
        },
{
    let cs = chars_of(text);
    let n = cs.len();
    let mut rows: Vec<DisplayRow> = Vec::new();
    let mut failed = false;
    let mut start: usize = 0;
    let mut i: usize = 0;
    let ghost mut done: Seq<Seq<char>> = Seq::empty();
    assert(cs@.subrange(0, 0) =~= Seq::<char>::empty());
    assert(rows_view(rows@) =~= Seq::empty());
    while i < n
        invariant
            cs@ == text@,
            n == cs@.len(),
            start <= i <= n,
            raw_lines(cs@.subrange(0, i as int)) == done.push(cs@.subrange(start as int, i as int)),
            gathered(done, style, rows@, failed),
        decreases n - i,
    {
        let ghost prefix = cs@.subrange(0, i + 1);
        assert(prefix.drop_last() =~= cs@.subrange(0, i as int));
        if cs[i] == '\n' {
            let ghost line = cs@.subrange(start as int, i as int);
            failed = gather_line(text, &cs, start, i, style, &mut rows, failed, Ghost(done));
            proof {
                done = done.push(line);
            }
            assert(cs@.subrange(i + 1, i + 1) =~= Seq::<char>::empty());
            start = i + 1;
        } else {
            assert(cs@.subrange(start as int, i + 1) =~= cs@.subrange(start as int, i as int).push(
                cs@[i as int],
            ));
        }
        i = i + 1;
    }
    assert(cs@.subrange(0, n as int) =~= cs@);
    failed = gather_line(text, &cs, start, n, style, &mut rows, failed, Ghost(done));
    if failed {
        None
    } else {
        Some(rows)
    }
}

/// Whether `d` occurs somewhere in `line`.
pub open spec fn contains(line: Seq<char>, d: Seq<char>) -> bool {
    exists|k: int| 0 <= k && k + d.len() <= line.len() && #[trigger] line.subrange(k, k + d.len()) == d
}

proof fn lemma_find_from_finds(line: Seq<char>, d: Seq<char>, from: int, k: int)
    requires
        0 <= from <= k,
        k + d.len() <= line.len(),
        d.len() > 0,
        line.subrange(k, k + d.len()) == d,
    ensures
        find_from(line, d, from) is Some,
    decreases k - from,
{
    if line.subrange(from, from + d.len()) != d {
        lemma_find_from_finds(line, d, from + 1, k);
    }
}

/// A line that holds the delimiter splits without loss: the part before the first
/// delimiter, the delimiter and the part after it make up the line again, and the row
/// holds those two parts with blanks trimmed (see `lemma_trim_keeps_middle`).
pub proof fn lemma_split_lossless(line: Seq<char>, style: LineStyle)
    requires
        contains(line, style.delimiter()),
    ensures
        split_parts(line, style) matches Some(parts) && parts.0 + style.delimiter() + parts.1
            == line && row_of(line, style) == if style.swapped() {
            Some((trim(parts.1), trim(parts.0)))
        } else {
            Some((trim(parts.0), trim(parts.1)))
        },
{
    let d = style.delimiter();
    let k = choose|k: int| 0 <= k && k + d.len() <= line.len() && #[trigger] line.subrange(k, k + d.len()) == d;
    lemma_find_from_finds(line, d, 0, k);
    lemma_find_from_hit(line, d, 0);
    let p = find_from(line, d, 0)->0;
    assert(line.subrange(0, p) + d + line.subrange(p + d.len(), line.len() as int) =~= line);
}

proof fn lemma_rows_of_lines_len(ls: Seq<Seq<char>>, style: LineStyle)
    ensures
        rows_of_lines(ls, style) matches Some(rs) ==> rs.len() == count_nonempty(ls),
    decreases ls.len(),
{
    if ls.len() > 0 {
        lemma_rows_of_lines_len(ls.drop_last(), style);
    }
}

/// Where a text parses, it gives exactly one row per non-empty line.
pub proof fn lemma_row_count(text: Seq<char>, style: LineStyle)
    ensures
        rows_of_text(text, style) matches Some(rs) ==> rs.len() == nonempty_line_count(text),
{
    lemma_rows_of_lines_len(raw_lines(text), style);
}

} // verus!
