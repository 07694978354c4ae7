//! HTML of the text modules of a page: paragraphs split on blank lines.

use vstd::prelude::*;
use crate::chart_spec::GridCell;
use crate::nav::{escape_html, html_escape};
use crate::text::{decimal, push_char, push_decimal, str_chars, strs};

verus! {

/// A block of text shown on a page; blank lines (`"\n\n"`) separate its
/// paragraphs.
pub struct ParagraphSpec {
    pub text: String,
    /// Title shown above the module, if any.
    pub title: Option<String>,
    /// Position of the module in the page grid.
    pub grid: GridCell,
}

/// Whether `c` has Unicode's `White_Space` property, which is what Rust's
/// `char::is_whitespace` tests: the 25 code points U+0009 to U+000D, U+0020,
/// U+0085, U+00A0, U+1680, U+2000 to U+200A, U+2028, U+2029, U+202F, U+205F
/// and U+3000.
pub open spec fn is_white_space(c: char) -> bool {
    let u = c as u32;
    ||| 0x09 <= u <= 0x0D
    ||| u == 0x20
    ||| u == 0x85
    ||| u == 0xA0
    ||| u == 0x1680
    ||| 0x2000 <= u <= 0x200A
    ||| u == 0x2028
    ||| u == 0x2029
    ||| u == 0x202F
    ||| u == 0x205F
    ||| u == 0x3000
}

/// Whether `c` is whitespace (`White_Space`).
fn char_is_whitespace(c: char) -> (r: bool)
    ensures
        r == is_white_space(c),
{
    let u = c as u32;
    (0x09 <= u && u <= 0x0D) || u == 0x20 || u == 0x85 || u == 0xA0 || u == 0x1680
        || (0x2000 <= u && u <= 0x200A) || u == 0x2028 || u == 0x2029 || u == 0x202F
        || u == 0x205F || u == 0x3000
}

/// `s` without its leading whitespace.
pub open spec fn trim_start(s: Seq<char>) -> Seq<char>
    decreases s.len(),
{
    if s.len() > 0 && is_white_space(s[0]) { trim_start(s.drop_first()) } else { s }
}

/// `s` without its trailing whitespace.
pub open spec fn trim_end(s: Seq<char>) -> Seq<char>
    decreases s.len(),
{
    if s.len() > 0 && is_white_space(s.last()) { trim_end(s.drop_last()) } else { s }
}

/// `s` without leading and trailing whitespace.
pub open spec fn trim(s: Seq<char>) -> Seq<char> {
    trim_end(trim_start(s))
}

/// Whether a blank line (`"\n\n"`) starts at `k`.
pub open spec fn is_blank_at(s: Seq<char>, k: int) -> bool {
    0 <= k && k + 1 < s.len() && s[k] == '\n' && s[k + 1] == '\n'
}

/// Where the first blank line (`"\n\n"`) starts, or the length when there
/// is none.
pub open spec fn blank_line_pos(s: Seq<char>) -> nat
    decreases s.len(),
{
    if s.len() < 2 {
        s.len()
    } else if s[0] == '\n' && s[1] == '\n' {
        0
    } else {
        1 + blank_line_pos(s.drop_first())
    }
}

/// The pieces of `s` between blank lines, left to right; there is always
/// at least one, possibly empty.
pub open spec fn split_paragraphs(s: Seq<char>) -> Seq<Seq<char>>
    decreases s.len(),
{
    let p = blank_line_pos(s);
    if p + 2 <= s.len() {
        seq![s.take(p as int)] + split_paragraphs(s.skip(p + 2 as int))
    } else {
        seq![s]
    }
}

/// The `<p>` elements of the pieces that hold more than whitespace.
pub open spec fn paragraphs_html(pieces: Seq<Seq<char>>) -> Seq<char>
    decreases pieces.len(),
{
    if pieces.len() == 0 {
        Seq::empty()
    } else {
        let t = trim(pieces.last());
        paragraphs_html(pieces.drop_last()) + if t.len() > 0 {
            "<p>"@ + html_escape(t) + "</p>"@
        } else {
            Seq::empty()
        }
    }
}

/// The HTML of a paragraph module.
pub open spec fn paragraph_module_html(text: Seq<char>) -> Seq<char> {
    "<div class=\"paragraph-module\">"@ + paragraphs_html(split_paragraphs(text)) + "</div>"@
}

proof fn lemma_blank_line_pos(s: Seq<char>, j: int)
    requires
        0 <= j <= s.len(),
        forall|k: int| 0 <= k < j ==> !#[trigger] is_blank_at(s, k),
        is_blank_at(s, j) || (j == s.len()) || (j + 1 == s.len()),
    ensures
        blank_line_pos(s) == if j + 1 < s.len() { j } else { s.len() as int },
    decreases j,
{
    if j > 0 && s.len() >= 2 {
        assert(!is_blank_at(s, 0));
        let d = s.drop_first();
        assert forall|k: int| 0 <= k < j - 1 implies !#[trigger] is_blank_at(d, k) by {
            assert(!is_blank_at(s, k + 1));
        }
        if j - 1 + 1 < d.len() {
            assert(is_blank_at(s, j));
            assert(is_blank_at(d, j - 1));
        }
        lemma_blank_line_pos(d, j - 1);
    }
}

fn trimmed(chars: &Vec<char>, from: usize, to: usize) -> (r: Vec<char>)
    requires
        from <= to <= chars@.len(),
    ensures
        r@ == trim(chars@.subrange(from as int, to as int)),
{
    let ghost piece = chars@.subrange(from as int, to as int);
    let mut a = from;
    while a < to && char_is_whitespace(chars[a])
        invariant
            from <= a <= to,
            to <= chars@.len(),
            trim_start(piece) == trim_start(chars@.subrange(a as int, to as int)),
        decreases to - a,
    {
        proof {
            assert(chars@.subrange(a as int, to as int).drop_first() =~= chars@.subrange(a + 1, to as int));
        }
        a = a + 1;
    }
    proof {
        assert(trim_start(chars@.subrange(a as int, to as int)) == chars@.subrange(a as int, to as int));
    }
    let mut b = to;
    while b > a && char_is_whitespace(chars[b - 1])
        invariant
            a <= b <= to,
            to <= chars@.len(),
            trim(piece) == trim_end(chars@.subrange(a as int, b as int)),
        decreases b - a,
    {
        proof {
            assert(chars@.subrange(a as int, b as int).drop_last() =~= chars@.subrange(a as int, b - 1));
        }
        b = b - 1;
    }
    let mut out: Vec<char> = Vec::new();
    let mut i = a;
    while i < b
        invariant
            a <= i <= b,
            b <= chars@.len(),
            out@ == chars@.subrange(a as int, i as int),
        decreases b - i,
    {
        out.push(chars[i]);
        proof {
            assert(chars@.subrange(a as int, i + 1) =~= chars@.subrange(a as int, i as int).push(chars@[i as int]));
        }
        i = i + 1;
    }
    out
}

fn push_paragraph(html: &mut String, chars: &Vec<char>, from: usize, to: usize)
    requires
        from <= to <= chars@.len(),
    ensures
        final(html)@ == old(html)@ + paragraphs_html(seq![chars@.subrange(from as int, to as int)]),
{
    let t = trimmed(chars, from, to);
    let ghost piece = chars@.subrange(from as int, to as int);
    proof {
        assert(seq![piece].drop_last() =~= Seq::<Seq<char>>::empty());
        assert(seq![piece].last() == piece);
    }
    if t.len() > 0 {
        let mut s = String::new();
        let n = t.len();
        for i in 0..n
            invariant
                n == t@.len(),
                s@ == t@.take(i as int),
        {
            push_char(&mut s, t[i]);
            proof {
                assert(t@.take(i + 1) =~= t@.take(i as int).push(t@[i as int]));
            }
        }
        proof {
            assert(t@.take(n as int) =~= t@);
        }
        html.append("<p>");
        let e = escape_html(s.as_str());
        html.append(e.as_str());
        html.append("</p>");
    }
    proof {
        assert(paragraphs_html(seq![piece].drop_last()) =~= Seq::<char>::empty());
        assert(final(html)@ =~= old(html)@ + paragraphs_html(seq![piece]));
    }
}

proof fn lemma_paragraphs_concat(a: Seq<Seq<char>>, b: Seq<Seq<char>>)
    ensures
        paragraphs_html(a + b) == paragraphs_html(a) + paragraphs_html(b),
    decreases b.len(),
{
    if b.len() == 0 {
        assert(a + b =~= a);
        assert(paragraphs_html(a) + paragraphs_html(b) =~= paragraphs_html(a));
    } else {
        assert((a + b).drop_last() =~= a + b.drop_last());
        assert((a + b).last() == b.last());
        lemma_paragraphs_concat(a, b.drop_last());
        assert(paragraphs_html(a + b) =~= paragraphs_html(a) + paragraphs_html(b));
    }
}

/// Render a paragraph module: each piece of the text between blank lines,
/// trimmed, becomes an escaped `<p>` element; pieces holding only
/// whitespace are dropped.
pub fn render_paragraph_html(para: &ParagraphSpec) -> (r: String)
    ensures
        r@ == paragraph_module_html(para.text@),
{
    let chars = str_chars(para.text.as_str());
    let ghost v = chars@;
    let n = chars.len();
    let mut html = String::from_str("<div class=\"paragraph-module\">");
    let ghost head = html@;
    let mut start: usize = 0;
    let mut i: usize = 0;
    proof {
        assert(v.skip(0) =~= v);
    }
    while n > 0 && i < n - 1
        invariant
            n == v.len(),
            chars@ == v,
            start <= i <= n,
            head + paragraphs_html(split_paragraphs(v)) == html@ + paragraphs_html(split_paragraphs(v.skip(start as int))),
            forall|k: int| start <= k < i ==> !#[trigger] is_blank_at(v, k),
        decreases n - i,
    {
        if chars[i] == '\n' && chars[i + 1] == '\n' {
            let ghost rest = v.skip(start as int);
            proof {
                assert forall|k: int| 0 <= k < i - start implies !#[trigger] is_blank_at(rest, k) by {
                    assert(!is_blank_at(v, start + k));
                }
                assert(is_blank_at(rest, i - start));
                lemma_blank_line_pos(rest, i - start);
                assert(rest.take(i - start) =~= v.subrange(start as int, i as int));
                assert(rest.skip(i - start + 2) =~= v.skip(i + 2));
                assert(split_paragraphs(rest) =~= seq![v.subrange(start as int, i as int)] + split_paragraphs(v.skip(i + 2)));
                lemma_paragraphs_concat(seq![v.subrange(start as int, i as int)], split_paragraphs(v.skip(i + 2)));
            }
            push_paragraph(&mut html, &chars, start, i);
            start = i + 2;
            i = i + 2;
        } else {
            i = i + 1;
        }
    }
    proof {
        let rest = v.skip(start as int);
        assert forall|k: int| 0 <= k < rest.len() implies !#[trigger] is_blank_at(rest, k) by {
            if k + 1 < rest.len() {
                assert(!is_blank_at(v, start + k));
            }
        }
        lemma_blank_line_pos(rest, rest.len() as int);
        assert(split_paragraphs(rest) =~= seq![rest]);
        assert(rest =~= v.subrange(start as int, n as int));
    }
    push_paragraph(&mut html, &chars, start, n);
    html.append("</div>");
    proof {
        assert(html@ =~= paragraph_module_html(para.text@));
    }
    html
}


// ── Data tables ──────────────────────────────────────────────────────────────

/// The `<th>` cells of the column headings, each heading escaped.
pub open spec fn header_cells_html(labels: Seq<Seq<char>>) -> Seq<char>
    decreases labels.len(),
{
    if labels.len() == 0 {
        Seq::empty()
    } else {
        header_cells_html(labels.drop_last()) + "<th>"@ + html_escape(labels.last()) + "</th>"@
    }
}

/// The `<td>` cells of one row; cell texts are written as they are.
pub open spec fn row_cells_html(cells: Seq<Seq<char>>) -> Seq<char>
    decreases cells.len(),
{
    if cells.len() == 0 {
        Seq::empty()
    } else {
        row_cells_html(cells.drop_last()) + "<td>"@ + cells.last() + "</td>"@
    }
}

/// The `<tr>` rows of the table body.
pub open spec fn body_rows_html(rows: Seq<Seq<Seq<char>>>) -> Seq<char>
    decreases rows.len(),
{
    if rows.len() == 0 {
        Seq::empty()
    } else {
        body_rows_html(rows.drop_last()) + "<tr>"@ + row_cells_html(rows.last()) + "</tr>"@
    }
}

/// The cell texts of each row.
pub open spec fn rows_view(rows: Seq<Vec<String>>) -> Seq<Seq<Seq<char>>> {
    rows.map_values(|r: Vec<String>| strs(r@))
}

/// The HTML of a table module with the given column headings and rows.
pub open spec fn table_module_html(labels: Seq<Seq<char>>, rows: Seq<Seq<Seq<char>>>) -> Seq<char> {
    "<div class=\"table-module\"><div class=\"table-wrapper\"><table><thead><tr>"@
        + header_cells_html(labels) + "</tr></thead><tbody>"@ + body_rows_html(rows)
        + "</tbody></table></div></div>"@
}

fn push_cells(html: &mut String, cells: &Vec<String>)
    ensures
        final(html)@ == old(html)@ + row_cells_html(strs(cells@)),
{
    let n = cells.len();
    for j in 0..n
        invariant
            n == cells@.len(),
            html@ == old(html)@ + row_cells_html(strs(cells@.take(j as int))),
    {
        html.append("<td>");
        html.append(cells[j].as_str());
        html.append("</td>");
        proof {
            let t = strs(cells@.take(j + 1));
            assert(t.drop_last() =~= strs(cells@.take(j as int)));
            assert(t.last() == cells@[j as int]@);
        }
    }
    proof {
        assert(cells@.take(n as int) =~= cells@);
    }
}

/// Render a data table module: a heading row with the escaped column
/// headings, then one row per entry of `rows` with its cell texts, which
/// are already formatted for display.
pub fn render_table_html(labels: &Vec<String>, rows: &Vec<Vec<String>>) -> (r: String)
    ensures
        r@ == table_module_html(strs(labels@), rows_view(rows@)),
{
    let mut html = String::from_str("<div class=\"table-module\"><div class=\"table-wrapper\"><table><thead><tr>");
    let ghost head = html@;
    let n = labels.len();
    for j in 0..n
        invariant
            n == labels@.len(),
            html@ == head + header_cells_html(strs(labels@.take(j as int))),
    {
        html.append("<th>");
        let e = escape_html(labels[j].as_str());
        html.append(e.as_str());
        html.append("</th>");
        proof {
            let t = strs(labels@.take(j + 1));
            assert(t.drop_last() =~= strs(labels@.take(j as int)));
            assert(t.last() == labels@[j as int]@);
        }
    }
    proof {
        assert(labels@.take(n as int) =~= labels@);
    }
    html.append("</tr></thead><tbody>");
    let ghost mid = html@;
    let m = rows.len();
    for i in 0..m
        invariant
            m == rows@.len(),
            html@ == mid + body_rows_html(rows_view(rows@.take(i as int))),
    {
        html.append("<tr>");
        push_cells(&mut html, &rows[i]);
        html.append("</tr>");
        proof {
            let t = rows_view(rows@.take(i + 1));
            assert(t.drop_last() =~= rows_view(rows@.take(i as int)));
            assert(t.last() == strs(rows@[i as int]@));
        }
    }
    proof {
        assert(rows@.take(m as int) =~= rows@);
    }
    html.append("</tbody></table></div></div>");
    proof {
        assert(html@ =~= table_module_html(strs(labels@), rows_view(rows@)));
    }
    html
}

// ── Thousands separators ─────────────────────────────────────────────────────

/// The digits `d` with a comma before each group of three counted from
/// the right.
pub open spec fn group_digits(d: Seq<char>) -> Seq<char>
    decreases d.len(),
{
    if d.len() <= 3 {
        d
    } else {
        group_digits(d.take(d.len() - 3)) + seq![','] + d.skip(d.len() - 3)
    }
}

fn push_grouped(out: &mut String, d: &Vec<char>, len: usize)
    requires
        len <= d@.len(),
    ensures
        final(out)@ == old(out)@ + group_digits(d@.take(len as int)),
    decreases len,
{
    let ghost t = d@.take(len as int);
    let start: usize = if len <= 3 { 0 } else { len - 3 };
    if len > 3 {
        push_grouped(out, d, start);
        push_char(out, ',');
        proof {
            assert(t.take(t.len() - 3) =~= d@.take(start as int));
        }
    }
    let ghost before = out@;
    for k in start..len
        invariant
            start <= len <= d@.len(),
            out@ == before + d@.subrange(start as int, k as int),
    {
        push_char(out, d[k]);
        proof {
            assert(d@.subrange(start as int, k + 1) =~= d@.subrange(start as int, k as int).push(d@[k as int]));
        }
    }
    proof {
        assert(t.skip(start as int) =~= d@.subrange(start as int, len as int));
        if len <= 3 {
            assert(t =~= d@.subrange(0, len as int));
        }
    }
}

/// The decimal digits of `n` with commas between groups of three, e.g.
/// `1234567` as `1,234,567`.
pub fn group_thousands(n: u64) -> (r: String)
    ensures
        r@ == group_digits(decimal(n as nat)),
{
    let mut digits = String::new();
    push_decimal(&mut digits, n);
    let d = str_chars(digits.as_str());
    let mut out = String::new();
    push_grouped(&mut out, &d, d.len());
    proof {
        assert(d@.take(d@.len() as int) =~= d@);
        assert(digits@ =~= decimal(n as nat));
    }
    out
}

} // verus!
