//! Markdown preview: the markdown is parsed into styled lines by
//! `tui_markdown`, then tables and headings are given their own colours.

use vstd::prelude::*;
use vstd::string::*;
use crate::text::{owned, chars_of};
use ratatui_core::style::Modifier as M;

verus! {

/// The style of a span. Colours are held by the names under which the
/// terminal library prints and reads them, such as `LightGreen`, `#FF0000`
/// or `42`.
#[derive(Debug)]
pub struct SpanStyle {
    pub fg: Option<String>,
    pub bg: Option<String>,
    pub bold: bool,
    pub italic: bool,
    pub underlined: bool,
}

/// A piece of a line with one style.
#[derive(Debug)]
pub struct MarkdownSpan {
    pub content: String,
    pub style: SpanStyle,
}

/// A span as plain values.
pub struct SpanView {
    pub content: Seq<char>,
    pub fg: Option<Seq<char>>,
    pub bg: Option<Seq<char>>,
    pub bold: bool,
    pub italic: bool,
    pub underlined: bool,
}

/// An optional colour name as an optional character sequence.
pub open spec fn name_view(o: Option<String>) -> Option<Seq<char>> {
    match o {
        Some(s) => Some(s@),
        None => None,
    }
}

/// A span as plain values.
pub open spec fn span_view(s: MarkdownSpan) -> SpanView {
    SpanView {
        content: s.content@,
        fg: name_view(s.style.fg),
        bg: name_view(s.style.bg),
        bold: s.style.bold,
        italic: s.style.italic,
        underlined: s.style.underlined,
    }
}

/// A line as plain values.
pub open spec fn line_view(l: Seq<MarkdownSpan>) -> Seq<SpanView> {
    l.map_values(|s: MarkdownSpan| span_view(s))
}

/// Lines as plain values.
pub open spec fn lines_view(ls: Seq<Vec<MarkdownSpan>>) -> Seq<Seq<SpanView>> {
    ls.map_values(|l: Vec<MarkdownSpan>| line_view(l@))
}

/// What `tui_markdown::from_str` makes of a markdown text: its lines, each
/// a sequence of styled spans.
pub uninterp spec fn markdown_spans(markdown: Seq<char>) -> Seq<Seq<SpanView>>;

/// `tui_markdown::from_str`: parses markdown into styled lines. Each span is
/// taken as its text, its colours by the names they print as, and whether
/// it is bold, italic or underlined; the result is what `markdown_spans`
/// names for the input.
#[verifier::external_body]
fn parse_markdown(markdown: &str) -> (lines: Vec<Vec<MarkdownSpan>>)
    ensures
        lines_view(lines@) == markdown_spans(markdown@),
{
    tui_markdown::from_str(markdown).lines.iter().map(|l| l.spans.iter().map(|s| MarkdownSpan {
        content: s.content.to_string(),
        style: SpanStyle {
            fg: s.style.fg.map(|c| c.to_string()),
            bg: s.style.bg.map(|c| c.to_string()),
            bold: s.style.add_modifier.contains(M::BOLD),
            italic: s.style.add_modifier.contains(M::ITALIC),
            underlined: s.style.add_modifier.contains(M::UNDERLINED),
        },
    }).collect()).collect()
}

/// The text of a line: the texts of its spans, one after the other.
pub open spec fn line_text(l: Seq<SpanView>) -> Seq<char>
    decreases l.len(),
{
    if l.len() == 0 { Seq::empty() } else { line_text(l.drop_last()) + l.last().content }
}

/// A line of a table starts and ends with `|`.
pub open spec fn is_table_row(l: Seq<SpanView>) -> bool {
    let t = line_text(l);
    t.len() > 0 && t[0] == '|' && t.last() == '|'
}

/// The number of `#` that a text starts with.
pub open spec fn leading_hashes(t: Seq<char>) -> nat
    decreases t.len(),
{
    if t.len() == 0 || t[0] != '#' { 0 } else { 1 + leading_hashes(t.drop_first()) }
}

/// The level of a heading whose first span starts with one to six `#` and
/// a space; zero when the line is no heading.
pub open spec fn heading_level(l: Seq<SpanView>) -> nat {
    if l.len() == 0 {
        0
    } else {
        let t = l[0].content;
        let n = leading_hashes(t);
        if 1 <= n <= 6 && n < t.len() && t[n as int] == ' ' { n } else { 0 }
    }
}

/// The colour of a heading of each level.
pub open spec fn heading_color(level: nat) -> Seq<char> {
    if level == 1 { "Yellow"@ } else if level == 2 { "Green"@ } else if level == 3 { "LightBlue"@ }
    else if level == 4 { "LightMagenta"@ } else if level == 5 { "LightYellow"@ } else { "LightCyan"@ }
}

/// A span restyled: a table row is light green, a line after a table row
/// white; in a heading every span but the `#` marks takes the colour of
/// its level, bold for the first four levels.
pub open spec fn restyle_span(sp: SpanView, idx: int, table_row: bool, in_table: bool, level: nat) -> SpanView {
    let fg = if table_row { Some("LightGreen"@) } else if in_table { Some("White"@) } else { sp.fg };
    if level > 0 && idx > 0 {
        SpanView { fg: Some(heading_color(level)), bold: sp.bold || level <= 4, ..sp }
    } else {
        SpanView { fg, ..sp }
    }
}

/// A line restyled, given whether a table was running before it.
pub open spec fn restyle_line(l: Seq<SpanView>, in_table: bool) -> Seq<SpanView> {
    Seq::new(l.len(), |i: int| restyle_span(l[i], i, is_table_row(l), in_table, heading_level(l)))
}

/// Whether a table is running after a line: it is after a table row, and
/// goes on through lines that start with `|`.
pub open spec fn table_after(l: Seq<SpanView>, in_table: bool) -> bool {
    is_table_row(l) || (in_table && line_text(l).len() > 0 && line_text(l)[0] == '|')
}

/// Whether a table is running before line `i`.
pub open spec fn table_before(ls: Seq<Seq<SpanView>>, i: nat) -> bool
    decreases i,
{
    if i == 0 { false } else { table_after(ls[i - 1], table_before(ls, (i - 1) as nat)) }
}

/// The lines restyled.
pub open spec fn styled(ls: Seq<Seq<SpanView>>) -> Seq<Seq<SpanView>> {
    Seq::new(ls.len(), |i: int| restyle_line(ls[i], table_before(ls, i as nat)))
}

/// The text of a line.
fn text_of_line(l: &Vec<MarkdownSpan>) -> (t: String)
    ensures
        t@ == line_text(line_view(l@)),
{
    let mut t = String::new();
    let mut i: usize = 0;
    while i < l.len()
        invariant
            i <= l.len(),
            t@ == line_text(line_view(l@.take(i as int))),
        decreases l.len() - i,
    {
        t.append(l[i].content.as_str());
        i = i + 1;
        assert(line_view(l@.take(i as int)).drop_last() =~= line_view(l@.take(i - 1)));
    }
    assert(l@.take(l.len() as int) =~= l@);
    t
}

fn count_hashes(t: &Vec<char>) -> (n: usize)
    ensures
        n == leading_hashes(t@),
        n <= t@.len(),
{
    let mut n: usize = 0;
    assert(t@.skip(0) =~= t@);
    while n < t.len() && t[n] == '#'
        invariant
            n <= t.len(),
            leading_hashes(t@) == n + leading_hashes(t@.skip(n as int)),
        decreases t.len() - n,
    {
        assert(t@.skip(n as int).drop_first() =~= t@.skip(n + 1));
        n = n + 1;
    }
    n
}

fn level_of(l: &Vec<MarkdownSpan>) -> (n: usize)
    ensures
        n == heading_level(line_view(l@)),
{
    if l.len() == 0 {
        return 0;
    }
    let t = chars_of(l[0].content.as_str());
    assert(t@.skip(0) =~= t@);
    let n = count_hashes(&t);
    if 1 <= n && n <= 6 && n < t.len() && t[n] == ' ' { n } else { 0 }
}

fn heading_color_name(level: usize) -> (s: String)
    ensures
        s@ == heading_color(level as nat),
{
    if level == 1 { owned("Yellow") } else if level == 2 { owned("Green") } else if level == 3 { owned("LightBlue") }
    else if level == 4 { owned("LightMagenta") } else if level == 5 { owned("LightYellow") } else { owned("LightCyan") }
}

fn restyled(sp: MarkdownSpan, idx: usize, table_row: bool, in_table: bool, level: usize) -> (r: MarkdownSpan)
    ensures
        span_view(r) == restyle_span(span_view(sp), idx as int, table_row, in_table, level as nat),
{
    let MarkdownSpan { content, style } = sp;
    let SpanStyle { fg, bg, bold, italic, underlined } = style;
    let fg = if table_row { Some(owned("LightGreen")) } else if in_table { Some(owned("White")) } else { fg };
    if level > 0 && idx > 0 {
        MarkdownSpan { content, style: SpanStyle { fg: Some(heading_color_name(level)), bg, bold: bold || level <= 4, italic, underlined } }
    } else {
        MarkdownSpan { content, style: SpanStyle { fg, bg, bold, italic, underlined } }
    }
}

/// Whether a text is non-empty and starts with `|`; and whether it also ends with `|`.
fn bar_ends(t: &String) -> (r: (bool, bool))
    ensures
        r.0 == (t@.len() > 0 && t@[0] == '|'),
        r.1 == (t@.len() > 0 && t@[0] == '|' && t@.last() == '|'),
{
    let v = chars_of(t.as_str());
    if v.len() == 0 {
        return (false, false);
    }
    let starts = v[0] == '|';
    (starts, starts && v[v.len() - 1] == '|')
}

/// The spans of one line restyled, given whether it is a table row, whether
/// a table was running before it, and its heading level.
fn restyle_spans(line: Vec<MarkdownSpan>, table_row: bool, in_table: bool, level: usize) -> (r: Vec<MarkdownSpan>)
    requires
        table_row == is_table_row(line_view(line@)),
        level == heading_level(line_view(line@)),
    ensures
        line_view(r@) == restyle_line(line_view(line@), in_table),
{
    let ghost spans = line@;
    let mut r: Vec<MarkdownSpan> = Vec::new();
    for sp in it: line.into_iter()
        invariant
            it.seq() == spans,
            r.len() == it.index(),
            table_row == is_table_row(line_view(spans)),
            level == heading_level(line_view(spans)),
            forall|j: int| 0 <= j < r.len() ==> span_view(#[trigger] r@[j])
                == restyle_span(span_view(spans[j]), j, table_row, in_table, level as nat),
    {
        let idx = r.len();
        r.push(restyled(sp, idx, table_row, in_table, level));
    }
    assert(line_view(r@) =~= restyle_line(line_view(spans), in_table));
    r
}

/// Gives tables and headings their colours: a line that starts and ends
/// with `|` is a table row, and the table runs on through the lines that
/// start with `|`; a heading's text takes the colour of its level.
pub fn style_lines(parsed: Vec<Vec<MarkdownSpan>>) -> (out: Vec<Vec<MarkdownSpan>>)
    ensures
        lines_view(out@) == styled(lines_view(parsed@)),
{
    let ghost input = lines_view(parsed@);
    let ghost lines = parsed@;
    let mut out: Vec<Vec<MarkdownSpan>> = Vec::new();
    let mut in_table = false;
    for line in it: parsed.into_iter()
        invariant
            it.seq() == lines,
            input == lines_view(lines),
            out.len() == it.index(),
            in_table == table_before(input, it.index() as nat),
            forall|j: int| 0 <= j < out.len() ==> line_view(#[trigger] out@[j]@)
                == restyle_line(input[j], table_before(input, j as nat)),
    {
        let ghost i = it.index();
        assert(line_view(line@) == input[i as int]);
        let t = text_of_line(&line);
        let (starts, row) = bar_ends(&t);
        let level = level_of(&line);
        let new_line = restyle_spans(line, row, in_table, level);
        out.push(new_line);
        in_table = row || (in_table && starts);
        assert(in_table == table_before(input, (i + 1) as nat));
    }
    assert(lines_view(out@) =~= styled(input));
    out
}

/// Renders markdown for the preview.
pub struct MarkdownRenderer;

impl MarkdownRenderer {
    /// The lines of the markdown as `tui_markdown` parses them, with tables
    /// and headings given their colours.
    pub fn render(markdown: &str) -> (lines: Vec<Vec<MarkdownSpan>>)
        ensures
            lines_view(lines@) == styled(markdown_spans(markdown@)),
    {
        style_lines(parse_markdown(markdown))
    }
}

proof fn lemma_line_text_first(l: Seq<SpanView>)
    requires
        l.len() > 0,
    ensures
        line_text(l) == l[0].content + line_text(l.drop_first()),
    decreases l.len(),
{
    if l.len() == 1 {
        assert(l.drop_last() =~= Seq::<SpanView>::empty());
        assert(l.drop_first() =~= Seq::<SpanView>::empty());
    } else {
        lemma_line_text_first(l.drop_last());
        assert(l.drop_last().drop_first() =~= l.drop_first().drop_last());
        assert(l.drop_first().last() == l.last());
    }
}

/// Styling changes colours only: there are as many lines as before, each
/// with as many spans, and every span keeps its text, its background and
/// whether it is italic or underlined.
pub proof fn lemma_styling_keeps_text(ls: Seq<Seq<SpanView>>)
    ensures
        styled(ls).len() == ls.len(),
        forall|i: int| 0 <= i < ls.len() ==> (#[trigger] styled(ls)[i]).len() == ls[i].len(),
        forall|i: int, j: int| 0 <= i < ls.len() && 0 <= j < ls[i].len() ==> {
            let a = #[trigger] styled(ls)[i][j];
            let b = ls[i][j];
            a.content == b.content && a.bg == b.bg && a.italic == b.italic
                && a.underlined == b.underlined
        },
{
}

/// A line that starts and ends with `|` is a table row: all its spans are
/// light green, whatever came before it.
pub proof fn lemma_table_rows_are_green(ls: Seq<Seq<SpanView>>, i: int)
    requires
        0 <= i < ls.len(),
        is_table_row(ls[i]),
    ensures
        forall|j: int| 0 <= j < ls[i].len() ==> (#[trigger] styled(ls)[i][j]).fg == Some("LightGreen"@),
{
    let l = ls[i];
    if l.len() > 0 && heading_level(l) > 0 {
        lemma_line_text_first(l);
        assert(line_text(l)[0] == l[0].content[0]);
    }
}

/// In a heading every span after the `#` marks takes the colour of the
/// heading's level, and is bold for the first four levels.
pub proof fn lemma_heading_colours(ls: Seq<Seq<SpanView>>, i: int, j: int)
    requires
        0 <= i < ls.len(),
        0 < j < ls[i].len(),
        heading_level(ls[i]) > 0,
    ensures
        styled(ls)[i][j].fg == Some(heading_color(heading_level(ls[i]))),
        heading_level(ls[i]) <= 4 ==> styled(ls)[i][j].bold,
        heading_level(ls[i]) > 4 ==> styled(ls)[i][j].bold == ls[i][j].bold,
{
}

} // verus!
