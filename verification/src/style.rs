use vstd::prelude::*;
use vstd::string::*;

verus! {

/// The colours that the packet table uses.
#[derive(Clone, Copy, Debug, PartialEq, Eq, Structural)]
pub enum Color {
    Black,
    Red,
    Green,
    Yellow,
    Blue,
    Cyan,
    White,
    DarkGray,
    Rgb(u8, u8, u8),
}

/// A piece of text with the colours in which it is shown.
#[derive(Clone, Debug, PartialEq, Eq)]
pub struct StyledSpan {
    pub content: String,
    pub fg: Option<Color>,
    pub bg: Option<Color>,
    pub bold: bool,
}

/// A styled piece of text, with its text as a sequence of characters.
pub struct SpanView {
    pub content: Seq<char>,
    pub fg: Option<Color>,
    pub bg: Option<Color>,
    pub bold: bool,
}

impl View for StyledSpan {
    type V = SpanView;

    open spec fn view(&self) -> SpanView {
        SpanView { content: self.content@, fg: self.fg, bg: self.bg, bold: self.bold }
    }
}

/// Text without a style of its own.
pub open spec fn plain(content: Seq<char>) -> SpanView {
    SpanView { content, fg: None, bg: None, bold: false }
}

/// Text in one colour.
pub open spec fn colored(content: Seq<char>, fg: Color) -> SpanView {
    SpanView { content, fg: Some(fg), bg: None, bold: false }
}

/// Text in one colour on another.
pub open spec fn colored_on(content: Seq<char>, fg: Color, bg: Color) -> SpanView {
    SpanView { content, fg: Some(fg), bg: Some(bg), bold: false }
}

/// Bold text in one colour.
pub open spec fn bold_colored(content: Seq<char>, fg: Color) -> SpanView {
    SpanView { content, fg: Some(fg), bg: None, bold: true }
}

/// What the spans of a row say, one by one.
pub open spec fn spans_view(spans: Seq<StyledSpan>) -> Seq<SpanView> {
    Seq::new(spans.len(), |i: int| spans[i]@)
}

/// Appending a span to a row appends what it says.
pub proof fn lemma_spans_view_push(spans: Seq<StyledSpan>, span: StyledSpan)
    ensures
        spans_view(spans.push(span)) == spans_view(spans).push(span@),
{
    assert(spans_view(spans.push(span)) =~= spans_view(spans).push(span@));
}

/// Appends text in one colour to a row.
pub fn push_colored(row: &mut Vec<StyledSpan>, content: String, fg: Color)
    ensures
        spans_view(final(row)@) == spans_view(old(row)@).push(colored(content@, fg)),
{
    let span = StyledSpan { content, fg: Some(fg), bg: None, bold: false };
    proof {
        lemma_spans_view_push(row@, span);
    }
    row.push(span);
}

/// Appends text in one colour on another to a row.
pub fn push_colored_on(row: &mut Vec<StyledSpan>, content: String, fg: Color, bg: Color)
    ensures
        spans_view(final(row)@) == spans_view(old(row)@).push(colored_on(content@, fg, bg)),
{
    let span = StyledSpan { content, fg: Some(fg), bg: Some(bg), bold: false };
    proof {
        lemma_spans_view_push(row@, span);
    }
    row.push(span);
}

/// Appends bold text in one colour to a row.
pub fn push_bold(row: &mut Vec<StyledSpan>, content: String, fg: Color)
    ensures
        spans_view(final(row)@) == spans_view(old(row)@).push(bold_colored(content@, fg)),
{
    let span = StyledSpan { content, fg: Some(fg), bg: None, bold: true };
    proof {
        lemma_spans_view_push(row@, span);
    }
    row.push(span);
}

/// Appends a fixed text in one colour to a row.
pub fn push_label(row: &mut Vec<StyledSpan>, content: &str, fg: Color)
    ensures
        spans_view(final(row)@) == spans_view(old(row)@).push(colored(content@, fg)),
{
    push_colored(row, String::from_str(content), fg);
}

/// Appends a fixed text without a style of its own to a row.
pub fn push_plain(row: &mut Vec<StyledSpan>, content: &str)
    ensures
        spans_view(final(row)@) == spans_view(old(row)@).push(plain(content@)),
{
    let span = StyledSpan { content: String::from_str(content), fg: None, bg: None, bold: false };
    proof {
        lemma_spans_view_push(row@, span);
    }
    row.push(span);
}

/// A row without spans.
pub fn empty_row() -> (row: Vec<StyledSpan>)
    ensures
        spans_view(row@) == Seq::<SpanView>::empty(),
{
    let row: Vec<StyledSpan> = Vec::new();
    assert(spans_view(row@) =~= Seq::<SpanView>::empty());
    row
}

} // verus!
