//! Styled text: what is shown on the screen, cell by cell.

use vstd::prelude::*;

verus! {

/// The colours in use.
#[derive(Clone, Copy, Debug, PartialEq, Eq, Structural)]
pub enum Color {
    Black,
    Red,
    Green,
    Yellow,
    Blue,
    Cyan,
    White,
    LightRed,
    DarkGray,
}

/// The colour of what stands out.
pub const ACCENT: Color = Color::Cyan;

/// How a piece of text is drawn. What is `None` is left as the terminal has it.
#[derive(Clone, Copy, Debug, PartialEq, Eq, Structural)]
pub struct Style {
    pub fg: Option<Color>,
    pub bg: Option<Color>,
    pub bold: bool,
    pub dim: bool,
    pub underlined: bool,
    pub reversed: bool,
}

/// The style that changes nothing.
pub open spec fn plain() -> Style {
    Style {
        fg: None,
        bg: None,
        bold: false,
        dim: false,
        underlined: false,
        reversed: false,
    }
}

/// Text in the colour `c`.
pub open spec fn colored(c: Color) -> Style {
    Style { fg: Some(c), ..plain() }
}

/// Text that stands back.
pub open spec fn dimmed() -> Style {
    Style { dim: true, ..plain() }
}

/// Text that stands out.
pub open spec fn accented() -> Style {
    Style { bold: true, ..colored(ACCENT) }
}

/// A field that has the focus.
pub open spec fn focused_field() -> Style {
    Style { bg: Some(ACCENT), ..colored(Color::Black) }
}

/// The same style with foreground and background exchanged.
pub open spec fn inverted(s: Style) -> Style {
    Style { reversed: true, ..s }
}

/// The border of a part of the screen, which has the focus or not.
pub open spec fn border_of(focused: bool) -> Style {
    if focused {
        colored(ACCENT)
    } else {
        dimmed()
    }
}

impl Style {
    /// The style that changes nothing.
    pub fn new() -> (r: Style)
        ensures
            r == plain(),
    {
        Style {
            fg: None,
            bg: None,
            bold: false,
            dim: false,
            underlined: false,
            reversed: false,
        }
    }

    /// Text in the colour `c`.
    pub fn color(c: Color) -> (r: Style)
        ensures
            r == colored(c),
    {
        Style { fg: Some(c), ..Style::new() }
    }

    /// Text that stands back.
    pub fn faint() -> (r: Style)
        ensures
            r == dimmed(),
    {
        Style { dim: true, ..Style::new() }
    }

    /// Text that stands out.
    pub fn accent() -> (r: Style)
        ensures
            r == accented(),
    {
        Style { bold: true, ..Style::color(ACCENT) }
    }

    /// A field that has the focus.
    pub fn field() -> (r: Style)
        ensures
            r == focused_field(),
    {
        Style { bg: Some(ACCENT), ..Style::color(Color::Black) }
    }

    /// The same style with foreground and background exchanged.
    pub fn inverse(self) -> (r: Style)
        ensures
            r == inverted(self),
    {
        Style { reversed: true, ..self }
    }
}

/// The border of a part of the screen, which has the focus or not.
pub fn border_style(focused: bool) -> (r: Style)
    ensures
        r == border_of(focused),
{
    if focused {
        Style::color(ACCENT)
    } else {
        Style::faint()
    }
}

// --- spans and lines ---------------------------------------------------------------------

/// A piece of text in one style.
#[derive(Debug)]
pub struct Span {
    pub text: String,
    pub style: Style,
}

/// The model of a [`Span`].
#[verifier::ext_equal]
pub struct SpanView {
    pub text: Seq<char>,
    pub style: Style,
}

impl View for Span {
    type V = SpanView;

    open spec fn view(&self) -> SpanView {
        SpanView { text: self.text@, style: self.style }
    }
}

/// A piece of text in a given style.
pub open spec fn styled(text: Seq<char>, style: Style) -> SpanView {
    SpanView { text, style }
}

/// A piece of text as the terminal has it.
pub open spec fn raw(text: Seq<char>) -> SpanView {
    SpanView { text, style: plain() }
}

/// The models of spans.
pub open spec fn span_views(v: Seq<Span>) -> Seq<SpanView> {
    v.map_values(|s: Span| s@)
}

/// The text of all spans, one behind the other.
pub open spec fn text_of(spans: Seq<SpanView>) -> Seq<char>
    decreases spans.len(),
{
    if spans.len() == 0 {
        Seq::empty()
    } else {
        text_of(spans.drop_last()) + spans.last().text
    }
}

impl Span {
    /// A piece of text in a given style.
    pub fn styled(text: String, style: Style) -> (r: Span)
        ensures
            r@ == styled(text@, style),
    {
        Span { text, style }
    }

    /// A piece of text as the terminal has it.
    pub fn raw(text: String) -> (r: Span)
        ensures
            r@ == raw(text@),
    {
        Span { text, style: Style::new() }
    }
}

/// A line of spans.
#[derive(Debug)]
pub struct Line {
    pub spans: Vec<Span>,
}

impl View for Line {
    type V = Seq<SpanView>;

    open spec fn view(&self) -> Seq<SpanView> {
        span_views(self.spans@)
    }
}

/// The models of lines.
pub open spec fn line_views(v: Seq<Line>) -> Seq<Seq<SpanView>> {
    v.map_values(|l: Line| l@)
}

impl Line {
    /// The line without text.
    pub fn empty() -> (r: Line)
        ensures
            r@ == Seq::<SpanView>::empty(),
    {
        let r = Line { spans: Vec::new() };
        assert(r@ =~= Seq::<SpanView>::empty());
        r
    }

    /// The line of one span.
    pub fn of(span: Span) -> (r: Line)
        ensures
            r@ == seq![span@],
    {
        let mut r = Line::empty();
        r.push(span);
        r
    }

    /// Adds a span at the end.
    pub fn push(&mut self, span: Span)
        ensures
            final(self)@ == old(self)@.push(span@),
    {
        self.spans.push(span);
        assert(self@ =~= old(self)@.push(span@));
    }
}

/// Adds a line at the end.
pub fn push_line(lines: &mut Vec<Line>, line: Line)
    ensures
        line_views(final(lines)@) == line_views(old(lines)@).push(line@),
{
    lines.push(line);
    assert(line_views(lines@) =~= line_views(old(lines)@).push(line@));
}

// --- width -------------------------------------------------------------------------------

/// How many cells of the terminal a text takes.
pub uninterp spec fn cell_width(text: Seq<char>) -> nat;

/// `ratatui::text::Span::width` of a span that holds `text`: how many cells of the
/// terminal the text takes, by the Unicode tables of character widths, which is
/// named by [`cell_width`].
#[verifier::external_body]
pub(crate) fn width_of(text: &str) -> (r: usize)
    ensures
        r == cell_width(text@),
{
    ratatui::text::Span::raw(text).width()
}

/// The widths of the spans, added up.
pub open spec fn line_width(spans: Seq<SpanView>) -> nat
    decreases spans.len(),
{
    if spans.len() == 0 {
        0
    } else {
        line_width(spans.drop_last()) + cell_width(spans.last().text)
    }
}

impl Line {
    /// How many cells the line takes.
    pub fn width(&self) -> (r: u128)
        ensures
            r == line_width(self@),
    {
        let mut r: u128 = 0;
        let mut i: usize = 0;
        while i < self.spans.len()
            invariant
                i <= self.spans@.len(),
                r == line_width(self@.take(i as int)),
                r <= i * usize::MAX,
            decreases self.spans@.len() - i,
        {
            let w: usize = width_of(self.spans[i].text.as_str());
            proof {
                let next = self@.take(i + 1);
                assert(next.drop_last() =~= self@.take(i as int));
                assert(next.last() == self.spans@[i as int]@);
                assert((i + 1) * usize::MAX == i * usize::MAX + usize::MAX) by (nonlinear_arith);
                assert((i + 1) * usize::MAX <= u128::MAX) by (nonlinear_arith)
                    requires
                        i < usize::MAX,
                ;
            }
            r = r + w as u128;
            i = i + 1;
        }
        assert(self@.take(self.spans@.len() as int) =~= self@);
        r
    }
}

} // verus!
