//! Styling kept as data: a piece of text carries its display attributes, and
//! only at the moment of writing is the terminal's styling facility applied.

use std::io::Write;
use vstd::prelude::*;

verus! {

/// Declares `console::StyledObject`, text wrapped for terminal styling. The
/// value stays opaque to the verifier.
#[verifier::external_type_specification]
#[verifier::external_body]
#[verifier::reject_recursive_types(D)]
pub struct ExStyledObject<D>(console::StyledObject<D>);

/// A foreground colour a label or line part can carry.
#[derive(Clone, Copy, Debug, PartialEq, Eq, Structural)]
pub enum Color {
    Blue,
    Green,
    Yellow,
    Red,
    Cyan,
}

/// One run of text with its display attributes.
#[derive(Clone, Debug, PartialEq)]
pub struct Span {
    pub text: String,
    pub bold: bool,
    pub italic: bool,
    pub underlined: bool,
    pub color: Option<Color>,
}

/// The mathematical model of a [`Span`].
#[verifier::ext_equal]
pub ghost struct SpanV {
    pub text: Seq<char>,
    pub bold: bool,
    pub italic: bool,
    pub underlined: bool,
    pub color: Option<Color>,
}

impl View for Span {
    type V = SpanV;

    open spec fn view(&self) -> SpanV {
        SpanV {
            text: self.text@,
            bold: self.bold,
            italic: self.italic,
            underlined: self.underlined,
            color: self.color,
        }
    }
}

impl DeepView for Span {
    type V = SpanV;

    open spec fn deep_view(&self) -> SpanV {
        self.view()
    }
}

/// A span with no attributes at all.
pub open spec fn plain(text: Seq<char>) -> SpanV {
    SpanV { text, bold: false, italic: false, underlined: false, color: None }
}

/// A span carrying the given attributes.
pub open spec fn styled(
    text: Seq<char>,
    bold: bool,
    italic: bool,
    underlined: bool,
    color: Option<Color>,
) -> SpanV {
    SpanV { text, bold, italic, underlined, color }
}

/// Whether a span carries no attribute, so that it renders as its bare text.
pub open spec fn unstyled(s: SpanV) -> bool {
    !s.bold && !s.italic && !s.underlined && s.color is None
}

/// A plain span, ready to render.
pub fn span_plain(text: String) -> (r: Span)
    ensures
        r@ == plain(text@),
{
    Span { text, bold: false, italic: false, underlined: false, color: None }
}

/// The text a styled value carries, and whether it is bold, italic and
/// underlined. A pure function of the value: the text is stored beside the
/// style and no attribute setter touches it.
pub uninterp spec fn styled_view(o: console::StyledObject<String>) -> (Seq<char>, bool, bool, bool);

/// Relies on `console::style`: wraps a string for terminal styling, with no
/// attribute set yet.
#[verifier::external_body]
pub(crate) fn sty_new(text: &str) -> (r: console::StyledObject<String>)
    ensures
        styled_view(r) == (text@, false, false, false),
{
    console::style(text.to_owned())
}

/// Relies on `console::StyledObject::bold`: adds the bold attribute and
/// changes nothing else.
#[verifier::external_body]
pub(crate) fn sty_bold(o: console::StyledObject<String>) -> (r: console::StyledObject<String>)
    ensures
        styled_view(r) == (styled_view(o).0, true, styled_view(o).2, styled_view(o).3),
{
    o.bold()
}

/// Relies on `console::StyledObject::italic`: adds the italic attribute and
/// changes nothing else.
#[verifier::external_body]
pub(crate) fn sty_italic(o: console::StyledObject<String>) -> (r: console::StyledObject<String>)
    ensures
        styled_view(r) == (styled_view(o).0, styled_view(o).1, true, styled_view(o).3),
{
    o.italic()
}

/// Relies on `console::StyledObject::underlined`: adds the underline
/// attribute and changes nothing else.
#[verifier::external_body]
pub(crate) fn sty_underlined(o: console::StyledObject<String>) -> (r: console::StyledObject<String>)
    ensures
        styled_view(r) == (styled_view(o).0, styled_view(o).1, styled_view(o).2, true),
{
    o.underlined()
}

/// Relies on `console::StyledObject::blue`: sets a blue foreground; the
/// text and the modelled attributes are untouched.
#[verifier::external_body]
pub(crate) fn sty_blue(o: console::StyledObject<String>) -> (r: console::StyledObject<String>)
    ensures
        styled_view(r) == styled_view(o),
{
    o.blue()
}

/// Relies on `console::StyledObject::green`: sets a green foreground; the
/// text and the modelled attributes are untouched.
#[verifier::external_body]
pub(crate) fn sty_green(o: console::StyledObject<String>) -> (r: console::StyledObject<String>)
    ensures
        styled_view(r) == styled_view(o),
{
    o.green()
}

/// Relies on `console::StyledObject::yellow`: sets a yellow foreground; the
/// text and the modelled attributes are untouched.
#[verifier::external_body]
pub(crate) fn sty_yellow(o: console::StyledObject<String>) -> (r: console::StyledObject<String>)
    ensures
        styled_view(r) == styled_view(o),
{
    o.yellow()
}

/// Relies on `console::StyledObject::red`: sets a red foreground; the
/// text and the modelled attributes are untouched.
#[verifier::external_body]
pub(crate) fn sty_red(o: console::StyledObject<String>) -> (r: console::StyledObject<String>)
    ensures
        styled_view(r) == styled_view(o),
{
    o.red()
}

/// Relies on `console::StyledObject::cyan`: sets a cyan foreground; the
/// text and the modelled attributes are untouched.
#[verifier::external_body]
pub(crate) fn sty_cyan(o: console::StyledObject<String>) -> (r: console::StyledObject<String>)
    ensures
        styled_view(r) == styled_view(o),
{
    o.cyan()
}

/// Relies on the `Display` of `console::StyledObject`: the text with
/// whatever escape codes the environment calls for. When styling is off it
/// is the bare text, but that depends on the environment, so nothing is
/// claimed.
#[verifier::external_body]
pub(crate) fn sty_render(o: &console::StyledObject<String>) -> String {
    o.to_string()
}

/// Render one span: a span with no attributes is its bare text; any other
/// goes through the terminal styling facility.
pub fn render_span(s: &Span) -> (r: String)
    ensures
        unstyled(s@) ==> r@ == s@.text,
{
    if !s.bold && !s.italic && !s.underlined && s.color.is_none() {
        return s.text.clone();
    }
    let mut o = sty_new(s.text.as_str());
    if s.bold {
        o = sty_bold(o);
    }
    if s.italic {
        o = sty_italic(o);
    }
    if s.underlined {
        o = sty_underlined(o);
    }
    match s.color {
        Some(Color::Blue) => o = sty_blue(o),
        Some(Color::Green) => o = sty_green(o),
        Some(Color::Yellow) => o = sty_yellow(o),
        Some(Color::Red) => o = sty_red(o),
        Some(Color::Cyan) => o = sty_cyan(o),
        None => (),
    }
    sty_render(&o)
}

/// The bare texts of a line of spans, joined.
pub open spec fn line_text(spans: Seq<SpanV>) -> Seq<char>
    decreases spans.len(),
{
    if spans.len() == 0 {
        Seq::empty()
    } else {
        line_text(spans.drop_last()) + spans.last().text
    }
}

/// Render a line of spans into one string. When no span carries an
/// attribute, the result is exactly the joined texts.
pub fn render_line(spans: &Vec<Span>) -> (r: String)
    ensures
        (forall|k: int| 0 <= k < spans@.len() ==> unstyled(spans@[k]@)) ==> r@ == line_text(
            spans.deep_view(),
        ),
{
    let mut out = String::new();
    let mut i: usize = 0;
    while i < spans.len()
        invariant
            0 <= i <= spans@.len(),
            (forall|k: int| 0 <= k < spans@.len() ==> unstyled(spans@[k]@)) ==> out@ == line_text(
                spans.deep_view().subrange(0, i as int),
            ),
        decreases spans@.len() - i,
    {
        let piece = render_span(&spans[i]);
        out.append(piece.as_str());
        proof {
            assert(spans.deep_view().subrange(0, i + 1).drop_last() =~= spans.deep_view().subrange(
                0,
                i as int,
            ));
        }
        i = i + 1;
    }
    proof {
        assert(spans.deep_view().subrange(0, spans@.len() as int) =~= spans.deep_view());
    }
    out
}

/// Relies on `std::io::Stderr`: writes one line to the diagnostic stream,
/// best-effort; a failure to write diagnostics is not surfaced.
#[verifier::external_body]
pub(crate) fn emit_err_line(s: &str) {
    let _ = writeln!(std::io::stderr(), "{}", s);
}

/// Relies on `std::io::Stderr`: writes text without a line break to the
/// diagnostic stream, best-effort.
#[verifier::external_body]
pub(crate) fn emit_err_part(s: &str) {
    let _ = write!(std::io::stderr(), "{}", s);
}

/// Relies on `std::io::Stdout`: writes one line to standard output,
/// best-effort.
#[verifier::external_body]
pub(crate) fn emit_out_line(s: &str) {
    let _ = writeln!(std::io::stdout(), "{}", s);
}

} // verus!
