//! One configured interactive question: a header, then a read-validate
//! retry loop that, in practice, only valid input or a stream failure ends.
//! Formally each loop carries a 64-bit attempt counter; a session that
//! exhausts it has its read abandoned with an interrupted-stream error.

use crate::error::Error;
use crate::style::{
    emit_err_line, emit_err_part, plain, render_line, render_span, span_plain, styled, Color, Span,
    SpanV,
};
use crate::text::{bool_of, classify_bool, resolve_input, resolve_seq, Answer};
use vstd::prelude::*;
use vstd::string::StringExecFns;

verus! {

/// Why a prompt could not be built.
#[derive(Clone, Copy, Debug, PartialEq, Eq, Structural)]
pub enum BuildError {
    MissingMessage,
    EmptyMessage,
}

/// Configuration for one interactive question. Immutable once built; used
/// for one exchange on one terminal at a time.
#[derive(Clone, Debug)]
pub struct Prompt {
    /// The question text; always present and non-empty at construction.
    pub message: String,
    /// Short tag shown in brackets before the message.
    pub context: Option<String>,
    /// Explanatory text shown under the message.
    pub docs: Option<String>,
    /// A reference link shown under the docs text.
    pub docs_url: Option<String>,
    /// The value substituted when the user submits empty input.
    pub default_value: Option<String>,
    /// Indentation levels applied to every printed line.
    pub indent: usize,
    /// Whether the plain-string prompt accepts an empty answer.
    pub allow_empty: bool,
}

/// Builder for a [`Prompt`]: every field optional until `build`, which
/// demands a non-empty message.
#[derive(Clone, Debug)]
pub struct PromptBuilder {
    pub message: Option<String>,
    pub context: Option<String>,
    pub docs: Option<String>,
    pub docs_url: Option<String>,
    pub default_value: Option<String>,
    pub indent: Option<usize>,
    pub allow_empty: Option<bool>,
}

impl PromptBuilder {
    /// A builder with nothing set.
    pub fn new() -> (r: PromptBuilder)
        ensures
            r.message is None,
            r.context is None,
            r.docs is None,
            r.docs_url is None,
            r.default_value is None,
            r.indent is None,
            r.allow_empty is None,
    {
        PromptBuilder {
            message: None,
            context: None,
            docs: None,
            docs_url: None,
            default_value: None,
            indent: None,
            allow_empty: None,
        }
    }

    /// Set the question text.
    pub fn message(self, value: String) -> (r: Self)
        ensures
            r == (Self { message: Some(value), ..self }),
    {
        Self { message: Some(value), ..self }
    }

    /// Set the context tag.
    pub fn context(self, value: String) -> (r: Self)
        ensures
            r == (Self { context: Some(value), ..self }),
    {
        Self { context: Some(value), ..self }
    }

    /// Set the docs text.
    pub fn docs(self, value: String) -> (r: Self)
        ensures
            r == (Self { docs: Some(value), ..self }),
    {
        Self { docs: Some(value), ..self }
    }

    /// Set the docs link.
    pub fn docs_url(self, value: String) -> (r: Self)
        ensures
            r == (Self { docs_url: Some(value), ..self }),
    {
        Self { docs_url: Some(value), ..self }
    }

    /// Set the default value substituted for empty input.
    pub fn default_value(self, value: String) -> (r: Self)
        ensures
            r == (Self { default_value: Some(value), ..self }),
    {
        Self { default_value: Some(value), ..self }
    }

    /// Set the indentation level.
    pub fn indent(self, value: usize) -> (r: Self)
        ensures
            r == (Self { indent: Some(value), ..self }),
    {
        Self { indent: Some(value), ..self }
    }

    /// Set whether the plain-string prompt accepts an empty answer.
    pub fn allow_empty(self, value: bool) -> (r: Self)
        ensures
            r == (Self { allow_empty: Some(value), ..self }),
    {
        Self { allow_empty: Some(value), ..self }
    }

    /// Build the prompt. Succeeds exactly when a non-empty message was set;
    /// unset optional fields take their defaults.
    pub fn build(self) -> (r: Result<Prompt, BuildError>)
        ensures
            r is Ok <==> (self.message is Some && self.message->0@.len() > 0),
            r matches Ok(p) ==> {
                &&& p.message == self.message->0
                &&& p.context == self.context
                &&& p.docs == self.docs
                &&& p.docs_url == self.docs_url
                &&& p.default_value == self.default_value
                &&& p.indent == (if self.indent is Some {
                    self.indent->0
                } else {
                    0
                })
                &&& p.allow_empty == (if self.allow_empty is Some {
                    self.allow_empty->0
                } else {
                    false
                })
                &&& p.wf()
            },
            r matches Err(e) ==> {
                &&& (e is MissingMessage <==> self.message is None)
                &&& (e is EmptyMessage <==> (self.message is Some && self.message->0@.len() == 0))
            },
    {
        match self.message {
            None => Err(BuildError::MissingMessage),
            Some(m) => {
                if m.as_str().is_empty() {
                    Err(BuildError::EmptyMessage)
                } else {
                    Ok(
                        Prompt {
                            message: m,
                            context: self.context,
                            docs: self.docs,
                            docs_url: self.docs_url,
                            default_value: self.default_value,
                            indent: match self.indent {
                                Some(i) => i,
                                None => 0,
                            },
                            allow_empty: match self.allow_empty {
                                Some(b) => b,
                                None => false,
                            },
                        },
                    )
                }
            },
        }
    }
}

impl Default for PromptBuilder {
    /// A builder with nothing set.
    fn default() -> (r: PromptBuilder)
        ensures
            r.message is None,
            r.context is None,
            r.docs is None,
            r.docs_url is None,
            r.default_value is None,
            r.indent is None,
            r.allow_empty is None,
    {
        PromptBuilder::new()
    }
}

/// The indentation prefix for a level: that many copies of four spaces.
pub open spec fn indent_spaces(n: nat) -> Seq<char>
    decreases n,
{
    if n == 0 {
        Seq::empty()
    } else {
        indent_spaces((n - 1) as nat) + "    "@
    }
}

/// The lines the header prints, as styled spans: a blank separator; the
/// indented, optionally tagged, bold blue message; then, each if set, the
/// docs text in italic, the docs link in italic underlined cyan, and the
/// default-value hint.
pub open spec fn header_spec(p: Prompt) -> Seq<Seq<SpanV>> {
    let ind = indent_spaces(p.indent as nat);
    let first = if p.context is Some {
        seq![
            plain(ind),
            styled("["@ + p.context->0@ + "]"@, true, false, false, None),
            plain(" "@),
            styled(p.message@, true, false, false, Some(Color::Blue)),
        ]
    } else {
        seq![plain(ind), styled(p.message@, true, false, false, Some(Color::Blue))]
    };
    let base = seq![Seq::<SpanV>::empty(), first];
    let with_docs = if p.docs is Some {
        base.push(seq![plain(ind + "  "@), styled(p.docs->0@, false, true, false, None)])
    } else {
        base
    };
    let with_url = if p.docs_url is Some {
        with_docs.push(
            seq![
                plain(ind + "  "@),
                styled(p.docs_url->0@, false, true, true, Some(Color::Cyan)),
            ],
        )
    } else {
        with_docs
    };
    if p.default_value is Some {
        with_url.push(
            seq![
                plain(ind + "  "@),
                styled("Defaults to"@, false, true, false, None),
                plain(" "@),
                styled(p.default_value->0@, true, true, false, None),
            ],
        )
    } else {
        with_url
    }
}

impl Prompt {
    /// A prompt is well-formed when its message is non-empty.
    pub open spec fn wf(self) -> bool {
        self.message@.len() > 0
    }

    /// Whether the plain-string prompt accepts a resolved answer.
    pub open spec fn accepts_plain(self, s: Seq<char>) -> bool {
        self.allow_empty || s.len() > 0
    }

    /// Whether the secure prompt accepts a resolved answer: non-empty, with
    /// no regard to `allow_empty`.
    pub open spec fn accepts_secure(self, s: Seq<char>) -> bool {
        s.len() > 0
    }

    /// Whether the plain-string prompt accepts this answer.
    pub fn string_accepted(&self, s: &str) -> (r: bool)
        ensures
            r == self.accepts_plain(s@),
    {
        self.allow_empty || !s.is_empty()
    }

    /// Whether the secure prompt accepts this answer.
    pub fn secure_accepted(&self, s: &str) -> (r: bool)
        ensures
            r == self.accepts_secure(s@),
    {
        !s.is_empty()
    }

    /// The indentation prefix applied to every printed line.
    pub fn gen_indent(&self) -> (r: String)
        ensures
            r@ == indent_spaces(self.indent as nat),
    {
        let mut s = String::new();
        let mut k: usize = 0;
        while k < self.indent
            invariant
                k <= self.indent,
                s@ == indent_spaces(k as nat),
            decreases self.indent - k,
        {
            s.append("    ");
            k = k + 1;
        }
        s
    }

    /// The header, computed as data: a pure function of the prompt, so two
    /// renderings of the same prompt are identical.
    pub fn header_lines(&self) -> (r: Vec<Vec<Span>>)
        ensures
            r.deep_view() == header_spec(*self),
    {
        let ind = self.gen_indent();
        let mut lines: Vec<Vec<Span>> = Vec::new();
        lines.push(Vec::new());
        let mut first: Vec<Span> = Vec::new();
        first.push(span_plain(ind.clone()));
        if let Some(ctx) = &self.context {
            let mut tag = "[".to_owned();
            tag.append(ctx.as_str());
            tag.append("]");
            first.push(
                Span { text: tag, bold: true, italic: false, underlined: false, color: None },
            );
            first.push(span_plain(" ".to_owned()));
        }
        first.push(
            Span {
                text: self.message.clone(),
                bold: true,
                italic: false,
                underlined: false,
                color: Some(Color::Blue),
            },
        );
        lines.push(first);
        if let Some(docs) = &self.docs {
            let mut pre = ind.clone();
            pre.append("  ");
            let mut line: Vec<Span> = Vec::new();
            line.push(span_plain(pre));
            line.push(
                Span {
                    text: docs.clone(),
                    bold: false,
                    italic: true,
                    underlined: false,
                    color: None,
                },
            );
            lines.push(line);
        }
        if let Some(docs_url) = &self.docs_url {
            let mut pre = ind.clone();
            pre.append("  ");
            let mut line: Vec<Span> = Vec::new();
            line.push(span_plain(pre));
            line.push(
                Span {
                    text: docs_url.clone(),
                    bold: false,
                    italic: true,
                    underlined: true,
                    color: Some(Color::Cyan),
                },
            );
            lines.push(line);
        }
        if let Some(default_value) = &self.default_value {
            let mut pre = ind.clone();
            pre.append("  ");
            let mut line: Vec<Span> = Vec::new();
            line.push(span_plain(pre));
            line.push(
                Span {
                    text: "Defaults to".to_owned(),
                    bold: false,
                    italic: true,
                    underlined: false,
                    color: None,
                },
            );
            line.push(span_plain(" ".to_owned()));
            line.push(
                Span {
                    text: default_value.clone(),
                    bold: true,
                    italic: true,
                    underlined: false,
                    color: None,
                },
            );
            lines.push(line);
        }
        proof {
            assert(lines.deep_view() =~~= header_spec(*self));
        }
        lines
    }

    /// Write the header to the diagnostic stream. Called once at the start
    /// of each read method, before its retry loop.
    pub fn print_header(&self) {
        let lines = self.header_lines();
        let mut i: usize = 0;
        while i < lines.len()
            decreases lines@.len() - i,
        {
            let s = render_line(&lines[i]);
            emit_err_line(s.as_str());
            i = i + 1;
        }
    }

    /// One read through the single chokepoint: flush, read (plain or
    /// secure), trim, substitute the default. Every successful answer is the
    /// resolution of some raw input line.
    fn read_line_inner(&self, term: &console::Term, secure: bool) -> (r: Result<String, Error>)
        ensures
            r matches Ok(s) ==> exists|raw: Seq<char>|
                s@ == resolve_seq(self.default_value.deep_view(), raw),
            r matches Err(e) ==> e is Io,
    {
        match term_flush(term) {
            Err(e) => {
                return Err(Error::Io(e));
            },
            Ok(_) => {},
        }
        let raw = if secure {
            match term_read_secure(term) {
                Err(e) => {
                    return Err(Error::Io(e));
                },
                Ok(s) => s,
            }
        } else {
            match term_read_line(term) {
                Err(e) => {
                    return Err(Error::Io(e));
                },
                Ok(s) => s,
            }
        };
        let out = resolve_input(&self.default_value, raw.as_str());
        proof {
            assert(out@ == resolve_seq(self.default_value.deep_view(), raw@));
        }
        Ok(out)
    }

    /// Ask until the answer reads as a boolean. Every success is the boolean
    /// reading of some resolved input line; the only errors are stream
    /// failures.
    pub fn bool(&self, term: &console::Term) -> (r: Result<bool, Error>)
        ensures
            r matches Ok(b) ==> exists|raw: Seq<char>|
                bool_of(resolve_seq(self.default_value.deep_view(), raw)) == Some(b),
            r matches Err(e) ==> e is Io,
    {
        self.print_header();
        let ind = self.gen_indent();
        let mut tries: u64 = 0;
        while tries < u64::MAX
            decreases u64::MAX - tries,
        {
            let mut part = ind.clone();
            part.append("  ");
            let glyph = render_span(
                &Span {
                    text: "[y/n] ".to_owned(),
                    bold: true,
                    italic: false,
                    underlined: false,
                    color: None,
                },
            );
            part.append(glyph.as_str());
            emit_err_part(part.as_str());
            match self.read_line_inner(term, false) {
                Err(e) => {
                    return Err(e);
                },
                Ok(input) => {
                    match classify_bool(input.as_str()) {
                        Some(b) => {
                            proof {
                                let raw = choose|rw: Seq<char>|
                                    input@ == resolve_seq(self.default_value.deep_view(), rw);
                                assert(bool_of(
                                    resolve_seq(self.default_value.deep_view(), raw),
                                ) == Some(b));
                            }
                            return Ok(b);
                        },
                        None => {
                            let mut m = ind.clone();
                            m.append("  Invalid bool");
                            crate::status::error(m.as_str(), "");
                        },
                    }
                },
            }
            tries = tries + 1;
        }
        Err(Error::Io(abandoned_read()))
    }

    /// Ask until the answer parses into the target type. Every success is
    /// the parse of some resolved input line.
    pub fn parsed<T: Answer>(&self, term: &console::Term) -> (r: Result<T, Error>)
        ensures
            r matches Ok(v) ==> exists|raw: Seq<char>|
                T::parse_spec(resolve_seq(self.default_value.deep_view(), raw)) == Some(v),
            r matches Err(e) ==> e is Io,
    {
        self.print_header();
        let ind = self.gen_indent();
        let mut tries: u64 = 0;
        while tries < u64::MAX
            decreases u64::MAX - tries,
        {
            self.emit_arrow(&ind);
            match self.read_line_inner(term, false) {
                Err(e) => {
                    return Err(e);
                },
                Ok(input) => {
                    match T::parse_answer(input.as_str()) {
                        Some(v) => {
                            proof {
                                let raw = choose|rw: Seq<char>|
                                    input@ == resolve_seq(self.default_value.deep_view(), rw);
                                assert(T::parse_spec(
                                    resolve_seq(self.default_value.deep_view(), raw),
                                ) == Some(v));
                            }
                            return Ok(v);
                        },
                        None => {
                            let mut m = ind.clone();
                            m.append("  Invalid input");
                            crate::status::error(m.as_str(), "");
                        },
                    }
                },
            }
            tries = tries + 1;
        }
        Err(Error::Io(abandoned_read()))
    }

    /// Ask until the answer is acceptable as a plain string: any answer when
    /// `allow_empty` is set, otherwise a non-empty one.
    pub fn string(&self, term: &console::Term) -> (r: Result<String, Error>)
        ensures
            r matches Ok(s) ==> self.accepts_plain(s@),
            r matches Ok(s) ==> exists|raw: Seq<char>|
                s@ == resolve_seq(self.default_value.deep_view(), raw),
            r matches Err(e) ==> e is Io,
    {
        self.print_header();
        let ind = self.gen_indent();
        let mut tries: u64 = 0;
        while tries < u64::MAX
            decreases u64::MAX - tries,
        {
            self.emit_arrow(&ind);
            match self.read_line_inner(term, false) {
                Err(e) => {
                    return Err(e);
                },
                Ok(input) => {
                    if self.string_accepted(input.as_str()) {
                        return Ok(input);
                    } else {
                        let mut m = ind.clone();
                        m.append("  Empty input");
                        crate::status::error(m.as_str(), "");
                    }
                },
            }
            tries = tries + 1;
        }
        Err(Error::Io(abandoned_read()))
    }

    /// Ask on the secure (non-echoing) path until the answer is non-empty.
    /// The `allow_empty` flag has no effect here.
    pub fn string_secure(&self, term: &console::Term) -> (r: Result<String, Error>)
        ensures
            r matches Ok(s) ==> s@.len() > 0,
            r matches Ok(s) ==> exists|raw: Seq<char>|
                s@ == resolve_seq(self.default_value.deep_view(), raw),
            r matches Err(e) ==> e is Io,
    {
        self.print_header();
        let ind = self.gen_indent();
        let mut tries: u64 = 0;
        while tries < u64::MAX
            decreases u64::MAX - tries,
        {
            let mut part = ind.clone();
            part.append("  ");
            let glyph = render_span(
                &Span {
                    text: "[input hidden]".to_owned(),
                    bold: true,
                    italic: false,
                    underlined: false,
                    color: None,
                },
            );
            part.append(glyph.as_str());
            part.append(" ");
            emit_err_part(part.as_str());
            match self.read_line_inner(term, true) {
                Err(e) => {
                    return Err(e);
                },
                Ok(input) => {
                    if self.secure_accepted(input.as_str()) {
                        return Ok(input);
                    } else {
                        let mut m = ind.clone();
                        m.append("  Empty input");
                        crate::status::error(m.as_str(), "");
                    }
                },
            }
            tries = tries + 1;
        }
        Err(Error::Io(abandoned_read()))
    }

    /// Write the `>` answer glyph, indented, without a line break.
    fn emit_arrow(&self, ind: &String) {
        let mut part = ind.clone();
        part.append("  ");
        let glyph = render_span(
            &Span {
                text: ">".to_owned(),
                bold: true,
                italic: false,
                underlined: false,
                color: None,
            },
        );
        part.append(glyph.as_str());
        part.append(" ");
        emit_err_part(part.as_str());
    }
}

/// The secure prompt ignores `allow_empty`: whatever two prompts are
/// configured, they accept the same secure answers, exactly the non-empty
/// ones.
pub proof fn lemma_secure_ignores_allow_empty(p1: Prompt, p2: Prompt, s: Seq<char>)
    ensures
        p1.accepts_secure(s) == p2.accepts_secure(s),
        p1.accepts_secure(s) <==> s.len() > 0,
{
}

/// Relies on `std::io::Error::from`: an interrupted-stream error. A retry
/// loop hands it back in the place of input if it has been refused more
/// times than a counter can hold, which no interactive session reaches.
#[verifier::external_body]
fn abandoned_read() -> std::io::Error {
    std::io::Error::from(std::io::ErrorKind::Interrupted)
}

/// Relies on `console::Term::flush`: forces buffered terminal output out,
/// failing with the stream's own error.
#[verifier::external_body]
fn term_flush(term: &console::Term) -> Result<(), std::io::Error> {
    term.flush()
}

/// Relies on `console::Term::read_line`: blocks for one line of input,
/// without the trailing newline. What comes back depends on the user, so
/// nothing is claimed of it.
#[verifier::external_body]
fn term_read_line(term: &console::Term) -> Result<String, std::io::Error> {
    term.read_line()
}

/// Relies on `console::Term::read_secure_line`: blocks for one line of
/// input and does not echo it. What comes back depends on the user, so
/// nothing is claimed of it.
#[verifier::external_body]
fn term_read_secure(term: &console::Term) -> Result<String, std::io::Error> {
    term.read_secure_line()
}

} // verus!
