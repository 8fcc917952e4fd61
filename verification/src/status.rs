//! Status lines: a styled label and a message on the diagnostic stream.
//! Best-effort output with no failure mode for the caller.

use crate::style::{emit_err_line, render_span, Color, Span};
use vstd::prelude::*;
use vstd::string::StringExecFns;

verus! {

/// Write one status line: the label bold and coloured, a space, the data.
fn emit_status(msg: &str, data: &str, color: Color) {
    let label = render_span(
        &Span {
            text: msg.to_owned(),
            bold: true,
            italic: false,
            underlined: false,
            color: Some(color),
        },
    );
    let mut line = label;
    line.append(" ");
    line.append(data);
    emit_err_line(line.as_str());
}

/// An informational line: bold blue label, then the data.
pub fn info(msg: &str, data: &str) {
    emit_status(msg, data, Color::Blue);
}

/// A progress line: bold green label, then the data.
pub fn progress(msg: &str, data: &str) {
    emit_status(msg, data, Color::Green);
}

/// A success line: bold green label, then the data.
pub fn success(msg: &str, data: &str) {
    emit_status(msg, data, Color::Green);
}

/// A warning line: bold yellow label, then the data.
pub fn warn(msg: &str, data: &str) {
    emit_status(msg, data, Color::Yellow);
}

/// An error line: bold red label, then the data.
pub fn error(msg: &str, data: &str) {
    emit_status(msg, data, Color::Red);
}

} // verus!
