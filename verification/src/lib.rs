//! Terminal interaction helpers: status lines, table formatting, link
//! styling, and validated interactive prompts.

pub mod error;
pub mod format;
pub mod prompt;
pub mod status;
pub mod style;
pub mod text;

use vstd::prelude::*;

verus! {

/// Declares `console::Term`, the terminal handle every interactive read goes
/// through. The value stays opaque to the verifier.
#[verifier::external_type_specification]
#[verifier::external_body]
pub struct ExTerm(console::Term);

/// Relies on `console::Term::stderr`: a handle on the process's diagnostic
/// terminal, so prompts do not pollute piped program output.
#[verifier::external_body]
pub fn terminal() -> console::Term {
    console::Term::stderr()
}

} // verus!
