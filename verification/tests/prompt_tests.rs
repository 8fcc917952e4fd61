//! The prompt: builder, indentation, header rendering, acceptance rules,
//! and the read methods against an unattended terminal.

use termprompt::error::Error;
use termprompt::prompt::{BuildError, Prompt, PromptBuilder};
use termprompt::style::Color;
use termprompt::terminal;

fn base(message: &str) -> PromptBuilder {
    PromptBuilder::new().message(String::from(message))
}

#[test]
fn build_needs_a_message() {
    assert_eq!(PromptBuilder::new().build().unwrap_err(), BuildError::MissingMessage);
    assert_eq!(
        PromptBuilder::new().message(String::new()).build().unwrap_err(),
        BuildError::EmptyMessage
    );
}

#[test]
fn build_defaults() {
    let p = base("Continue?").build().unwrap();
    assert_eq!(p.message, "Continue?");
    assert_eq!(p.context, None);
    assert_eq!(p.docs, None);
    assert_eq!(p.docs_url, None);
    assert_eq!(p.default_value, None);
    assert_eq!(p.indent, 0);
    assert!(!p.allow_empty);
}

#[test]
fn build_carries_every_field() {
    let p = base("Name?")
        .context(String::from("user"))
        .docs(String::from("Your login name"))
        .docs_url(String::from("https://example.test/docs"))
        .default_value(String::from("guest"))
        .indent(2)
        .allow_empty(true)
        .build()
        .unwrap();
    assert_eq!(p.message, "Name?");
    assert_eq!(p.context.as_deref(), Some("user"));
    assert_eq!(p.docs.as_deref(), Some("Your login name"));
    assert_eq!(p.docs_url.as_deref(), Some("https://example.test/docs"));
    assert_eq!(p.default_value.as_deref(), Some("guest"));
    assert_eq!(p.indent, 2);
    assert!(p.allow_empty);
}

#[test]
fn builder_default_is_empty() {
    let b = PromptBuilder::default();
    assert!(b.message.is_none());
    assert!(b.indent.is_none());
    assert!(b.allow_empty.is_none());
}

#[test]
fn indent_is_four_spaces_per_level() {
    let p0 = base("q").build().unwrap();
    assert_eq!(p0.gen_indent(), "");
    let p2 = base("q").indent(2).build().unwrap();
    assert_eq!(p2.gen_indent(), "        ");
}

#[test]
fn header_lines_full_prompt() {
    let p = base("Name?")
        .context(String::from("user"))
        .docs(String::from("who you are"))
        .docs_url(String::from("https://example.test"))
        .default_value(String::from("guest"))
        .indent(1)
        .build()
        .unwrap();
    let lines = p.header_lines();
    assert_eq!(lines.len(), 5);
    assert!(lines[0].is_empty());

    let first = &lines[1];
    assert_eq!(first.len(), 4);
    assert_eq!(first[0].text, "    ");
    assert_eq!(first[1].text, "[user]");
    assert!(first[1].bold && !first[1].italic && first[1].color.is_none());
    assert_eq!(first[2].text, " ");
    assert_eq!(first[3].text, "Name?");
    assert!(first[3].bold);
    assert_eq!(first[3].color, Some(Color::Blue));

    let docs = &lines[2];
    assert_eq!(docs[0].text, "      ");
    assert_eq!(docs[1].text, "who you are");
    assert!(docs[1].italic && !docs[1].bold && docs[1].color.is_none());

    let url = &lines[3];
    assert_eq!(url[1].text, "https://example.test");
    assert!(url[1].italic && url[1].underlined);
    assert_eq!(url[1].color, Some(Color::Cyan));

    let def = &lines[4];
    assert_eq!(def.len(), 4);
    assert_eq!(def[1].text, "Defaults to");
    assert!(def[1].italic && !def[1].bold);
    assert_eq!(def[2].text, " ");
    assert_eq!(def[3].text, "guest");
    assert!(def[3].italic && def[3].bold);
}

#[test]
fn header_lines_minimal_prompt() {
    let p = base("Continue?").build().unwrap();
    let lines = p.header_lines();
    assert_eq!(lines.len(), 2);
    assert!(lines[0].is_empty());
    assert_eq!(lines[1].len(), 2);
    assert_eq!(lines[1][0].text, "");
    assert_eq!(lines[1][1].text, "Continue?");
}

#[test]
fn header_rendering_is_idempotent() {
    let p = base("Name?")
        .context(String::from("user"))
        .docs(String::from("who you are"))
        .default_value(String::from("guest"))
        .build()
        .unwrap();
    let once = p.header_lines();
    let twice = p.header_lines();
    assert_eq!(once, twice);
    p.print_header();
    p.print_header();
}

#[test]
fn string_acceptance_respects_allow_empty() {
    let strict = base("q").build().unwrap();
    assert!(!strict.string_accepted(""));
    assert!(strict.string_accepted("hello"));
    let lax = base("q").allow_empty(true).build().unwrap();
    assert!(lax.string_accepted(""));
    assert!(lax.string_accepted("hello"));
}

#[test]
fn secure_acceptance_ignores_allow_empty() {
    let strict = base("q").build().unwrap();
    let lax = base("q").allow_empty(true).build().unwrap();
    assert!(!strict.secure_accepted(""));
    assert!(!lax.secure_accepted(""));
    assert!(strict.secure_accepted("pw"));
    assert!(lax.secure_accepted("pw"));
}

// The plain-string loop rejects the empty and the white-space-only line,
// then accepts the trimmed third.
#[test]
fn scripted_string_rejects_until_non_empty() {
    let p = base("q").build().unwrap();
    let no_default: Option<String> = None;
    let mut rejections = 0;
    let mut outcome = None;
    for raw in ["", "  ", " hello "] {
        let resolved = termprompt::text::resolve_input(&no_default, raw);
        if p.string_accepted(&resolved) {
            outcome = Some(resolved);
            break;
        }
        rejections += 1;
    }
    assert_eq!(outcome.as_deref(), Some("hello"));
    assert_eq!(rejections, 2);
}

// An unattended terminal answers every read with an empty line, so a read
// method returns as soon as the empty answer (after default substitution)
// passes its validator.
#[test]
fn string_allow_empty_accepts_unattended_read() {
    let term = terminal();
    let p = base("q").allow_empty(true).build().unwrap();
    assert_eq!(p.string(&term).unwrap(), "");
}

#[test]
fn string_takes_the_default() {
    let term = terminal();
    let p = base("q").default_value(String::from("guest")).build().unwrap();
    assert_eq!(p.string(&term).unwrap(), "guest");
}

#[test]
fn bool_takes_the_default() {
    let term = terminal();
    let p = base("q").default_value(String::from("yes")).build().unwrap();
    assert!(p.bool(&term).unwrap());
    let p = base("q").default_value(String::from("N")).build().unwrap();
    assert!(!p.bool(&term).unwrap());
}

#[test]
fn parsed_takes_the_default() {
    let term = terminal();
    let p = base("q").default_value(String::from("-3")).build().unwrap();
    assert_eq!(p.parsed::<i64>(&term).unwrap(), -3);
}

#[test]
fn parsed_unsigned_takes_the_default() {
    let term = terminal();
    let p = base("q").default_value(String::from("12")).build().unwrap();
    assert_eq!(p.parsed::<u64>(&term).unwrap(), 12);
    assert_eq!(p.parsed::<usize>(&term).unwrap(), 12);
}

#[test]
fn string_secure_takes_the_default() {
    let term = terminal();
    let p = base("q").default_value(String::from("pw")).build().unwrap();
    assert_eq!(p.string_secure(&term).unwrap(), "pw");
}

#[test]
fn error_kinds_are_told_apart() {
    let io = Error::Io(std::io::Error::from(std::io::ErrorKind::BrokenPipe));
    assert!(io.is_io());
    assert!(!io.is_join());

    let rt = tokio::runtime::Builder::new_current_thread().build().unwrap();
    let join = rt
        .block_on(async { tokio::task::spawn_blocking(|| panic!("lane failure")).await })
        .unwrap_err();
    let err = Error::Join(join);
    assert!(err.is_join());
    assert!(!err.is_io());
}
