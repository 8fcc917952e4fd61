//! Table rendering through tabled, link styling, status lines, and the
//! span rendering the header goes through.

use termprompt::format::{link, raw_table, raw_table_at_width, table};
use termprompt::status::{error, info, progress, success, warn};
use termprompt::style::{render_line, render_span, Span};

fn rows() -> Vec<Vec<String>> {
    vec![
        vec![String::from("name"), String::from("role")],
        vec![String::from("ada"), String::from("engineer")],
        vec![String::from("grace"), String::from("admiral")],
    ]
}

#[test]
fn table_renders_cells_and_rounded_borders() {
    let t = raw_table_at_width(&rows(), None);
    let s = format!("{}", t);
    assert!(s.contains("name"));
    assert!(s.contains("ada"));
    assert!(s.contains("admiral"));
    assert!(s.starts_with('\u{256d}'));
    assert!(s.contains('\u{2502}'));
    assert!(s.ends_with('\u{256f}'));
    let header_sep: usize = s.lines().filter(|l| l.starts_with('\u{251c}')).count();
    assert_eq!(header_sep, 1);
}

#[test]
fn table_wraps_to_the_given_width() {
    let long = "a cell whose content is well over forty characters long, so it must wrap";
    let records = vec![vec![String::from("note")], vec![String::from(long)]];
    let t = raw_table_at_width(&records, Some(40));
    let s = format!("{}", t);
    assert!(s.lines().count() > 3);
    for line in s.lines() {
        assert!(line.chars().count() <= 40, "line too wide: {:?}", line);
    }
    assert!(s.contains("note"));
}

#[test]
fn table_without_width_stays_unwrapped() {
    let long = "a cell whose content is well over forty characters long, so it stays whole";
    let records = vec![vec![String::from("note")], vec![String::from(long)]];
    let t = raw_table_at_width(&records, None);
    let s = format!("{}", t);
    assert!(s.lines().any(|l| l.contains(long)));
    assert_eq!(s.lines().count(), 5);
}

#[test]
fn raw_table_smoke() {
    let t = raw_table(&rows());
    let s = format!("{}", t);
    assert!(s.contains("grace"));
}

#[test]
fn table_prints_without_panicking() {
    table(&rows());
}

#[test]
fn link_keeps_its_text() {
    let styled = link("https://example.test");
    let s = format!("{}", styled);
    assert!(s.contains("https://example.test"));
}

#[test]
fn status_lines_do_not_fail() {
    info("Info", "details");
    progress("Working", "half done");
    success("Done", "all good");
    warn("Careful", "odd input");
    error("Failed", "but best-effort");
}

#[test]
fn plain_spans_render_as_bare_text() {
    let plain = Span {
        text: String::from("hello"),
        bold: false,
        italic: false,
        underlined: false,
        color: None,
    };
    assert_eq!(render_span(&plain), "hello");
    let line = vec![
        Span { text: String::from("a "), bold: false, italic: false, underlined: false, color: None },
        Span { text: String::from("line"), bold: false, italic: false, underlined: false, color: None },
    ];
    assert_eq!(render_line(&line), "a line");
}

#[test]
fn styled_spans_keep_their_text() {
    let bold = Span {
        text: String::from("label"),
        bold: true,
        italic: false,
        underlined: false,
        color: None,
    };
    assert!(render_span(&bold).contains("label"));
}
