use plantui::highlight::{highlight_line, str_starts_with, syntax_highlighting, StyleClass};
use plantui::pmu::DEFAULT_DIAGRAM;

#[test]
fn starts_with_compares_characters() {
    assert!(str_starts_with("!define X 1", "!define "));
    assert!(!str_starts_with("!definitely not", "!define "));
    assert!(str_starts_with("abc", ""));
    assert!(!str_starts_with("ab", "abc"));
    assert!(str_starts_with("héllo", "hé"));
}

#[test]
fn start_and_end_lines_are_blue() {
    let (l, after) = highlight_line("@startuml", false).expect("line must classify");
    assert_eq!(l.style, StyleClass::Blue);
    assert!(!l.dimmed);
    assert!(!after);
    let (l, _) = highlight_line("@enduml", false).expect("line must classify");
    assert_eq!(l.style, StyleClass::Blue);
}

#[test]
fn title_is_cyan_and_comment_is_gray() {
    let (l, _) = highlight_line("title MyDiagram", false).expect("line must classify");
    assert_eq!(l.style, StyleClass::Cyan);
    let (l, _) = highlight_line("'comment", false).expect("line must classify");
    assert_eq!(l.style, StyleClass::Gray);
}

#[test]
fn keyword_prefixes_color_plain_lines() {
    let (l, _) = highlight_line("skinparam monochrome true", false).expect("classify");
    assert_eq!(l.style, StyleClass::Green);
    let (l, _) = highlight_line("!define AZURE blue", false).expect("classify");
    assert_eq!(l.style, StyleClass::Yellow);
    let (l, _) = highlight_line("legend center", false).expect("classify");
    assert_eq!(l.style, StyleClass::LightMagenta);
    let (l, _) = highlight_line("end legend", false).expect("classify");
    assert_eq!(l.style, StyleClass::LightMagenta);
    let (l, _) = highlight_line("Alice -> Bob: Hello", false).expect("classify");
    assert_eq!(l.style, StyleClass::Plain);
    assert!(!l.dimmed);
}

#[test]
fn block_comments_dim_their_contents() {
    let (l, after) = highlight_line("/' begin", false).expect("classify");
    assert!(after, "an opening line must leave a block comment open");
    assert!(l.dimmed, "the opening line itself is dimmed");
    // Inside the block, ordinary lines are dimmed by the carried state.
    let (l, after) = highlight_line("Alice -> Bob: Hello", after).expect("classify");
    assert!(l.dimmed);
    assert!(after);
    // The closing line is dimmed and closes the block.
    let (l, after) = highlight_line("end '/", after).expect("classify");
    assert!(l.dimmed);
    assert!(!after);
    let (l, _) = highlight_line("Alice -> Bob: Hello", after).expect("classify");
    assert!(!l.dimmed);
}

#[test]
fn whole_document_is_styled_line_by_line() {
    let lines: Vec<String> = DEFAULT_DIAGRAM.split('\n').map(|s| s.to_string()).collect();
    let styled = syntax_highlighting(&lines);
    assert_eq!(styled.len(), lines.len());
    let styles: Vec<StyleClass> = styled.iter().map(|s| s.style).collect();
    assert_eq!(
        styles,
        vec![
            StyleClass::Blue,
            StyleClass::Cyan,
            StyleClass::Gray,
            StyleClass::Gray,
            StyleClass::Plain,
            StyleClass::Blue,
        ]
    );
    assert!(styled.iter().all(|s| !s.dimmed));
}
