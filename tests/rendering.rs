use diagnostics::error::CompilationError;
use diagnostics::location::{format_path, Location, PathComponent};
use diagnostics::message::{any_error, highlight_range, select_line, CompilationMessage, MessageType};
use diagnostics::note::CompilationNote;
use diagnostics::styling::{Color, Styling, TextStyle};
use diagnostics::warning::CompilationWarning;

const SOURCE: &str = "fn main\nsecond\nlet xx = 1\nlast\n";

fn error_at(line: u32, column: u32, length: usize, error: CompilationError) -> CompilationMessage {
    CompilationMessage::new(Location::new("file.x", line, column, length), MessageType::Error(error))
}

#[test]
fn mismatched_parameters_plain_body() {
    let e = CompilationError::mismatched_parameters("Int", "Bool");
    assert_eq!(
        e.display(&Styling::no_color()),
        Some("Mismatched parameters: expected Int, got Bool\n".to_string())
    );
}

#[test]
fn mismatched_parameters_colored_body() {
    let e = CompilationError::mismatched_parameters("Int", "Bool");
    assert_eq!(
        e.display(&Styling::colored()),
        Some("Mismatched parameters: expected \x1b[32mInt\x1b[0m, got \x1b[31mBool\x1b[0m\n".to_string())
    );
}

fn parameters_line(expected: usize, got: usize) -> String {
    let e = CompilationError::InvalidNumberOfParameters { function: "fn(Int) -> Int".to_string(), got, expected };
    e.display(&Styling::no_color()).unwrap()
}

#[test]
fn parameter_count_pluralization() {
    assert_eq!(parameters_line(0, 2), "Function fn(Int) -> Int declared to take 0 parameter, but 2 were supplied\n");
    assert_eq!(parameters_line(1, 3), "Function fn(Int) -> Int declared to take 1 parameter, but 3 were supplied\n");
    assert_eq!(parameters_line(2, 1), "Function fn(Int) -> Int declared to take 2 parameters, but 1 were supplied\n");
    assert_eq!(parameters_line(5, 12), "Function fn(Int) -> Int declared to take 5 parameters, but 12 were supplied\n");
}

#[test]
fn parameter_count_colored() {
    let e = CompilationError::InvalidNumberOfParameters { function: "f".to_string(), got: 0, expected: 10 };
    assert_eq!(
        e.display(&Styling::colored()).unwrap(),
        "Function \x1b[31mf\x1b[0m declared to take \x1b[32m10\x1b[0m parameters, but \x1b[31m0\x1b[0m were supplied\n"
    );
}

#[test]
fn other_error_wordings() {
    let st = Styling::no_color();
    assert_eq!(
        CompilationError::ref_required_for_assignment("Int").display(&st).unwrap(),
        "Expression of type Int must be a mutable-reference type to be assigned to\n"
    );
    assert_eq!(
        CompilationError::cannot_assign_to_ref("ref Int", "Bool").display(&st).unwrap(),
        "Cannot assign expression of type Bool to a reference of type ref Int\n"
    );
    assert_eq!(
        CompilationError::value_is_not_a_function("String").display(&st).unwrap(),
        "Value being called is not a function, it is a String\n"
    );
    assert_eq!(CompilationError::todo("later").display(&st), None);
}

#[test]
fn path_uses_forward_slashes() {
    let cs = vec![
        PathComponent::RootDir,
        PathComponent::Normal("a".to_string()),
        PathComponent::ParentDir,
        PathComponent::Normal("b".to_string()),
    ];
    assert_eq!(format_path(&cs), "/a/../b");
    let rel = vec![PathComponent::CurDir, PathComponent::Normal("src".to_string()), PathComponent::Normal("m.x".to_string())];
    assert_eq!(format_path(&rel), "./src/m.x");
    assert_eq!(format_path(&vec![]), "");
}

#[test]
fn location_text_is_path_line_column() {
    assert_eq!(Location::new("dir/file.x", 12, 7, 0).text(), "dir/file.x:12:7");
    assert_eq!(Location::new("/abs/./m.x", 1, 1, 2).as_owned().text(), "/abs/m.x:1:1");
}

#[test]
fn only_errors_are_errors() {
    let e = error_at(1, 1, 1, CompilationError::value_is_not_a_function("Int"));
    assert!(e.is_error());
    let w = CompilationMessage::new(Location::new("f", 1, 1, 0), MessageType::from(CompilationWarning::todo("w")));
    assert!(!w.is_error());
    let n = CompilationMessage::new(Location::new("f", 1, 1, 0), MessageType::from(CompilationNote::todo("n")));
    assert!(!n.is_error());
    let t = CompilationMessage::new(Location::new("f", 1, 1, 0), MessageType::from(CompilationError::todo("t")));
    assert!(t.is_error());
}

#[test]
fn end_to_end_plain() {
    let m = error_at(3, 5, 4, CompilationError::mismatched_parameters("Int", "Bool"));
    assert_eq!(
        m.render(SOURCE, &Styling::no_color()),
        "file.x:3:5 | error:\nMismatched parameters: expected Int, got Bool\nlet xx = 1\n    ^^^^\n"
    );
}

#[test]
fn end_to_end_colored() {
    let m = error_at(3, 5, 4, CompilationError::mismatched_parameters("Int", "Bool"));
    assert_eq!(
        m.render(SOURCE, &Styling::colored()),
        "\x1b[3mfile.x:3:5\x1b[0m | \x1b[31;1merror:\x1b[0m\n\
         Mismatched parameters: expected \x1b[32mInt\x1b[0m, got \x1b[31mBool\x1b[0m\n\
         let \x1b[31mxx =\x1b[0m 1\n"
    );
}

#[test]
fn empty_span_still_gets_a_marker() {
    let m = error_at(3, 5, 0, CompilationError::value_is_not_a_function("Int"));
    assert_eq!(
        m.render(SOURCE, &Styling::colored()),
        "\x1b[3mfile.x:3:5\x1b[0m | \x1b[31;1merror:\x1b[0m\n\
         Value being called is not a function, it is a \x1b[31mInt\x1b[0m\n\
         let \x1b[31m\x1b[0mxx = 1\n    \n"
    );
}

#[test]
fn line_past_end_of_file_is_empty() {
    let m = error_at(10, 3, 2, CompilationError::value_is_not_a_function("Int"));
    assert_eq!(
        m.render(SOURCE, &Styling::no_color()),
        "file.x:10:3 | error:\nValue being called is not a function, it is a Int\n\n\n"
    );
}

#[test]
fn span_is_clamped_into_the_line() {
    let m = error_at(2, 4, 100, CompilationError::ref_required_for_assignment("Int"));
    assert_eq!(
        m.render(SOURCE, &Styling::no_color()),
        "file.x:2:4 | error:\nExpression of type Int must be a mutable-reference type to be assigned to\nsecond\n   ^^^\n"
    );
    let far = error_at(4, 9, 3, CompilationError::ref_required_for_assignment("Int"));
    assert_eq!(
        far.render(SOURCE, &Styling::no_color()),
        "file.x:4:9 | error:\nExpression of type Int must be a mutable-reference type to be assigned to\nlast\n    \n"
    );
}

#[test]
fn carriage_returns_end_lines() {
    let m = error_at(2, 2, 5, CompilationError::value_is_not_a_function("Int"));
    assert_eq!(
        m.render("a\r\nbcd\r\n", &Styling::no_color()),
        "file.x:2:2 | error:\nValue being called is not a function, it is a Int\nbcd\n ^^\n"
    );
}

#[test]
fn placeholders_have_no_wording() {
    let w = CompilationMessage::new(Location::new("f", 1, 1, 0), MessageType::Warning(CompilationWarning::todo("unused")));
    assert!(!w.has_wording());
    let n = CompilationMessage::new(Location::new("f", 1, 1, 0), MessageType::Note(CompilationNote::todo("see")));
    assert!(!n.has_wording());
    let e = error_at(1, 1, 0, CompilationError::todo("traits"));
    assert!(!e.has_wording());
    let ok = error_at(1, 1, 0, CompilationError::value_is_not_a_function("Int"));
    assert!(ok.has_wording());
}

#[test]
fn columns_count_bytes() {
    let m = error_at(1, 4, 2, CompilationError::value_is_not_a_function("Int"));
    assert_eq!(
        m.render("\u{e9} xy\n", &Styling::no_color()),
        "file.x:1:4 | error:\nValue being called is not a function, it is a Int\n\u{e9} xy\n   ^^\n"
    );
}

#[test]
fn span_inside_a_character_rounds_down() {
    let m = error_at(1, 2, 1, CompilationError::value_is_not_a_function("Int"));
    assert_eq!(
        m.render("\u{e9} xy", &Styling::colored()),
        "\x1b[3mfile.x:1:2\x1b[0m | \x1b[31;1merror:\x1b[0m\n\
         Value being called is not a function, it is a \x1b[31mInt\x1b[0m\n\
         \x1b[31m\u{e9}\x1b[0m xy\n"
    );
}

#[test]
fn highlight_range_clamps() {
    assert_eq!(highlight_range(10, 5, 4), (4, 8));
    assert_eq!(highlight_range(10, 9, 4), (8, 10));
    assert_eq!(highlight_range(3, 7, 2), (3, 3));
    assert_eq!(highlight_range(0, 1, 0), (0, 0));
    assert_eq!(highlight_range(5, 1, usize::MAX), (0, 5));
}

#[test]
fn lines_are_selected_by_index() {
    assert_eq!(select_line(SOURCE, 2), (15, 10));
    assert_eq!(select_line(SOURCE, 0), (0, 7));
    assert_eq!(select_line(SOURCE, 4), (0, 0));
    assert_eq!(select_line("", 0), (0, 0));
    assert_eq!(select_line("a\n\nb", 1), (2, 0));
    assert_eq!(select_line("x\r", 0), (0, 2));
}

#[test]
fn stylings() {
    let plain = Styling::no_color();
    assert!(plain.underline);
    assert_eq!(plain.wrong_type, TextStyle { color: None, bold: false, italic: false });
    let c = Styling::colored();
    assert!(!c.underline);
    assert_eq!(c.header_warning, TextStyle { color: Some(Color::Yellow), bold: true, italic: false });
    assert_eq!(c.header_note, TextStyle { color: Some(Color::Purple), bold: true, italic: false });
    assert_eq!(c.trait_, TextStyle { color: Some(Color::Blue), bold: false, italic: false });
}

#[test]
fn exit_status_follows_errors() {
    let w = CompilationMessage::new(Location::new("f", 1, 1, 0), MessageType::Warning(CompilationWarning::todo("w")));
    let n = CompilationMessage::new(Location::new("f", 1, 1, 0), MessageType::Note(CompilationNote::todo("n")));
    let e = error_at(1, 1, 1, CompilationError::value_is_not_a_function("Int"));
    assert!(!any_error(&vec![]));
    assert!(!any_error(&vec![w.clone(), n.clone()]));
    assert!(any_error(&vec![w, e, n]));
}

#[test]
fn relative_paths_render_as_written() {
    let m = CompilationMessage::new(
        Location::new("src/dir/m.x", 2, 1, 3),
        MessageType::Error(CompilationError::value_is_not_a_function("Int")),
    );
    assert_eq!(
        m.render(SOURCE, &Styling::no_color()),
        "src/dir/m.x:2:1 | error:\nValue being called is not a function, it is a Int\nsecond\n^^^\n"
    );
}
