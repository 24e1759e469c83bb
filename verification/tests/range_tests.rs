use react_boundary::Span;
use react_boundary::range::{offset_to_position, span_to_range, string_literal_to_range};

fn sp(start: u32, end: u32) -> Span {
    Span { start, end }
}

#[test]
fn test_offset_to_position_single_line() {
    let source = "const x = 10;";
    let position = offset_to_position(source.as_bytes(), 6); // Points to 'x'

    assert_eq!(position.line, 0);
    assert_eq!(position.character, 6);
}

#[test]
fn test_offset_to_position_multi_line() {
    let source = "const x = 10;\nconst y = 20;";
    let position = offset_to_position(source.as_bytes(), 20); // Points to 'y' on the second line

    assert_eq!(position.line, 1);
    assert_eq!(position.character, 6);
}

#[test]
fn test_offset_to_position_start_of_line() {
    let source = "line1\nline2";
    let position = offset_to_position(source.as_bytes(), 6); // Points to 'l' in 'line2'

    assert_eq!(position.line, 1);
    assert_eq!(position.character, 0);
}

#[test]
fn test_offset_to_position_with_unicode() {
    let source = "const emoji = '😀';";
    // The emoji is multiple bytes, but character count should still work
    let position = offset_to_position(source.as_bytes(), 14);

    assert_eq!(position.line, 0);
    // Character position should be after "const emoji = "
    assert_eq!(position.character, 14);
}

#[test]
fn test_span_to_range_single_line() {
    let source = "const MyComponent = () => {};";
    let span = sp(6, 17); // "MyComponent"

    let range = span_to_range(source.as_bytes(), span);

    assert_eq!(range.start.line, 0);
    assert_eq!(range.start.character, 6);
    assert_eq!(range.end.line, 0);
    assert_eq!(range.end.character, 17);
}

#[test]
fn test_span_to_range_multi_line() {
    let source = "const MyComponent = () => {\n  return <div />;\n};";
    let span = sp(6, 17); // "MyComponent"

    let range = span_to_range(source.as_bytes(), span);

    assert_eq!(range.start.line, 0);
    assert_eq!(range.start.character, 6);
    assert_eq!(range.end.line, 0);
    assert_eq!(range.end.character, 17);
}

#[test]
fn test_string_literal_to_range_double_quotes() {
    let source = r#"import X from "./client";"#;
    // Span includes quotes: "./client" at positions 14-24
    let span = sp(14, 24);

    let range = string_literal_to_range(source.as_bytes(), span);

    // Should skip opening quote at 14, start at 15 (the dot)
    assert_eq!(range.start.line, 0);
    assert_eq!(range.start.character, 15);
    // Should skip closing quote at 23
    assert_eq!(range.end.line, 0);
    assert_eq!(range.end.character, 23);
}

#[test]
fn test_string_literal_to_range_single_quotes() {
    let source = "import X from './client';";
    // Span includes quotes: './client' at positions 14-24
    let span = sp(14, 24);

    let range = string_literal_to_range(source.as_bytes(), span);

    // Should position inside the string
    assert_eq!(range.start.line, 0);
    assert_eq!(range.start.character, 15);
    assert_eq!(range.end.line, 0);
    assert_eq!(range.end.character, 23);
}

#[test]
fn test_string_literal_to_range_multi_line() {
    let source = "const code = `\n  ./path\n`;";
    // Multi-line template literal
    let span = sp(13, 24); // `\n  ./path\n`

    let range = string_literal_to_range(source.as_bytes(), span);

    // Should skip opening backtick
    assert_eq!(range.start.line, 0);
    assert_eq!(range.start.character, 14);
}
