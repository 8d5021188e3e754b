use magic::location::{Byte, ByteRange, NodeId};
use magic::paint::check_if_colors_are_supported;
use magic::report::{write_err_header, write_lines, Error, ErrorKind, Message, SugestionKind};

fn span(start: usize, end: usize) -> ByteRange {
    ByteRange(Byte(start), Byte(end), NodeId(1))
}

fn single(text: &str) -> Message {
    Message::Single(String::from(text))
}

fn multi(lines: &[&str]) -> Message {
    Message::Multi(lines.iter().map(|s| String::from(*s)).collect())
}

#[test]
fn render_single_message_with_underline() {
    let err = Error::new(single("Expected an identifier"), span(2, 5));
    let text = err.with_code("let = 10", "main.mg").render_labelled(" ERROR ");
    let expected = concat_lines(&[
        "",
        " ERROR : Expected an identifier",
        "",
        "  ┌─> main.mg:0~2",
        "  │",
        "  1 │ let = 10",
        "    │   ^^^",
        "  │",
    ]);
    assert_eq!(text, expected);
}

fn concat_lines(lines: &[&str]) -> String {
    let mut out = String::new();
    for line in lines {
        out.push_str(line);
        out.push('\n');
    }
    out
}

#[test]
fn location_line_and_blank_gutter_follow_the_header() {
    let err = Error::new(single("m"), ByteRange(Byte(2), Byte(5), NodeId(0)));
    let text = err.with_code("let = 10", "f").render_labelled(" ERROR ");
    let rest = text.strip_prefix("\n ERROR : m\n\n").unwrap();
    assert!(rest.starts_with("  ┌─> f:0~2\n  │\n  1 │ let = 10\n"));
    assert!(rest.ends_with("    │   ^^^\n  │\n"));
}

#[test]
fn underline_has_length_of_column_difference_and_starts_at_start_column() {
    let err = Error::new(single("m"), span(2, 5));
    let text = err.with_code("let = 10", "f").render_labelled("E");
    let lines: Vec<&str> = text.lines().collect();
    let gutter = lines.iter().position(|l| *l == "  1 │ let = 10").unwrap();
    let underline = lines[gutter + 1];
    let marks = underline.strip_prefix("    │ ").unwrap();
    assert_eq!(marks, "  ^^^");
    assert_eq!(marks.chars().filter(|c| *c == '^').count(), 3);
    assert_eq!(marks.find('^'), Some(2));
}

#[test]
fn render_on_second_line() {
    let code = "fn main\nlet = 10\nend\n";
    let err = Error::new(single("Expected an identifier"), span(12, 13));
    let text = err.with_code(code, "a.mg").render_labelled(" ERROR ");
    let expected = concat_lines(&[
        "",
        " ERROR : Expected an identifier",
        "",
        "  ┌─> a.mg:1~4",
        "  │",
        "  2 │ let = 10",
        "    │     ^",
        "  │",
    ]);
    assert_eq!(text, expected);
}

#[test]
fn render_span_over_several_lines_has_no_underline() {
    let code = "fn main\nlet = 10\nend\n";
    let err = Error::new(single("Unclosed block"), span(3, 18));
    let text = err.with_code(code, "a.mg").render_labelled(" ERROR ");
    let expected = concat_lines(&[
        "",
        " ERROR : Unclosed block",
        "",
        "  ┌─> a.mg:0~3",
        "  │",
        "  1 │ fn main",
        "  2 │ let = 10",
        "  3 │ end",
        "  │",
    ]);
    assert_eq!(text, expected);
}

#[test]
fn render_message_of_several_lines() {
    let err = Error::new(multi(&["first", "second", "third"]), span(0, 2));
    let text = err.with_code("ab\n", "x").render_labelled(" ERROR ");
    let expected = concat_lines(&[
        "",
        " ERROR : first",
        "",
        "         second",
        "",
        "         third",
        "",
        "  ┌─> x:0",
        "  │",
        "  1 │ ab",
        "    │ ^^",
        "  │",
    ]);
    assert_eq!(text, expected);
}

#[test]
fn render_empty_list_of_message_lines_has_no_header() {
    let err = Error::new(multi(&[]), span(1, 1));
    let text = err.with_code("ab\n", "x").render_labelled(" ERROR ");
    let expected = concat_lines(&["  ┌─> x:0~1", "  │", "  1 │ ab", "    │  ", "  │"]);
    assert_eq!(text, expected);
}

#[test]
fn render_singleton_span_has_empty_underline() {
    let err = Error::new(single("Invalid token"), span(7, 7));
    let text = err.with_code("let x = $\n", "t").render_labelled(" ERROR ");
    let expected = concat_lines(&[
        "",
        " ERROR : Invalid token",
        "",
        "  ┌─> t:0~7",
        "  │",
        "  1 │ let x = $",
        "    │        ",
        "  │",
    ]);
    assert_eq!(text, expected);
}

#[test]
fn render_span_at_end_of_text_shows_first_line() {
    let err = Error::new(single("Unrecognized EOF"), span(8, 8));
    let text = err.with_code("fn main(", "t").render_labelled(" ERROR ");
    let expected = concat_lines(&[
        "",
        " ERROR : Unrecognized EOF",
        "",
        "  ┌─> t:0",
        "  │",
        "  1 │ fn main(",
        "    │ ",
        "  │",
    ]);
    assert_eq!(text, expected);
}

#[test]
fn render_on_empty_text() {
    let err = Error::new(single("Unrecognized EOF"), span(0, 0));
    let text = err.with_code("", "t").render_labelled(" ERROR ");
    let expected = concat_lines(&[
        "",
        " ERROR : Unrecognized EOF",
        "",
        "  ┌─> t:0",
        "  │",
        "    │ ",
        "  │",
    ]);
    assert_eq!(text, expected);
}

#[test]
fn render_strips_carriage_return_from_source_line() {
    let err = Error::new(single("m"), span(0, 1));
    let text = err.with_code("ab\r\ncd\r\n", "t").render_labelled("E");
    let expected = concat_lines(&["", "E: m", "", "  ┌─> t:0", "  │", "  1 │ ab", "    │ ^", "  │"]);
    assert_eq!(text, expected);
}

#[test]
fn render_source_line_with_wide_characters() {
    let code = "let é = «1»\nx";
    let err = Error::new(single("m"), span(4, 6));
    let text = err.with_code(code, "t").render_labelled("E");
    let expected = concat_lines(&[
        "",
        "E: m",
        "",
        "  ┌─> t:0~4",
        "  │",
        "  1 │ let é = «1»",
        "    │     ^^",
        "  │",
    ]);
    assert_eq!(text, expected);
}

#[test]
fn render_insert_suggestion_of_one_line() {
    let err = Error::new_sugestion(single("name"), SugestionKind::Insert, span(4, 4));
    let text = err.with_code("let = 10\n", "main.mg").render_labelled(" ERROR ");
    let expected = concat_lines(&["  1 │ let = 10", "  2 │     name", "    │     ++++", "  │"]);
    assert_eq!(text, expected);
}

#[test]
fn render_insert_suggestion_counts_bytes_for_plus_signs() {
    let err = Error::new_sugestion(single("é"), SugestionKind::Insert, span(1, 1));
    let text = err.with_code("ab\n", "f").render_labelled("");
    let expected = concat_lines(&["  1 │ ab", "  2 │  é", "    │  ++", "  │"]);
    assert_eq!(text, expected);
}

#[test]
fn render_insert_suggestion_of_several_lines() {
    let err = Error::new_sugestion(multi(&["if x", "end"]), SugestionKind::Insert, span(10, 12));
    let text = err.with_code("fn main\n  body\n", "f").render_labelled("");
    let expected = concat_lines(&["  2 │   body", "  3+│   if x", "  4+│   end", "  │"]);
    assert_eq!(text, expected);
}

#[test]
fn render_replace_suggestion_of_one_line() {
    let err = Error::new_sugestion(single("let"), SugestionKind::Replace, span(0, 3));
    let text = err.with_code("lat x = 1\n", "f").render_labelled("");
    let expected = concat_lines(&["  1 │ let", "    │ +++", "  │"]);
    assert_eq!(text, expected);
}

#[test]
fn render_replace_suggestion_of_several_lines() {
    let err = Error::new_sugestion(multi(&["a", "b", "c"]), SugestionKind::Replace, span(9, 10));
    let text = err.with_code("fn main\n  body\n", "f").render_labelled("");
    let expected = concat_lines(&["  2+│  a", "  3+│  b", "  4+│  c", "  │"]);
    assert_eq!(text, expected);
}

#[test]
fn render_suggestion_with_reversed_span() {
    let err = Error::new_sugestion(single("x"), SugestionKind::Replace, span(5, 2));
    let wrapped = err.with_code("let = 10\n", "f");
    assert!(wrapped.can_render());
    let expected = concat_lines(&["  1 │      x", "    │      +", "  │"]);
    assert_eq!(wrapped.render_labelled(""), expected);
}

#[test]
fn render_paints_the_label() {
    let err = Error::new(single("Invalid token"), span(0, 1));
    let text = err.with_code("$\n", "t").render();
    let expected = concat_lines(&[
        "",
        "\u{1b}[1;41m ERROR \u{1b}[0m: Invalid token",
        "",
        "  ┌─> t:0",
        "  │",
        "  1 │ $",
        "    │ ^",
        "  │",
    ]);
    assert_eq!(text, expected);
}

#[test]
fn render_after_colour_check_is_one_of_the_two_forms() {
    check_if_colors_are_supported();
    let err = Error::new(single("Invalid token"), span(0, 1));
    let wrapped = err.with_code("$\n", "t");
    let text = wrapped.render();
    let plain = wrapped.render_labelled(" ERROR ");
    let painted = wrapped.render_labelled("\u{1b}[1;41m ERROR \u{1b}[0m");
    assert!(text == plain || text == painted);
    assert_ne!(plain, painted);
}

#[test]
fn try_render_gives_the_rendering() {
    let err = Error::new(single("m"), span(2, 5));
    let wrapped = err.with_code("let = 10", "f");
    assert!(wrapped.can_render());
    assert_eq!(wrapped.try_render(), Some(wrapped.render()));
}

#[test]
fn reversed_span_on_one_line_cannot_be_rendered() {
    let err = Error::new(single("m"), span(5, 2));
    let wrapped = err.with_code("let = 10", "f");
    assert!(!wrapped.can_render());
    assert_eq!(wrapped.try_render(), None);
}

#[test]
fn span_that_ends_at_end_of_text_cannot_be_rendered() {
    // the end is located at the origin, before the start on the same line
    let err = Error::new(single("m"), span(3, 8));
    let wrapped = err.with_code("let = 10", "f");
    assert!(!wrapped.can_render());
    assert_eq!(wrapped.try_render(), None);
}

#[test]
fn reversed_span_over_lines_can_be_rendered() {
    let err = Error::new(single("m"), span(4, 1));
    let wrapped = err.with_code("ab\ncd\n", "f");
    assert!(wrapped.can_render());
    let expected = concat_lines(&["", "E: m", "", "  ┌─> f:1", "  │", "  │"]);
    assert_eq!(wrapped.render_labelled("E"), expected);
}

#[test]
fn error_id_is_the_node_of_its_span() {
    let err = Error::new(single("m"), ByteRange(Byte(1), Byte(2), NodeId(77)));
    assert_eq!(err.id(), NodeId(77));
    let err = Error::new_sugestion(single("m"), SugestionKind::Insert, ByteRange::default());
    assert_eq!(err.id(), NodeId(0));
}

#[test]
fn error_new_is_a_static_message() {
    let err = Error::new(single("boom"), span(3, 4));
    assert_eq!(err.location(), span(3, 4));
    assert!(matches!(err.message(), ErrorKind::Static(Message::Single(s)) if s == "boom"));
}

#[test]
fn error_new_sugestion_keeps_kind_and_message() {
    let err = Error::new_sugestion(multi(&["a", "b"]), SugestionKind::Replace, span(0, 1));
    assert_eq!(err.location(), span(0, 1));
    assert!(matches!(
        err.message(),
        ErrorKind::Sugestion(Message::Multi(lines), SugestionKind::Replace)
            if lines.len() == 2 && lines[0] == "a" && lines[1] == "b"
    ));
}

#[test]
fn write_lines_numbers_from_one() {
    let mut out = String::from(">");
    write_lines(&mut out, "a\nb\nc\n", 0, 2);
    assert_eq!(out, ">  1 │ a\n  2 │ b\n  3 │ c\n");
}

#[test]
fn write_lines_stops_at_last_line_of_text() {
    let mut out = String::new();
    write_lines(&mut out, "a\nb", 1, 10);
    assert_eq!(out, "  2 │ b\n");
    let mut out = String::new();
    write_lines(&mut out, "a\nb", 2, 10);
    assert_eq!(out, "");
    let mut out = String::new();
    write_lines(&mut out, "a\nb", 0, usize::MAX);
    assert_eq!(out, "  1 │ a\n  2 │ b\n");
}

#[test]
fn write_lines_of_reversed_range_is_empty() {
    let mut out = String::from("x");
    write_lines(&mut out, "a\nb\nc\n", 2, 1);
    assert_eq!(out, "x");
}

#[test]
fn write_lines_keeps_wide_numbers_whole() {
    let mut code = String::new();
    for _ in 0..1000 {
        code.push_str("x\n");
    }
    let mut out = String::new();
    write_lines(&mut out, &code, 8, 9);
    assert_eq!(out, "  9 │ x\n 10 │ x\n");
    let mut out = String::new();
    write_lines(&mut out, &code, 98, 99);
    assert_eq!(out, " 99 │ x\n100 │ x\n");
    let mut out = String::new();
    write_lines(&mut out, &code, 998, 999);
    assert_eq!(out, "999 │ x\n1000 │ x\n");
}

#[test]
fn write_err_header_single() {
    let mut out = String::new();
    write_err_header(&mut out, "[E]", &single("bad"));
    assert_eq!(out, "\n[E]: bad\n\n");
}

#[test]
fn write_err_header_multi_indents_later_lines() {
    let mut out = String::from("#");
    write_err_header(&mut out, " ERROR ", &multi(&["one", "two"]));
    assert_eq!(out, "#\n ERROR : one\n\n         two\n\n");
}

#[test]
fn write_lines_agrees_with_the_lines_of_the_standard_library() {
    let texts = [
        "",
        "\n",
        "\r\n",
        "\r",
        "a",
        "a\n",
        "a\r\n",
        "a\r",
        "ab\ncd\nef",
        "ab\r\r\ncd\n\r\nef",
        "\n\n\n",
        "let é = «1»\nñ\r\n€uro\n",
    ];
    for text in texts {
        let mut expected = String::new();
        for (i, line) in text.lines().enumerate() {
            expected.push_str(&format!("{:>3} │ {}\n", i + 1, line));
        }
        let mut out = String::new();
        write_lines(&mut out, text, 0, usize::MAX);
        assert_eq!(out, expected, "{:?}", text);
        let mut expected = String::new();
        for (i, line) in text.lines().enumerate().skip(1).take(2) {
            expected.push_str(&format!("{:>3} │ {}\n", i + 1, line));
        }
        let mut out = String::new();
        write_lines(&mut out, text, 1, 2);
        assert_eq!(out, expected, "{:?}", text);
    }
}
