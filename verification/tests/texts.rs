use csharp_binder::error::Error;
use csharp_binder::naming::convert_naming;
use csharp_binder::syntax::SourcePosition;
use csharp_binder::text::{
    chars_of, decapitalize, decimal_text, lines, text_of, to_ascii_lower, to_ascii_upper, trim,
};
use csharp_binder::writer::{indent_text, line_text, write_line};

#[test]
fn naming_joins_words_in_pascal_case() {
    assert_eq!(convert_naming("foo_bar_zet", false), "FooBarZet");
    assert_eq!(convert_naming("foo", false), "Foo");
    assert_eq!(convert_naming("field_a", false), "FieldA");
}

#[test]
fn naming_of_a_parameter_starts_in_lower_case() {
    assert_eq!(convert_naming("foo_bar", true), "fooBar");
    assert_eq!(convert_naming("a", true), "a");
    assert_eq!(convert_naming("Already_Upper", true), "alreadyUpper");
}

#[test]
fn naming_drops_every_underscore() {
    assert_eq!(convert_naming("_foo", false), "Foo");
    assert_eq!(convert_naming("_foo", true), "foo");
    assert_eq!(convert_naming("foo_", false), "Foo");
    assert_eq!(convert_naming("__a__b__", false), "AB");
    assert_eq!(convert_naming("_", false), "");
    assert_eq!(convert_naming("", true), "");
}

#[test]
fn naming_leaves_what_is_no_ascii_letter() {
    assert_eq!(convert_naming("1st_2nd", false), "1st2nd");
    assert_eq!(convert_naming("émile_zola", false), "émileZola");
    assert_eq!(convert_naming("x_émile", true), "xémile");
    assert_eq!(convert_naming("FOO_BAR", false), "FOOBAR");
}

#[test]
fn ascii_case_of_single_characters() {
    assert_eq!(to_ascii_upper('a'), 'A');
    assert_eq!(to_ascii_upper('z'), 'Z');
    assert_eq!(to_ascii_upper('A'), 'A');
    assert_eq!(to_ascii_upper('_'), '_');
    assert_eq!(to_ascii_upper('é'), 'é');
    assert_eq!(to_ascii_lower('A'), 'a');
    assert_eq!(to_ascii_lower('Z'), 'z');
    assert_eq!(to_ascii_lower('a'), 'a');
    assert_eq!(to_ascii_lower('['), '[');
    assert_eq!(to_ascii_lower('@'), '@');
}

#[test]
fn decapitalize_touches_the_first_character_only() {
    assert_eq!(decapitalize("FieldA"), "fieldA");
    assert_eq!(decapitalize("fieldA"), "fieldA");
    assert_eq!(decapitalize("ABC"), "aBC");
    assert_eq!(decapitalize(""), "");
    assert_eq!(decapitalize("Éa"), "Éa");
}

#[test]
fn chars_and_back() {
    let chars = chars_of("héllo");
    assert_eq!(chars, vec!['h', 'é', 'l', 'l', 'o']);
    assert_eq!(text_of(&chars, 1, 4), "éll");
    assert_eq!(text_of(&chars, 0, 5), "héllo");
    assert_eq!(text_of(&chars, 2, 2), "");
}

#[test]
fn trim_removes_whitespace_at_both_ends() {
    assert_eq!(trim(" test documentation"), "test documentation");
    assert_eq!(trim(" Enum value one "), "Enum value one");
    assert_eq!(trim("\t a  b \r\n"), "a  b");
    assert_eq!(trim("none"), "none");
    assert_eq!(trim("   "), "");
    assert_eq!(trim(""), "");
    assert_eq!(trim("\u{3000}wide\u{a0}"), "wide");
}

#[test]
fn trim_agrees_with_the_standard_library() {
    for s in ["", " ", "a", " a", "a ", " a b ", "\n\ta\u{2003}", "\u{85}x\u{1680}", "_ _"] {
        assert_eq!(trim(s), s.trim());
    }
}

#[test]
fn lines_split_at_line_feeds() {
    assert_eq!(lines("This should set\na warning"), vec!["This should set", "a warning"]);
    assert_eq!(lines("one"), vec!["one"]);
    assert_eq!(lines("one\n"), vec!["one"]);
    assert_eq!(lines("one\n\ntwo"), vec!["one", "", "two"]);
    assert_eq!(lines("\n"), vec![""]);
    assert_eq!(lines(""), Vec::<String>::new());
}

#[test]
fn lines_drop_a_carriage_return_before_a_line_feed() {
    assert_eq!(lines("one\r\ntwo"), vec!["one", "two"]);
    assert_eq!(lines("one\r\n"), vec!["one"]);
    assert_eq!(lines("one\r\r\ntwo"), vec!["one\r", "two"]);
    assert_eq!(lines("a\rb\nc"), vec!["a\rb", "c"]);
    assert_eq!(lines("\r\n"), vec![""]);
}

#[test]
fn lines_keep_a_carriage_return_at_the_very_end() {
    assert_eq!(lines("one\ntwo\r"), vec!["one", "two\r"]);
}

#[test]
fn lines_agree_with_the_standard_library() {
    for s in ["", "a", "a\n", "a\nb", "a\r\nb\r\n", "\n\n", "a\r", "\r\n\r\n", "x\n\ry\n"] {
        let expected: Vec<String> = s.lines().map(|l| l.to_string()).collect();
        assert_eq!(lines(s), expected);
    }
}

#[test]
fn decimal_of_numbers() {
    assert_eq!(decimal_text(0), "0");
    assert_eq!(decimal_text(7), "7");
    assert_eq!(decimal_text(10), "10");
    assert_eq!(decimal_text(42), "42");
    assert_eq!(decimal_text(12345), "12345");
    assert_eq!(decimal_text(usize::MAX), usize::MAX.to_string());
}

#[test]
fn indentation_is_four_spaces_a_level() {
    assert_eq!(indent_text(0), "");
    assert_eq!(indent_text(1), "    ");
    assert_eq!(indent_text(3), "            ");
}

#[test]
fn a_line_is_indented_and_ends_in_a_line_feed() {
    assert_eq!(line_text("{", 0), "{\n");
    assert_eq!(line_text("public enum Foo : byte", 2), "        public enum Foo : byte\n");
    let mut out = String::from("before\n");
    write_line(&mut out, "}", 1);
    assert_eq!(out, "before\n    }\n");
}

#[test]
fn message_of_an_unsupported_construct_names_the_place() {
    let e = Error::UnsupportedError(
        "Receiver parameters aren't supported".to_string(),
        SourcePosition { line: 3, column: 17 },
    );
    assert_eq!(e.message(), "Receiver parameters aren't supported. At line 3, position 17");
}

#[test]
fn message_of_an_unknown_type_names_the_place() {
    let e = Error::UnknownType(
        "Type with name 'Foo' was not found".to_string(),
        SourcePosition { line: 120, column: 0 },
    );
    assert_eq!(e.message(), "Type with name 'Foo' was not found. At At line 120, position 0");
}

#[test]
fn message_of_a_parse_error_is_the_parser_message() {
    let e = Error::ParseError(
        "expected identifier".to_string(),
        SourcePosition { line: 1, column: 2 },
    );
    assert_eq!(e.message(), "expected identifier");
}
