use saltwater::error::{Error, LexError, SemanticError, Warning};
use saltwater::intern::Interner;
use saltwater::lex::{
    all_known, append_tokens, ComparisonToken, Keyword, Punctuator, Radix, Token,
};
use saltwater::location::{line_column, LineColumn, Locatable, Location};
use saltwater::report::{render, render_error, render_warning, Severity};
use saltwater::testgen::{
    build_test, close_module, extract_name, guarded, is_test_entry, open_module,
};
use saltwater::text::{
    chars_of, decimal_string, has_prefix, has_suffix, is_whitespace, parse_unsigned, same_chars,
    string_of, trimmed, without_prefixes,
};

fn chars(s: &str) -> Vec<char> {
    s.chars().collect()
}

#[test]
fn white_space_is_what_std_calls_white_space() {
    for n in 0..=0x10ffffu32 {
        if let Some(c) = char::from_u32(n) {
            assert_eq!(is_whitespace(c), c.is_whitespace(), "U+{:04X}", n);
        }
    }
}

#[test]
fn trimmed_is_what_std_trims() {
    for s in ["", " ", "a", "  a b \n", "\t\r\n", "\u{a0}x\u{2009}", " é ", "x  ", "  x"] {
        assert_eq!(string_of(trimmed(&chars(s))), s.trim(), "{:?}", s);
    }
}

#[test]
fn prefixes_and_suffixes() {
    assert!(has_prefix(&chars("// code: 2"), &chars("// code: ")));
    assert!(!has_prefix(&chars("// code"), &chars("// code: ")));
    assert!(has_prefix(&chars("abc"), &chars("")));
    assert!(!has_prefix(&chars("abc"), &chars("b")));
    assert!(has_suffix(&chars("hi END"), &chars("END")));
    assert!(!has_suffix(&chars("ND"), &chars("END")));
    assert!(!has_suffix(&chars("END "), &chars("END")));
    assert!(same_chars(&chars("ab"), &chars("ab")));
    assert!(!same_chars(&chars("ab"), &chars("abc")));
    assert!(!same_chars(&chars("ab"), &chars("ac")));
}

#[test]
fn prefixes_are_taken_off_as_often_as_they_stand() {
    for (s, p) in [("ababc", "ab"), ("abc", "x"), ("", "a"), ("aaa", "a"), ("// x// x", "// "), ("abc", "")] {
        assert_eq!(
            string_of(without_prefixes(&chars(s), &chars(p))),
            s.trim_start_matches(p),
            "{:?} {:?}",
            s,
            p
        );
    }
}

#[test]
fn chars_and_strings_go_both_ways() {
    for s in ["", "a", "grüße", "// END", "日本語"] {
        assert_eq!(chars_of(s), chars(s));
        assert_eq!(string_of(&chars(s)), s);
    }
}

#[test]
fn numbers_are_read_as_std_reads_them() {
    for s in ["0", "7", "+7", "007", "255", "256", "", "+", "-1", "1 ", " 1", "1a", "١", "18446744073709551615", "18446744073709551616", "99999999999999999999"] {
        assert_eq!(parse_unsigned(&chars(s), u64::MAX), s.parse::<u64>().ok(), "{:?}", s);
        assert_eq!(
            parse_unsigned(&chars(s), 255),
            s.parse::<u8>().ok().map(|n| n as u64),
            "{:?}",
            s
        );
    }
    assert_eq!(parse_unsigned(&chars("10"), 9), None);
    assert_eq!(parse_unsigned(&chars("9"), 9), Some(9));
    assert_eq!(parse_unsigned(&chars("0"), 0), Some(0));
    assert_eq!(parse_unsigned(&chars("1"), 0), None);
}

#[test]
fn numbers_are_written_as_std_writes_them() {
    for n in [0u64, 1, 9, 10, 11, 99, 100, 255, 256, 4294967295, 18446744073709551615] {
        assert_eq!(decimal_string(n), n.to_string());
        assert_eq!(parse_unsigned(&chars(&decimal_string(n)), u64::MAX), Some(n));
    }
}

#[test]
fn closed_sets_are_spelled_as_in_c() {
    assert_eq!(Keyword::Auto.spelling(), "auto");
    assert_eq!(Keyword::Bool.spelling(), "_Bool");
    assert_eq!(Keyword::While.spelling(), "while");
    assert_eq!(Keyword::Sizeof.spelling(), "sizeof");
    assert_eq!(Punctuator::Arrow.spelling(), "->");
    assert_eq!(Punctuator::Ellipsis.spelling(), "...");
    assert_eq!(Punctuator::ShiftLeftEqual.spelling(), "<<=");
    assert_eq!(Punctuator::HashHash.spelling(), "##");
    assert_eq!(ComparisonToken::Less.spelling(), "<");
    assert_eq!(ComparisonToken::NotEqual.spelling(), "!=");
    assert_eq!(ComparisonToken::GreaterEqual.spelling(), ">=");
    assert_eq!(Radix::Binary.spelling(), "binary");
    assert_eq!(Radix::Hexadecimal.spelling(), "hexadecimal");
    assert_eq!(Radix::Octal.as_u64(), 8);
    assert_eq!(Radix::Decimal.as_u64(), 10);
    assert_eq!(Radix::Hexadecimal.prefix_spelling(), "0x");
}

#[test]
fn tokens_are_written_as_source() {
    let mut names = Interner::new();
    let x = names.intern("x");
    let f = names.intern("1.5e3");
    let s = names.intern("hi there");
    assert_eq!(Token::Id(x).to_text(&names), "x");
    assert_eq!(Token::Keyword(Keyword::Return).to_text(&names), "return");
    assert_eq!(Token::Float(f).to_text(&names), "1.5e3");
    assert_eq!(Token::Str(s).to_text(&names), "\"hi there\"");
    assert_eq!(Token::Punctuator(Punctuator::PlusPlus).to_text(&names), "++");
    assert_eq!(Token::Comparison(ComparisonToken::EqualEqual).to_text(&names), "==");
    let integer = |value, signed, radix| Token::Integer { value, signed, radix };
    assert_eq!(integer(0, true, Radix::Decimal).to_text(&names), "0");
    assert_eq!(integer(42, true, Radix::Decimal).to_text(&names), "42");
    assert_eq!(integer(42, false, Radix::Decimal).to_text(&names), "42u");
    assert_eq!(integer(255, true, Radix::Hexadecimal).to_text(&names), "0xff");
    assert_eq!(integer(8, true, Radix::Octal).to_text(&names), "010");
    assert_eq!(integer(0, true, Radix::Octal).to_text(&names), "00");
    assert_eq!(integer(5, false, Radix::Binary).to_text(&names), "0b101u");
    assert_eq!(
        integer(u64::MAX, false, Radix::Hexadecimal).to_text(&names),
        "0xffffffffffffffffu"
    );
    assert_eq!(integer(u64::MAX, true, Radix::Decimal).to_text(&names), "18446744073709551615");
}

#[test]
fn character_tokens_are_escaped() {
    let names = Interner::new();
    assert_eq!(Token::Char(b'a').to_text(&names), "'a'");
    assert_eq!(Token::Char(b' ').to_text(&names), "' '");
    assert_eq!(Token::Char(b'~').to_text(&names), "'~'");
    assert_eq!(Token::Char(b'"').to_text(&names), "'\"'");
    assert_eq!(Token::Char(b'\'').to_text(&names), "'\\''");
    assert_eq!(Token::Char(b'\\').to_text(&names), "'\\\\'");
    assert_eq!(Token::Char(b'\n').to_text(&names), "'\\n'");
    assert_eq!(Token::Char(b'\t').to_text(&names), "'\\t'");
    assert_eq!(Token::Char(b'\r').to_text(&names), "'\\r'");
    assert_eq!(Token::Char(0).to_text(&names), "'\\0'");
    assert_eq!(Token::Char(1).to_text(&names), "'\\x01'");
    assert_eq!(Token::Char(0x1f).to_text(&names), "'\\x1f'");
    assert_eq!(Token::Char(0x7f).to_text(&names), "'\\x7f'");
    assert_eq!(Token::Char(0xff).to_text(&names), "'\\xff'");
    assert_eq!(Token::Char(0xa0).to_text(&names), "'\\xa0'");
}

#[test]
fn tokens_are_joined_by_spaces() {
    let mut names = Interner::new();
    let x = names.intern("x");
    let tokens = vec![
        Token::Keyword(Keyword::Int),
        Token::Id(x),
        Token::Punctuator(Punctuator::Equal),
        Token::Integer { value: 3, signed: true, radix: Radix::Decimal },
        Token::Punctuator(Punctuator::Semicolon),
    ];
    assert!(all_known(&tokens, &names));
    let mut out = String::from(">");
    append_tokens(&mut out, &tokens, &names);
    assert_eq!(out, ">int x = 3 ;");
    let mut out = String::from(">");
    append_tokens(&mut out, &Vec::new(), &names);
    assert_eq!(out, ">");
    let strangers = Interner::new();
    assert!(!all_known(&tokens, &strangers));
    assert!(all_known(&vec![Token::Char(1)], &strangers));
}

#[test]
fn interner_holds_each_string_once() {
    let mut names = Interner::new();
    assert_eq!(names.len(), 0);
    let a = names.intern("a");
    let b = names.intern("b");
    let a2 = names.intern("a");
    assert_eq!(a, a2);
    assert_ne!(a, b);
    assert_eq!(names.len(), 2);
    assert_eq!(names.resolve(a), "a");
    assert_eq!(names.resolve(b), "b");
    assert_eq!(names.get(b), Some("b"));
    assert_eq!(names.lookup("b"), Some(b));
    assert_eq!(names.lookup("c"), None);
    assert!(names.knows(a));
    let empty = names.intern("");
    assert_eq!(names.resolve(empty), "");
    assert_eq!(names.resolve(a), "a");
    assert_eq!(names.len(), 3);
    let other = Interner::new();
    assert!(!other.knows(a));
    assert_eq!(other.get(a), None);
}

#[test]
fn locations_travel_with_their_values() {
    let location = Location { file_id: 2, start: 5, end: 9 };
    let located = location.with(7u8);
    assert_eq!(located, Locatable { data: 7u8, location });
    assert_eq!(Locatable::new(7u8, location), located);
    let mapped = located.map(|n| n as u32 + 1);
    assert_eq!(mapped, Locatable { data: 8u32, location });
    assert_eq!(Location::default(), Location { file_id: 0, start: 0, end: 0 });
}

#[test]
fn lines_and_columns_start_at_one() {
    let source = b"int x;\nint y;\n\nz";
    let at = |offset| line_column(source, offset);
    assert_eq!(at(0), Some(LineColumn { line: 1, column: 1 }));
    assert_eq!(at(4), Some(LineColumn { line: 1, column: 5 }));
    assert_eq!(at(6), Some(LineColumn { line: 1, column: 7 }));
    assert_eq!(at(7), Some(LineColumn { line: 2, column: 1 }));
    assert_eq!(at(13), Some(LineColumn { line: 2, column: 7 }));
    assert_eq!(at(14), Some(LineColumn { line: 3, column: 1 }));
    assert_eq!(at(15), Some(LineColumn { line: 4, column: 1 }));
    assert_eq!(at(16), Some(LineColumn { line: 4, column: 2 }));
    assert_eq!(at(17), None);
    assert_eq!(line_column(b"", 0), Some(LineColumn { line: 1, column: 1 }));
    assert_eq!(line_column(b"", 1), None);
    assert_eq!(line_column(b"\n", 1), Some(LineColumn { line: 2, column: 1 }));
}

#[test]
fn test_names_are_identifiers() {
    let by_std = |stem: &str| {
        let mut name = stem.replace("-", "_").replace("/", "_").replace("if", "_if");
        if name.chars().nth(0).map(|c| c.is_numeric()).unwrap_or(false) {
            name = format!("_{}", name);
        }
        name
    };
    for stem in ["runner-tests", "if", "elif", "iif", "ifif", "i", "f", "fi", "1-return", "a/b-c", "", "٣x", "x1", "½", "diff-if-i"] {
        assert_eq!(extract_name(stem), by_std(stem), "{:?}", stem);
    }
    assert_eq!(extract_name("1-return"), "_1_return");
    assert_eq!(extract_name("else-if"), "else__if");
    assert_eq!(extract_name("runner-tests"), "runner_tests");
    assert_eq!(guarded("x".to_string(), true), "_x");
    assert_eq!(guarded("x".to_string(), false), "x");
    let mut out = String::new();
    open_module(&mut out, "runner_tests");
    build_test(&mut out, "ok", "tests/runner-tests/ok.c");
    close_module(&mut out);
    assert_eq!(
        out,
        "mod runner_tests {\n#[test]\nfn r#ok() {\n    crate::run_test(r#\"tests/runner-tests/ok.c\"#).unwrap();\n}\n\n}\n"
    );
}

#[test]
fn diagnostics_are_reported_on_one_line() {
    assert_eq!(
        render("main.c", LineColumn { line: 3, column: 14 }, Severity::Error, "bad"),
        "main.c:3:14: error: bad"
    );
    assert_eq!(
        render("", LineColumn { line: 1, column: 1 }, Severity::Warning, ""),
        ":1:1: warning: "
    );
    let names = Interner::new();
    let source = b"int main(void) {\n    return 1 / 0;\n}\n";
    let error = Location { file_id: 0, start: 28, end: 33 }
        .with(Error::Semantic(SemanticError::DivideByZero));
    assert_eq!(
        render_error(&error, "div.c", source, &names),
        Some("div.c:2:12: error: invalid program: cannot divide by zero".to_string())
    );
    let late = Location { file_id: 0, start: 100, end: 101 }
        .with(Error::Lex(LexError::NoNewlineAtEOF));
    assert_eq!(render_error(&late, "div.c", source, &names), None);
    let warning = Location { file_id: 0, start: 0, end: 3 }.with(Warning::ImplicitInt);
    assert_eq!(
        render_warning(&warning, "div.c", source, &names),
        Some(
            "div.c:1:1: warning: implicit int is deprecated and may be removed in a future release"
                .to_string()
        )
    );
}

#[test]
fn entries_of_a_test_directory_are_chosen_by_name() {
    assert!(is_test_entry(Some("c"), "ok"));
    assert!(is_test_entry(None, "subdirectory"));
    assert!(is_test_entry(None, ""));
    assert!(is_test_entry(Some("c"), ""));
    assert!(!is_test_entry(Some("h"), "ok"));
    assert!(!is_test_entry(Some(""), "ok"));
    assert!(!is_test_entry(Some("C"), "ok"));
    assert!(!is_test_entry(Some("cc"), "ok"));
    assert!(!is_test_entry(Some("c"), ".ok"));
    assert!(!is_test_entry(None, ".hidden"));
    assert!(!is_test_entry(Some("swp"), ".ok.c"));
    assert!(!is_test_entry(None, "."));
    for name in ["ok.c", "dir", ".ok.c", "a.h", ".hidden", "a.b.c", "x."] {
        let p = std::path::Path::new(name);
        let by_path = (|| {
            if let Some(ext) = p.extension() {
                if ext != "c" {
                    return None;
                }
            };
            if p.file_stem()?.to_str()?.starts_with(".") {
                return None;
            }
            Some(())
        })()
        .is_some();
        let extension = p.extension().map(|e| e.to_string_lossy().into_owned());
        let stem = p.file_stem().unwrap().to_str().unwrap();
        assert_eq!(is_test_entry(extension.as_deref(), stem), by_path, "{:?}", name);
    }
}
