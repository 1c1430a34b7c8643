use saltwater::directive::{
    block_end, directive, Directive,
    expectation, expected_output, output_block, BlockEnd, DirectiveError, Expectation,
};

fn lines(texts: &[&str]) -> Vec<String> {
    texts.iter().map(|s| s.to_string()).collect()
}

fn none() -> Vec<String> {
    Vec::new()
}

#[test]
fn plain_directives() {
    assert_eq!(expectation("// compile\n", &none()), Ok(Expectation::Compiles));
    assert_eq!(expectation("// no-main\n", &none()), Ok(Expectation::CompilesWithoutMain));
    assert_eq!(expectation("// fail\n", &none()), Ok(Expectation::CompileError));
    assert_eq!(expectation("// compile-fail\n", &none()), Ok(Expectation::CompileError));
    assert_eq!(expectation("// compile-error\n", &none()), Ok(Expectation::CompileError));
    assert_eq!(expectation("// succeeds\n", &none()), Ok(Expectation::Succeeds));
    assert_eq!(expectation("// crash\n", &none()), Ok(Expectation::Crashes));
    assert_eq!(expectation("// stack-overflow\n", &none()), Ok(Expectation::StackOverflow));
    assert_eq!(expectation("// ignore\n", &none()), Ok(Expectation::Ignored));
}

#[test]
fn white_space_around_the_line_is_dropped() {
    assert_eq!(expectation("  // compile \t\r\n", &none()), Ok(Expectation::Compiles));
    assert_eq!(expectation("// succeeds", &none()), Ok(Expectation::Succeeds));
    assert_eq!(expectation("\u{a0}// crash\u{2003}\u{3000}", &none()), Ok(Expectation::Crashes));
}

#[test]
fn what_is_no_directive_is_refused() {
    assert_eq!(expectation("", &none()), Err(DirectiveError::Unrecognized));
    assert_eq!(expectation("int main(void) { return 0; }\n", &none()), Err(DirectiveError::Unrecognized));
    assert_eq!(expectation("//compile\n", &none()), Err(DirectiveError::Unrecognized));
    assert_eq!(expectation("// compile it\n", &none()), Err(DirectiveError::Unrecognized));
    assert_eq!(expectation("// Compile\n", &none()), Err(DirectiveError::Unrecognized));
    assert_eq!(expectation("// code:2\n", &none()), Err(DirectiveError::Unrecognized));
    assert_eq!(expectation("// output:\n", &none()), Err(DirectiveError::Unrecognized));
    assert_eq!(expectation("// output: \n", &none()), Err(DirectiveError::Unrecognized));
}

#[test]
fn code_takes_a_status() {
    assert_eq!(expectation("// code: 2\n", &none()), Ok(Expectation::ExitCode(2)));
    assert_eq!(expectation("// code: 0\n", &none()), Ok(Expectation::ExitCode(0)));
    assert_eq!(expectation("// code: 255\n", &none()), Ok(Expectation::ExitCode(255)));
    assert_eq!(expectation("// code:   17  \n", &none()), Ok(Expectation::ExitCode(17)));
    assert_eq!(expectation("// code: +7\n", &none()), Ok(Expectation::ExitCode(7)));
    assert_eq!(expectation("// code: 007\n", &none()), Ok(Expectation::ExitCode(7)));
    assert_eq!(expectation("// code: // code: 5\n", &none()), Ok(Expectation::ExitCode(5)));
}

#[test]
fn code_refuses_what_is_no_status() {
    assert_eq!(expectation("// code: 256\n", &none()), Err(DirectiveError::ExpectedCode));
    assert_eq!(expectation("// code: -1\n", &none()), Err(DirectiveError::ExpectedCode));
    assert_eq!(expectation("// code: two\n", &none()), Err(DirectiveError::ExpectedCode));
    assert_eq!(expectation("// code: 1 2\n", &none()), Err(DirectiveError::ExpectedCode));
    assert_eq!(expectation("// code: +\n", &none()), Err(DirectiveError::ExpectedCode));
    assert_eq!(expectation("// code: ++1\n", &none()), Err(DirectiveError::ExpectedCode));
    assert_eq!(expectation("// code: 1e2\n", &none()), Err(DirectiveError::ExpectedCode));
    assert_eq!(
        expectation("// code: 99999999999999999999999999\n", &none()),
        Err(DirectiveError::ExpectedCode)
    );
}

#[test]
fn errors_takes_a_count() {
    assert_eq!(expectation("// errors: 2\n", &none()), Ok(Expectation::ErrorCount(2)));
    assert_eq!(expectation("// errors: 0\n", &none()), Ok(Expectation::ErrorCount(0)));
    assert_eq!(expectation("// errors: 300\n", &none()), Ok(Expectation::ErrorCount(300)));
    assert_eq!(
        expectation(&format!("// errors: {}\n", usize::MAX), &none()),
        Ok(Expectation::ErrorCount(usize::MAX))
    );
    assert_eq!(
        expectation(&format!("// errors: {}0\n", usize::MAX), &none()),
        Err(DirectiveError::ExpectedErrorCount)
    );
    assert_eq!(
        expectation("// errors: 340282366920938463463374607431768211456\n", &none()),
        Err(DirectiveError::ExpectedErrorCount)
    );
    assert_eq!(expectation("// errors: many\n", &none()), Err(DirectiveError::ExpectedErrorCount));
    assert_eq!(expectation("// errors: -3\n", &none()), Err(DirectiveError::ExpectedErrorCount));
}

#[test]
fn ignore_with_an_issue() {
    assert_eq!(
        expectation("// ignore: https://example.org/issues/1\n", &none()),
        Ok(Expectation::IgnoredForIssue("https://example.org/issues/1".to_string()))
    );
    assert_eq!(
        expectation("// ignore: http://example.org/2 \n", &none()),
        Ok(Expectation::IgnoredForIssue("http://example.org/2".to_string()))
    );
    assert_eq!(
        expectation("// ignore: ftp://example.org\n", &none()),
        Err(DirectiveError::IgnoreWithoutIssue)
    );
    assert_eq!(
        expectation("// ignore: later\n", &none()),
        Err(DirectiveError::IgnoreWithoutIssue)
    );
    assert_eq!(
        expectation("// ignore: HTTPS://example.org\n", &none()),
        Err(DirectiveError::IgnoreWithoutIssue)
    );
}

#[test]
fn output_on_one_line_gets_a_newline() {
    assert_eq!(
        expectation("// output: hello, world!\n", &none()),
        Ok(Expectation::Output("hello, world!\n".to_string()))
    );
    assert_eq!(
        expectation("// output: BEGIN\n", &none()),
        Ok(Expectation::Output("BEGIN\n".to_string()))
    );
    assert_eq!(expected_output("hi", &none()), Ok("hi\n".to_string()));
    assert_eq!(expected_output("", &none()), Ok("".to_string()));
    assert_eq!(expected_output("END", &none()), Ok("END\n".to_string()));
}

#[test]
fn output_between_begin_and_end_gets_none() {
    assert_eq!(
        expectation("// output: BEGIN: hi END\n", &none()),
        Ok(Expectation::Output("hi".to_string()))
    );
    assert_eq!(expected_output("BEGIN: hi END", &none()), Ok("hi".to_string()));
    assert_eq!(expected_output("BEGIN: a b  END", &none()), Ok("a b ".to_string()));
    assert_eq!(expected_output("BEGIN:  END", &none()), Ok("".to_string()));
    assert_eq!(expected_output("BEGIN: hiEND", &none()), Ok("h".to_string()));
    assert_eq!(expected_output("BEGIN: grüße END", &none()), Ok("grüße".to_string()));
}

#[test]
fn output_with_begin_and_end_too_close_is_refused() {
    assert_eq!(expected_output("BEGIN: END", &none()), Err(DirectiveError::MalformedOutput));
    assert_eq!(
        expectation("// output: BEGIN: END\n", &none()),
        Err(DirectiveError::MalformedOutput)
    );
    assert_eq!(expected_output("BEGIN: hiéEND", &none()), Err(DirectiveError::MalformedOutput));
}

#[test]
fn output_block_over_lines() {
    let following = lines(&["// multi-line", "// string", "// END", "int main(void) {}"]);
    assert_eq!(
        expectation("// output: BEGIN:\n", &following),
        Ok(Expectation::Output("multi-line\nstring\n".to_string()))
    );
    assert_eq!(expected_output("BEGIN:", &following), Ok("multi-line\nstring\n".to_string()));
    assert_eq!(
        output_block(&following),
        ("multi-line\nstring\n".to_string(), BlockEnd::Closed)
    );
}

#[test]
fn output_block_with_a_first_part() {
    let following = lines(&["// b", "// END"]);
    assert_eq!(
        expectation("// output: BEGIN: a\n", &following),
        Ok(Expectation::Output("ab\n".to_string()))
    );
    assert_eq!(expected_output("BEGIN: a", &none()), Ok("a".to_string()));
}

#[test]
fn output_block_ends_at_what_is_no_comment() {
    let following = lines(&["// a", "int x;", "// b", "// END"]);
    assert_eq!(output_block(&following), ("a\n".to_string(), BlockEnd::Broken));
    let following = lines(&["// a", "//", "// END"]);
    assert_eq!(output_block(&following), ("a\n".to_string(), BlockEnd::Broken));
    let following = lines(&["// a", "// b"]);
    assert_eq!(output_block(&following), ("a\nb\n".to_string(), BlockEnd::Unclosed));
    assert_eq!(output_block(&none()), ("".to_string(), BlockEnd::Unclosed));
    let following = lines(&["// END"]);
    assert_eq!(output_block(&following), ("".to_string(), BlockEnd::Closed));
    let following = lines(&["// ", "//  x ", "// END "]);
    assert_eq!(output_block(&following), ("\n x \nEND \n".to_string(), BlockEnd::Unclosed));
}

#[test]
fn a_program_that_succeeds() {
    let program = "// succeeds\nint main(void) { return 0; }\n";
    let mut all = program.lines();
    let first = all.next().unwrap();
    let following: Vec<String> = all.map(|s| s.to_string()).collect();
    assert_eq!(expectation(first, &following), Ok(Expectation::Succeeds));
}

#[test]
fn a_program_that_exits_with_two() {
    let program = "// code: 2\nint main(void) { return 1+1; }\n";
    let mut all = program.lines();
    let first = all.next().unwrap();
    let following: Vec<String> = all.map(|s| s.to_string()).collect();
    assert_eq!(expectation(first, &following), Ok(Expectation::ExitCode(2)));
}

#[test]
fn a_program_with_two_errors() {
    let program = "// errors: 2\nint x = \"s\"; float *p = 3;\n";
    let mut all = program.lines();
    let first = all.next().unwrap();
    let following: Vec<String> = all.map(|s| s.to_string()).collect();
    assert_eq!(expectation(first, &following), Ok(Expectation::ErrorCount(2)));
}

#[test]
fn only_an_output_directive_that_goes_on_opens_a_block() {
    let following = lines(&["// a", "int x;"]);
    assert_eq!(block_end("// output: BEGIN:\n", &following), Some(BlockEnd::Broken));
    assert_eq!(block_end("// output: BEGIN: x\n", &following), Some(BlockEnd::Broken));
    assert_eq!(block_end("// output: BEGIN: x END\n", &following), None);
    assert_eq!(block_end("// output: BEGIN: END\n", &following), None);
    assert_eq!(block_end("// output: x\n", &following), None);
    assert_eq!(block_end("// compile\n", &following), None);
    assert_eq!(block_end("int x;\n", &following), None);
    assert_eq!(
        block_end("// output: BEGIN:\n", &lines(&["// a", "// END"])),
        Some(BlockEnd::Closed)
    );
    assert_eq!(block_end("// output: BEGIN:\n", &lines(&["// a"])), Some(BlockEnd::Unclosed));
}

#[test]
fn lines_are_told_apart_by_their_directive() {
    let of = |line: &str| directive(&line.chars().collect::<Vec<char>>());
    assert_eq!(of("// compile"), Some(Directive::Compile));
    assert_eq!(of("// no-main"), Some(Directive::NoMain));
    assert_eq!(of("// fail"), Some(Directive::Fail));
    assert_eq!(of("// compile-fail"), Some(Directive::Fail));
    assert_eq!(of("// compile-error"), Some(Directive::Fail));
    assert_eq!(of("// succeeds"), Some(Directive::Succeeds));
    assert_eq!(of("// crash"), Some(Directive::Crash));
    assert_eq!(of("// stack-overflow"), Some(Directive::StackOverflow));
    assert_eq!(of("// ignore"), Some(Directive::Ignore));
    assert_eq!(of("// code: x"), Some(Directive::Code));
    assert_eq!(of("// errors: x"), Some(Directive::Errors));
    assert_eq!(of("// ignore: x"), Some(Directive::IgnoreIssue));
    assert_eq!(of("// output: x"), Some(Directive::Output));
    assert_eq!(of("// compile "), None);
    assert_eq!(of(" // compile"), None);
    assert_eq!(of("// code:"), None);
    assert_eq!(of(""), None);
}
