//! The directive on the first line of a test program, and the outcome it asks for.
//!
//! A test is a C source file whose first line is a comment that says what should
//! happen when the file is compiled and run. Reading the file is the caller's part;
//! here its lines are turned into an [`Expectation`].

use crate::text::{
    chars_of, has_prefix, has_suffix, parse_unsigned, same_chars, string_of, strip_prefixes,
    trim, trimmed, unsigned_value, without_prefixes,
};
use vstd::prelude::*;
use vstd::slice::slice_subrange;
use vstd::string::*;

verus! {

/// What a test program is expected to do.
#[derive(Clone, Debug, PartialEq, Eq)]
pub enum Expectation {
    /// `// compile`: compiles without errors.
    Compiles,
    /// `// no-main`: compiles without errors, and needs no `main`.
    CompilesWithoutMain,
    /// `// fail`, `// compile-fail`, `// compile-error`: at least one error.
    CompileError,
    /// `// succeeds`: compiles, runs, and exits with status 0.
    Succeeds,
    /// `// crash`: compiles, runs, and exits with another status than 0.
    Crashes,
    /// `// stack-overflow`: compiles, runs, and overflows its stack.
    StackOverflow,
    /// `// ignore`: skipped.
    Ignored,
    /// `// ignore: <url>`: skipped, for the issue at the address.
    IgnoredForIssue(String),
    /// `// code: N`: compiles, runs, and exits with status `N`.
    ExitCode(u8),
    /// `// errors: N`: does not compile, with `N` errors.
    ErrorCount(usize),
    /// `// output: ...`: compiles, runs, and prints exactly this.
    Output(String),
}

/// An [`Expectation`] with its texts as sequences of characters.
pub enum ExpectationView {
    Compiles,
    CompilesWithoutMain,
    CompileError,
    Succeeds,
    Crashes,
    StackOverflow,
    Ignored,
    IgnoredForIssue(Seq<char>),
    ExitCode(u8),
    ErrorCount(usize),
    Output(Seq<char>),
}

impl View for Expectation {
    type V = ExpectationView;

    open spec fn view(&self) -> ExpectationView {
        match self {
            Expectation::Compiles => ExpectationView::Compiles,
            Expectation::CompilesWithoutMain => ExpectationView::CompilesWithoutMain,
            Expectation::CompileError => ExpectationView::CompileError,
            Expectation::Succeeds => ExpectationView::Succeeds,
            Expectation::Crashes => ExpectationView::Crashes,
            Expectation::StackOverflow => ExpectationView::StackOverflow,
            Expectation::Ignored => ExpectationView::Ignored,
            Expectation::IgnoredForIssue(url) => ExpectationView::IgnoredForIssue(url@),
            Expectation::ExitCode(code) => ExpectationView::ExitCode(*code),
            Expectation::ErrorCount(count) => ExpectationView::ErrorCount(*count),
            Expectation::Output(text) => ExpectationView::Output(text@),
        }
    }
}

/// Why a first line is no directive.
#[derive(Clone, Copy, Debug, PartialEq, Eq, Structural)]
pub enum DirectiveError {
    /// The line is none of the directives.
    Unrecognized,
    /// `// code: ` is not followed by a number from 0 to 255.
    ExpectedCode,
    /// `// errors: ` is not followed by a number that fits a `usize`.
    ExpectedErrorCount,
    /// `// ignore: ` is not followed by an `http://` or `https://` address.
    IgnoreWithoutIssue,
    /// `// output: BEGIN: ` and `END` on one line, with no room left for a text and the
    /// one-byte character that parts it from `END`.
    MalformedOutput,
}

/// How a block of output lines ended.
#[derive(Clone, Copy, Debug, PartialEq, Eq, Structural)]
pub enum BlockEnd {
    /// With the line `// END`.
    Closed,
    /// With a line that does not start with `// `.
    Broken,
    /// With the last line of the program.
    Unclosed,
}

/// Whether a line goes on with a block of output: whether it starts with `// ` and is not
/// `// END`.
pub open spec fn is_block_line(line: Seq<char>) -> bool {
    line != "// END"@ && "// "@.is_prefix_of(line)
}

/// The output that the comment lines of a block spell: each line up to the first that is
/// `// END` or does not start with `// `, without its `// `, and with a newline after it.
pub open spec fn output_block_text(lines: Seq<Seq<char>>) -> Seq<char>
    decreases lines.len(),
{
    if lines.len() > 0 && is_block_line(lines[0]) {
        lines[0].skip("// "@.len() as int) + seq!['\n'] + output_block_text(lines.skip(1))
    } else {
        Seq::empty()
    }
}

/// How the block that `output_block_text` reads ends.
pub open spec fn output_block_end(lines: Seq<Seq<char>>) -> BlockEnd
    decreases lines.len(),
{
    if lines.len() == 0 {
        BlockEnd::Unclosed
    } else if is_block_line(lines[0]) {
        output_block_end(lines.skip(1))
    } else if lines[0] == "// END"@ {
        BlockEnd::Closed
    } else {
        BlockEnd::Broken
    }
}

/// The views of a vector of strings.
pub open spec fn texts(lines: &Vec<String>) -> Seq<Seq<char>> {
    Seq::new(lines@.len(), |i: int| lines@[i]@)
}

/// Reads a block of output from the lines that follow the directive.
pub fn output_block(lines: &Vec<String>) -> (r: (String, BlockEnd))
    ensures
        r.0@ == output_block_text(texts(lines)),
        r.1 == output_block_end(texts(lines)),
{
    let comment = chars_of("// ");
    let end = chars_of("// END");
    let mut out = String::new();
    let mut i: usize = 0;
    let ghost all = texts(lines);
    assert(all.skip(0) == all);
    while i < lines.len()
        invariant
            i <= lines.len(),
            all == texts(lines),
            comment@ == "// "@,
            end@ == "// END"@,
            output_block_text(all) == out@ + output_block_text(all.skip(i as int)),
            output_block_end(all) == output_block_end(all.skip(i as int)),
        decreases lines.len() - i,
    {
        let line = chars_of(lines[i].as_str());
        assert(all.skip(i as int)[0] == line@);
        assert(all.skip(i as int).skip(1) == all.skip(i as int + 1));
        if same_chars(line.as_slice(), end.as_slice()) {
            return (out, BlockEnd::Closed);
        }
        if !has_prefix(line.as_slice(), comment.as_slice()) {
            return (out, BlockEnd::Broken);
        }
        let ghost before = out@;
        let text = slice_subrange(line.as_slice(), comment.len(), line.len());
        assert(text@ == line@.skip(comment@.len() as int));
        crate::text::append_chars(&mut out, text);
        crate::text::push_char(&mut out, '\n');
        assert(out@ + output_block_text(all.skip(i as int + 1)) == before + (text@ + seq!['\n']
            + output_block_text(all.skip(i as int + 1))));
        i += 1;
    }
    (out, BlockEnd::Unclosed)
}

/// Whether a character takes one byte in UTF-8.
pub open spec fn is_one_byte(c: char) -> bool {
    (c as u32) < 0x80
}

/// The output that `// output: ` asks for, given what follows it on the first line
/// and the lines after the first.
pub open spec fn expected_output_text(rest: Seq<char>, following: Seq<Seq<char>>) -> Result<
    Seq<char>,
    DirectiveError,
> {
    let begin = "BEGIN: "@;
    let end = "END"@;
    if rest.len() == 0 {
        Ok(Seq::empty())
    } else if begin.is_prefix_of(rest) && end.is_suffix_of(rest) {
        let cut = rest.len() - end.len() - 1;
        if begin.len() <= cut && is_one_byte(rest[cut]) {
            Ok(rest.subrange(begin.len() as int, cut))
        } else {
            Err(DirectiveError::MalformedOutput)
        }
    } else if rest == "BEGIN:"@ {
        Ok(output_block_text(following))
    } else if begin.is_prefix_of(rest) {
        Ok(rest.skip(begin.len() as int) + output_block_text(following))
    } else {
        Ok(rest.push('\n'))
    }
}

/// Works out the output that a test with an `// output: ` directive must print.
/// `rest` is what follows `// output: ` on the first line, `following` the lines after it.
pub fn expected_output(rest: &str, following: &Vec<String>) -> (r: Result<String, DirectiveError>)
    ensures
        match r {
            Ok(text) => expected_output_text(rest@, texts(following)) == Ok::<
                Seq<char>,
                DirectiveError,
            >(text@),
            Err(e) => expected_output_text(rest@, texts(following)) == Err::<
                Seq<char>,
                DirectiveError,
            >(e),
        },
{
    let rest = chars_of(rest);
    expected_output_chars(rest.as_slice(), following)
}

fn expected_output_chars(rest: &[char], following: &Vec<String>) -> (r: Result<
    String,
    DirectiveError,
>)
    ensures
        match r {
            Ok(text) => expected_output_text(rest@, texts(following)) == Ok::<
                Seq<char>,
                DirectiveError,
            >(text@),
            Err(e) => expected_output_text(rest@, texts(following)) == Err::<
                Seq<char>,
                DirectiveError,
            >(e),
        },
{
    let begin = chars_of("BEGIN: ");
    let end = chars_of("END");
    let bare_begin = chars_of("BEGIN:");
    if rest.len() == 0 {
        Ok(String::new())
    } else if has_prefix(rest, begin.as_slice()) && has_suffix(rest, end.as_slice()) {
        if rest.len() - end.len() > begin.len() && (rest[rest.len() - end.len() - 1] as u32)
            < 0x80 {
            Ok(string_of(slice_subrange(rest, begin.len(), rest.len() - end.len() - 1)))
        } else {
            Err(DirectiveError::MalformedOutput)
        }
    } else if same_chars(rest, bare_begin.as_slice()) {
        Ok(output_block(following).0)
    } else if has_prefix(rest, begin.as_slice()) {
        let mut out = string_of(slice_subrange(rest, begin.len(), rest.len()));
        let block = output_block(following).0;
        out.append(block.as_str());
        Ok(out)
    } else {
        let mut out = string_of(rest);
        crate::text::push_char(&mut out, '\n');
        Ok(out)
    }
}

/// Whether an address names an issue: whether it starts with `https://` or `http://`.
pub open spec fn is_issue_address(url: Seq<char>) -> bool {
    "https://"@.is_prefix_of(url) || "http://"@.is_prefix_of(url)
}

/// What follows a directive's keyword on its line, without the white space around it.
pub open spec fn argument(line: Seq<char>, keyword: Seq<char>) -> Seq<char> {
    trim(strip_prefixes(line, keyword))
}

/// The directives that a first line can hold.
#[derive(Clone, Copy, Debug, PartialEq, Eq, Structural)]
pub enum Directive {
    /// `// compile`
    Compile,
    /// `// no-main`
    NoMain,
    /// `// fail`, `// compile-fail` or `// compile-error`
    Fail,
    /// `// succeeds`
    Succeeds,
    /// `// crash`
    Crash,
    /// `// stack-overflow`
    StackOverflow,
    /// `// ignore`
    Ignore,
    /// `// code: `, with something after it
    Code,
    /// `// errors: `, with something after it
    Errors,
    /// `// ignore: `, with something after it
    IgnoreIssue,
    /// `// output: `, with something after it
    Output,
}

/// The directive that a line holds, the line taken without the white space around it.
pub open spec fn directive_of(line: Seq<char>) -> Option<Directive> {
    if line == "// compile"@ {
        Some(Directive::Compile)
    } else if line == "// no-main"@ {
        Some(Directive::NoMain)
    } else if line == "// fail"@ || line == "// compile-fail"@ || line == "// compile-error"@ {
        Some(Directive::Fail)
    } else if line == "// succeeds"@ {
        Some(Directive::Succeeds)
    } else if line == "// crash"@ {
        Some(Directive::Crash)
    } else if line == "// stack-overflow"@ {
        Some(Directive::StackOverflow)
    } else if line == "// ignore"@ {
        Some(Directive::Ignore)
    } else if "// code: "@.is_prefix_of(line) {
        Some(Directive::Code)
    } else if "// errors: "@.is_prefix_of(line) {
        Some(Directive::Errors)
    } else if "// ignore: "@.is_prefix_of(line) {
        Some(Directive::IgnoreIssue)
    } else if "// output: "@.is_prefix_of(line) {
        Some(Directive::Output)
    } else {
        None
    }
}

/// What follows `// output: ` on a line that starts with it.
pub open spec fn output_rest(line: Seq<char>) -> Seq<char> {
    line.skip("// output: "@.len() as int)
}

/// The outcome that the first line of a test program asks for, given the lines after it.
pub open spec fn expectation_of(first_line: Seq<char>, following: Seq<Seq<char>>) -> Result<
    ExpectationView,
    DirectiveError,
> {
    let line = trim(first_line);
    match directive_of(line) {
        None => Err(DirectiveError::Unrecognized),
        Some(Directive::Compile) => Ok(ExpectationView::Compiles),
        Some(Directive::NoMain) => Ok(ExpectationView::CompilesWithoutMain),
        Some(Directive::Fail) => Ok(ExpectationView::CompileError),
        Some(Directive::Succeeds) => Ok(ExpectationView::Succeeds),
        Some(Directive::Crash) => Ok(ExpectationView::Crashes),
        Some(Directive::StackOverflow) => Ok(ExpectationView::StackOverflow),
        Some(Directive::Ignore) => Ok(ExpectationView::Ignored),
        Some(Directive::Code) => match unsigned_value(
            argument(line, "// code: "@),
            u8::MAX as nat,
        ) {
            Some(code) => Ok(ExpectationView::ExitCode(code as u8)),
            None => Err(DirectiveError::ExpectedCode),
        },
        Some(Directive::Errors) => match unsigned_value(
            argument(line, "// errors: "@),
            usize::MAX as nat,
        ) {
            Some(count) => Ok(ExpectationView::ErrorCount(count as usize)),
            None => Err(DirectiveError::ExpectedErrorCount),
        },
        Some(Directive::IgnoreIssue) => {
            let url = argument(line, "// ignore: "@);
            if is_issue_address(url) {
                Ok(ExpectationView::IgnoredForIssue(url))
            } else {
                Err(DirectiveError::IgnoreWithoutIssue)
            }
        },
        Some(Directive::Output) => match expected_output_text(output_rest(line), following) {
            Ok(text) => Ok(ExpectationView::Output(text)),
            Err(e) => Err(e),
        },
    }
}

/// Whether the output that `// output: ` asks for goes on in a block of comment lines.
pub open spec fn reads_block(rest: Seq<char>) -> bool {
    let begin = "BEGIN: "@;
    &&& rest.len() > 0
    &&& !(begin.is_prefix_of(rest) && "END"@.is_suffix_of(rest))
    &&& (rest == "BEGIN:"@ || begin.is_prefix_of(rest))
}

/// How the block of output lines ends that the first line of a test program opens, if
/// it opens one.
pub open spec fn block_end_of(first_line: Seq<char>, following: Seq<Seq<char>>) -> Option<
    BlockEnd,
> {
    let line = trim(first_line);
    if directive_of(line) == Some(Directive::Output) && reads_block(output_rest(line)) {
        Some(output_block_end(following))
    } else {
        None
    }
}

fn is_text(line: &[char], text: &str) -> (r: bool)
    ensures
        r == (line@ == text@),
{
    let text = chars_of(text);
    same_chars(line, text.as_slice())
}

fn begins_with(line: &[char], text: &str) -> (r: bool)
    ensures
        r == text@.is_prefix_of(line@),
{
    let text = chars_of(text);
    has_prefix(line, text.as_slice())
}

fn argument_of<'a>(line: &'a [char], keyword: &str) -> (r: &'a [char])
    ensures
        r@ == argument(line@, keyword@),
{
    let keyword = chars_of(keyword);
    trimmed(without_prefixes(line, keyword.as_slice()))
}

fn rest_of_output(line: &[char]) -> (r: &[char])
    requires
        "// output: "@.is_prefix_of(line@),
    ensures
        r@ == output_rest(line@),
{
    let keyword = chars_of("// output: ");
    slice_subrange(line, keyword.len(), line.len())
}

/// Finds the directive that a line holds, the line taken without the white space around it.
pub fn directive(line: &[char]) -> (r: Option<Directive>)
    ensures
        r == directive_of(line@),
{
    if is_text(line, "// compile") {
        Some(Directive::Compile)
    } else if is_text(line, "// no-main") {
        Some(Directive::NoMain)
    } else if is_text(line, "// fail") || is_text(line, "// compile-fail") || is_text(
        line,
        "// compile-error",
    ) {
        Some(Directive::Fail)
    } else if is_text(line, "// succeeds") {
        Some(Directive::Succeeds)
    } else if is_text(line, "// crash") {
        Some(Directive::Crash)
    } else if is_text(line, "// stack-overflow") {
        Some(Directive::StackOverflow)
    } else if is_text(line, "// ignore") {
        Some(Directive::Ignore)
    } else if begins_with(line, "// code: ") {
        Some(Directive::Code)
    } else if begins_with(line, "// errors: ") {
        Some(Directive::Errors)
    } else if begins_with(line, "// ignore: ") {
        Some(Directive::IgnoreIssue)
    } else if begins_with(line, "// output: ") {
        Some(Directive::Output)
    } else {
        None
    }
}

/// Reads the directive on the first line of a test program. `first_line` may still have
/// its line end; `following` holds the lines after it, without theirs.
pub fn expectation(first_line: &str, following: &Vec<String>) -> (r: Result<
    Expectation,
    DirectiveError,
>)
    ensures
        match r {
            Ok(expected) => expectation_of(first_line@, texts(following)) == Ok::<
                ExpectationView,
                DirectiveError,
            >(expected@),
            Err(e) => expectation_of(first_line@, texts(following)) == Err::<
                ExpectationView,
                DirectiveError,
            >(e),
        },
{
    let chars = chars_of(first_line);
    let line = trimmed(chars.as_slice());
    match directive(line) {
        None => Err(DirectiveError::Unrecognized),
        Some(Directive::Compile) => Ok(Expectation::Compiles),
        Some(Directive::NoMain) => Ok(Expectation::CompilesWithoutMain),
        Some(Directive::Fail) => Ok(Expectation::CompileError),
        Some(Directive::Succeeds) => Ok(Expectation::Succeeds),
        Some(Directive::Crash) => Ok(Expectation::Crashes),
        Some(Directive::StackOverflow) => Ok(Expectation::StackOverflow),
        Some(Directive::Ignore) => Ok(Expectation::Ignored),
        Some(Directive::Code) => match parse_unsigned(argument_of(line, "// code: "), 255) {
            Some(code) => Ok(Expectation::ExitCode(code as u8)),
            None => Err(DirectiveError::ExpectedCode),
        },
        Some(Directive::Errors) => match parse_unsigned(
            argument_of(line, "// errors: "),
            usize::MAX as u64,
        ) {
            Some(count) => Ok(Expectation::ErrorCount(count as usize)),
            None => Err(DirectiveError::ExpectedErrorCount),
        },
        Some(Directive::IgnoreIssue) => {
            let url = argument_of(line, "// ignore: ");
            if begins_with(url, "https://") || begins_with(url, "http://") {
                Ok(Expectation::IgnoredForIssue(string_of(url)))
            } else {
                Err(DirectiveError::IgnoreWithoutIssue)
            }
        },
        Some(Directive::Output) => match expected_output_chars(rest_of_output(line), following) {
            Ok(text) => Ok(Expectation::Output(text)),
            Err(e) => Err(e),
        },
    }
}

/// Says how the block of output lines ends that the first line of a test program opens.
/// `None` where the first line opens no block.
pub fn block_end(first_line: &str, following: &Vec<String>) -> (r: Option<BlockEnd>)
    ensures
        r == block_end_of(first_line@, texts(following)),
{
    let chars = chars_of(first_line);
    let line = trimmed(chars.as_slice());
    match directive(line) {
        Some(Directive::Output) => {
            let rest = rest_of_output(line);
            let one_line = begins_with(rest, "BEGIN: ") && has_suffix(
                rest,
                chars_of("END").as_slice(),
            );
            if rest.len() > 0 && !one_line && (is_text(rest, "BEGIN:") || begins_with(
                rest,
                "BEGIN: ",
            )) {
                Some(output_block(following).1)
            } else {
                None
            }
        },
        _ => None,
    }
}

} // verus!
