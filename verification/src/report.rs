//! Diagnostics as the user reads them: `<file>:<line>:<col>: <severity>: <message>`.

use crate::error::{CompileError, CompileWarning};
use crate::intern::Interner;
use crate::location::{line_column, line_column_of, LineColumn};
use crate::text::{append_decimal, decimal};
use vstd::prelude::*;
use vstd::string::*;

verus! {

/// How grave a diagnostic is.
#[derive(Clone, Copy, Debug, PartialEq, Eq, Hash, Structural)]
pub enum Severity {
    /// The translation unit fails.
    Error,
    /// The translation unit goes on.
    Warning,
}

impl Severity {
    /// The word for the severity.
    pub open spec fn text(self) -> Seq<char> {
        match self {
            Severity::Error => "error"@,
            Severity::Warning => "warning"@,
        }
    }

    /// The text as a string slice.
    pub fn spelling(self) -> (s: &'static str)
        ensures
            s@ == self.text(),
    {
        match self {
            Severity::Error => "error",
            Severity::Warning => "warning",
        }
    }
}

/// The line that reports a diagnostic.
pub open spec fn diagnostic_line(
    file: Seq<char>,
    position: LineColumn,
    severity: Severity,
    message: Seq<char>,
) -> Seq<char> {
    file + ":"@ + decimal(position.line as nat) + ":"@ + decimal(position.column as nat) + ": "@
        + severity.text() + ": "@ + message
}

/// Renders the line that reports a diagnostic.
pub fn render(file: &str, position: LineColumn, severity: Severity, message: &str) -> (s: String)
    ensures
        s@ == diagnostic_line(file@, position, severity, message@),
{
    let mut s = String::from_str(file);
    s.append(":");
    append_decimal(&mut s, position.line as u64);
    s.append(":");
    append_decimal(&mut s, position.column as u64);
    s.append(": ");
    s.append(severity.spelling());
    s.append(": ");
    s.append(message);
    s
}

/// Whether a diagnostic that starts at `offset` can be placed in `source`.
pub open spec fn placeable(source: Seq<u8>, offset: int) -> bool {
    offset <= source.len() && offset < usize::MAX
}

/// Renders the line that reports an error found in `source`, the text of the file named
/// `file`. `None` if the error does not start within the text.
pub fn render_error(error: &CompileError, file: &str, source: &[u8], names: &Interner) -> (r:
    Option<String>)
    requires
        error.data.known(names@),
    ensures
        match r {
            Some(line) => placeable(source@, error.location.start as int) && line@
                == diagnostic_line(
                file@,
                line_column_of(source@, error.location.start as int),
                Severity::Error,
                error.data.text(names@),
            ),
            None => !placeable(source@, error.location.start as int),
        },
{
    match line_column(source, error.location.start as usize) {
        Some(position) => {
            let message = error.data.message(names);
            Some(render(file, position, Severity::Error, message.as_str()))
        },
        None => None,
    }
}

/// Renders the line that reports a warning given for `source`, the text of the file named
/// `file`. `None` if the warning does not start within the text.
pub fn render_warning(warning: &CompileWarning, file: &str, source: &[u8], names: &Interner) -> (r:
    Option<String>)
    requires
        warning.data.known(names@),
    ensures
        match r {
            Some(line) => placeable(source@, warning.location.start as int) && line@
                == diagnostic_line(
                file@,
                line_column_of(source@, warning.location.start as int),
                Severity::Warning,
                warning.data.text(names@),
            ),
            None => !placeable(source@, warning.location.start as int),
        },
{
    match line_column(source, warning.location.start as usize) {
        Some(position) => {
            let message = warning.data.message(names);
            Some(render(file, position, Severity::Warning, message.as_str()))
        },
        None => None,
    }
}

} // verus!
