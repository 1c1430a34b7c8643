//! The source of the test harness: one test function for each test program, named after
//! its file.

use crate::text::{chars_of, has_prefix, push_char, same_chars};
use vstd::prelude::*;
use vstd::string::*;

verus! {

/// Whether a character is numeric, as `char::is_numeric` says.
pub uninterp spec fn char_is_numeric(c: char) -> bool;

/// `char::is_numeric`. Trusted: the answer depends on the character alone.
#[verifier::external_body]
fn is_numeric(c: char) -> (r: bool)
    ensures
        r == char_is_numeric(c),
{
    c.is_numeric()
}

/// `s` with `_` in place of every `-` and every `/`.
pub open spec fn underscored(s: Seq<char>) -> Seq<char> {
    s.map_values(
        |c: char|
            if c == '-' || c == '/' {
                '_'
            } else {
                c
            },
    )
}

/// `s` with `_if` in place of every `if`, read from the left.
pub open spec fn guard_if(s: Seq<char>) -> Seq<char>
    decreases s.len(),
{
    if s.len() == 0 {
        Seq::empty()
    } else if s.len() >= 2 && s[0] == 'i' && s[1] == 'f' {
        "_if"@ + guard_if(s.skip(2))
    } else {
        seq![s[0]] + guard_if(s.skip(1))
    }
}

/// `name`, after a `_` where it starts with a digit.
pub open spec fn guard_digit(name: Seq<char>, starts_with_digit: bool) -> Seq<char> {
    if starts_with_digit {
        "_"@ + name
    } else {
        name
    }
}

/// The name of the test for a file, given the file's name without its extension.
pub open spec fn test_name(stem: Seq<char>) -> Seq<char> {
    let name = guard_if(underscored(stem));
    guard_digit(name, name.len() > 0 && char_is_numeric(name[0]))
}

/// Puts a `_` before a name that starts with a digit.
pub fn guarded(name: String, starts_with_digit: bool) -> (r: String)
    ensures
        r@ == guard_digit(name@, starts_with_digit),
{
    if starts_with_digit {
        let mut r = String::from_str("_");
        r.append(name.as_str());
        r
    } else {
        name
    }
}

/// Extract a valid Rust identifier from the stem of a path.
pub fn extract_name(stem: &str) -> (r: String)
    ensures
        r@ == test_name(stem@),
{
    let chars = chars_of(stem);
    let mut name = String::new();
    let mut i: usize = 0;
    let ghost all = underscored(stem@);
    assert(all.skip(0) == all);
    assert(name@ + guard_if(all) == guard_if(all));
    while i < chars.len()
        invariant
            i <= chars.len(),
            chars@ == stem@,
            all == underscored(stem@),
            guard_if(all) == name@ + guard_if(all.skip(i as int)),
        decreases chars.len() - i,
    {
        let ghost before = name@;
        let ghost rest = all.skip(i as int);
        if chars[i] == 'i' && i + 1 < chars.len() && chars[i + 1] == 'f' {
            name.append("_if");
            proof {
                assert(rest[0] == 'i' && rest[1] == 'f');
                assert(rest.skip(2) == all.skip(i as int + 2));
                assert(name@ + guard_if(all.skip(i as int + 2)) == before + ("_if"@ + guard_if(
                    all.skip(i as int + 2),
                )));
            }
            i += 2;
        } else {
            let c = if chars[i] == '-' || chars[i] == '/' {
                '_'
            } else {
                chars[i]
            };
            push_char(&mut name, c);
            proof {
                assert(rest[0] == c);
                assert(rest.len() >= 2 ==> rest[1] == all[i as int + 1]);
                assert(rest.skip(1) == all.skip(i as int + 1));
                assert(name@ + guard_if(all.skip(i as int + 1)) == before + (seq![c] + guard_if(
                    all.skip(i as int + 1),
                )));
            }
            i += 1;
        }
    }
    assert(name@ + Seq::<char>::empty() == name@);
    let starts_with_digit = match name.as_str().unicode_len() {
        0 => false,
        _ => is_numeric(name.as_str().get_char(0)),
    };
    guarded(name, starts_with_digit)
}

/// Whether an entry of a test directory is taken into the suite: an entry with the
/// extension `c` or with none, whose name does not start with a dot. Directories are
/// entries without an extension.
pub open spec fn test_entry(extension: Option<Seq<char>>, stem: Seq<char>) -> bool {
    &&& extension matches Some(e) ==> e == "c"@
    &&& !"."@.is_prefix_of(stem)
}

/// Decides whether an entry of a test directory is taken into the suite, given the
/// extension of its name, if it has one, and the name without it.
pub fn is_test_entry(extension: Option<&str>, stem: &str) -> (r: bool)
    ensures
        r == test_entry(
            match extension {
                Some(e) => Some(e@),
                None => None,
            },
            stem@,
        ),
{
    let c_file = match extension {
        Some(e) => same_chars(chars_of(e).as_slice(), chars_of("c").as_slice()),
        None => true,
    };
    c_file && !has_prefix(chars_of(stem).as_slice(), chars_of(".").as_slice())
}

/// The source of the test for one test program.
pub open spec fn test_source(name: Seq<char>, path: Seq<char>) -> Seq<char> {
    "#[test]\nfn r#"@ + name + "() {\n    crate::run_test(r#\""@ + path + "\"#).unwrap();\n}\n\n"@
}

/// Writes the test for the program at `path` at the end of `out`.
pub fn build_test(out: &mut String, name: &str, path: &str)
    ensures
        final(out)@ == old(out)@ + test_source(name@, path@),
{
    out.append("#[test]\nfn r#");
    out.append(name);
    out.append("() {\n    crate::run_test(r#\"");
    out.append(path);
    out.append("\"#).unwrap();\n}\n\n");
    assert(out@ == old(out)@ + test_source(name@, path@));
}

/// What opens the module with the tests of one directory.
pub open spec fn module_start(name: Seq<char>) -> Seq<char> {
    "mod "@ + name + " {\n"@
}

/// Writes what opens the module with the tests of one directory at the end of `out`.
pub fn open_module(out: &mut String, name: &str)
    ensures
        final(out)@ == old(out)@ + module_start(name@),
{
    out.append("mod ");
    out.append(name);
    out.append(" {\n");
    assert(out@ == old(out)@ + module_start(name@));
}

/// Writes what closes a module at the end of `out`.
pub fn close_module(out: &mut String)
    ensures
        final(out)@ == old(out)@ + "}\n"@,
{
    out.append("}\n");
}

} // verus!
