//! Tokens: what the lexer hands to the preprocessor and the parser.

use crate::intern::{InternedStr, Interner};
use crate::text::{append_numeral, numeral, numeral_char, push_char};
use vstd::prelude::*;
use vstd::string::*;

verus! {

/// The base that a number is written in.
#[derive(Clone, Copy, Debug, PartialEq, Eq, Hash, Structural)]
pub enum Radix {
    Binary,
    Octal,
    Decimal,
    Hexadecimal,
}

impl Radix {
    /// The name of the base, as diagnostics print it.
    pub open spec fn text(self) -> Seq<char> {
        match self {
            Radix::Binary => "binary"@,
            Radix::Octal => "octal"@,
            Radix::Decimal => "decimal"@,
            Radix::Hexadecimal => "hexadecimal"@,
        }
    }

    /// The text as a string slice.
    pub fn spelling(self) -> (s: &'static str)
        ensures
            s@ == self.text(),
    {
        match self {
            Radix::Binary => "binary",
            Radix::Octal => "octal",
            Radix::Decimal => "decimal",
            Radix::Hexadecimal => "hexadecimal",
        }
    }
}
impl Radix {
    /// The base as a number.
    pub open spec fn base(self) -> nat {
        match self {
            Radix::Binary => 2,
            Radix::Octal => 8,
            Radix::Decimal => 10,
            Radix::Hexadecimal => 16,
        }
    }

    /// The base as a number.
    pub fn as_u64(self) -> (b: u64)
        ensures
            b == self.base(),
    {
        match self {
            Radix::Binary => 2,
            Radix::Octal => 8,
            Radix::Decimal => 10,
            Radix::Hexadecimal => 16,
        }
    }

    /// What an integer literal in this base starts with.
    pub open spec fn prefix(self) -> Seq<char> {
        match self {
            Radix::Binary => "0b"@,
            Radix::Octal => "0"@,
            Radix::Decimal => ""@,
            Radix::Hexadecimal => "0x"@,
        }
    }

    /// What an integer literal in this base starts with.
    pub fn prefix_spelling(self) -> (s: &'static str)
        ensures
            s@ == self.prefix(),
    {
        match self {
            Radix::Binary => "0b",
            Radix::Octal => "0",
            Radix::Decimal => "",
            Radix::Hexadecimal => "0x",
        }
    }
}

/// The keywords of C.
#[derive(Clone, Copy, Debug, PartialEq, Eq, Hash, Structural)]
pub enum Keyword {
    Auto,
    Break,
    Case,
    Char,
    Const,
    Continue,
    Default,
    Do,
    Double,
    Else,
    Enum,
    Extern,
    Float,
    For,
    Goto,
    If,
    Inline,
    Int,
    Long,
    Register,
    Restrict,
    Return,
    Short,
    Signed,
    Sizeof,
    Static,
    Struct,
    Switch,
    Typedef,
    Union,
    Unsigned,
    Void,
    Volatile,
    While,
    Bool,
    Complex,
    Imaginary,
}

impl Keyword {
    /// The keyword as it is written.
    pub open spec fn text(self) -> Seq<char> {
        match self {
            Keyword::Auto => "auto"@,
            Keyword::Break => "break"@,
            Keyword::Case => "case"@,
            Keyword::Char => "char"@,
            Keyword::Const => "const"@,
            Keyword::Continue => "continue"@,
            Keyword::Default => "default"@,
            Keyword::Do => "do"@,
            Keyword::Double => "double"@,
            Keyword::Else => "else"@,
            Keyword::Enum => "enum"@,
            Keyword::Extern => "extern"@,
            Keyword::Float => "float"@,
            Keyword::For => "for"@,
            Keyword::Goto => "goto"@,
            Keyword::If => "if"@,
            Keyword::Inline => "inline"@,
            Keyword::Int => "int"@,
            Keyword::Long => "long"@,
            Keyword::Register => "register"@,
            Keyword::Restrict => "restrict"@,
            Keyword::Return => "return"@,
            Keyword::Short => "short"@,
            Keyword::Signed => "signed"@,
            Keyword::Sizeof => "sizeof"@,
            Keyword::Static => "static"@,
            Keyword::Struct => "struct"@,
            Keyword::Switch => "switch"@,
            Keyword::Typedef => "typedef"@,
            Keyword::Union => "union"@,
            Keyword::Unsigned => "unsigned"@,
            Keyword::Void => "void"@,
            Keyword::Volatile => "volatile"@,
            Keyword::While => "while"@,
            Keyword::Bool => "_Bool"@,
            Keyword::Complex => "_Complex"@,
            Keyword::Imaginary => "_Imaginary"@,
        }
    }

    /// The text as a string slice.
    pub fn spelling(self) -> (s: &'static str)
        ensures
            s@ == self.text(),
    {
        match self {
            Keyword::Auto => "auto",
            Keyword::Break => "break",
            Keyword::Case => "case",
            Keyword::Char => "char",
            Keyword::Const => "const",
            Keyword::Continue => "continue",
            Keyword::Default => "default",
            Keyword::Do => "do",
            Keyword::Double => "double",
            Keyword::Else => "else",
            Keyword::Enum => "enum",
            Keyword::Extern => "extern",
            Keyword::Float => "float",
            Keyword::For => "for",
            Keyword::Goto => "goto",
            Keyword::If => "if",
            Keyword::Inline => "inline",
            Keyword::Int => "int",
            Keyword::Long => "long",
            Keyword::Register => "register",
            Keyword::Restrict => "restrict",
            Keyword::Return => "return",
            Keyword::Short => "short",
            Keyword::Signed => "signed",
            Keyword::Sizeof => "sizeof",
            Keyword::Static => "static",
            Keyword::Struct => "struct",
            Keyword::Switch => "switch",
            Keyword::Typedef => "typedef",
            Keyword::Union => "union",
            Keyword::Unsigned => "unsigned",
            Keyword::Void => "void",
            Keyword::Volatile => "volatile",
            Keyword::While => "while",
            Keyword::Bool => "_Bool",
            Keyword::Complex => "_Complex",
            Keyword::Imaginary => "_Imaginary",
        }
    }
}
/// The comparison operators.
#[derive(Clone, Copy, Debug, PartialEq, Eq, Hash, Structural)]
pub enum ComparisonToken {
    Less,
    Greater,
    EqualEqual,
    NotEqual,
    LessEqual,
    GreaterEqual,
}

impl ComparisonToken {
    /// The operator as it is written.
    pub open spec fn text(self) -> Seq<char> {
        match self {
            ComparisonToken::Less => "<"@,
            ComparisonToken::Greater => ">"@,
            ComparisonToken::EqualEqual => "=="@,
            ComparisonToken::NotEqual => "!="@,
            ComparisonToken::LessEqual => "<="@,
            ComparisonToken::GreaterEqual => ">="@,
        }
    }

    /// The text as a string slice.
    pub fn spelling(self) -> (s: &'static str)
        ensures
            s@ == self.text(),
    {
        match self {
            ComparisonToken::Less => "<",
            ComparisonToken::Greater => ">",
            ComparisonToken::EqualEqual => "==",
            ComparisonToken::NotEqual => "!=",
            ComparisonToken::LessEqual => "<=",
            ComparisonToken::GreaterEqual => ">=",
        }
    }
}
/// The punctuators of C, but for the comparison operators.
#[derive(Clone, Copy, Debug, PartialEq, Eq, Hash, Structural)]
pub enum Punctuator {
    LeftBracket,
    RightBracket,
    LeftParen,
    RightParen,
    LeftBrace,
    RightBrace,
    Dot,
    Arrow,
    PlusPlus,
    MinusMinus,
    Ampersand,
    Star,
    Plus,
    Minus,
    Tilde,
    Bang,
    Slash,
    Percent,
    ShiftLeft,
    ShiftRight,
    Caret,
    Pipe,
    AndAnd,
    OrOr,
    Question,
    Colon,
    Semicolon,
    Ellipsis,
    Equal,
    StarEqual,
    SlashEqual,
    PercentEqual,
    PlusEqual,
    MinusEqual,
    ShiftLeftEqual,
    ShiftRightEqual,
    AmpersandEqual,
    CaretEqual,
    PipeEqual,
    Comma,
    Hash,
    HashHash,
}

impl Punctuator {
    /// The punctuator as it is written.
    pub open spec fn text(self) -> Seq<char> {
        match self {
            Punctuator::LeftBracket => "["@,
            Punctuator::RightBracket => "]"@,
            Punctuator::LeftParen => "("@,
            Punctuator::RightParen => ")"@,
            Punctuator::LeftBrace => "{"@,
            Punctuator::RightBrace => "}"@,
            Punctuator::Dot => "."@,
            Punctuator::Arrow => "->"@,
            Punctuator::PlusPlus => "++"@,
            Punctuator::MinusMinus => "--"@,
            Punctuator::Ampersand => "&"@,
            Punctuator::Star => "*"@,
            Punctuator::Plus => "+"@,
            Punctuator::Minus => "-"@,
            Punctuator::Tilde => "~"@,
            Punctuator::Bang => "!"@,
            Punctuator::Slash => "/"@,
            Punctuator::Percent => "%"@,
            Punctuator::ShiftLeft => "<<"@,
            Punctuator::ShiftRight => ">>"@,
            Punctuator::Caret => "^"@,
            Punctuator::Pipe => "|"@,
            Punctuator::AndAnd => "&&"@,
            Punctuator::OrOr => "||"@,
            Punctuator::Question => "?"@,
            Punctuator::Colon => ":"@,
            Punctuator::Semicolon => ";"@,
            Punctuator::Ellipsis => "..."@,
            Punctuator::Equal => "="@,
            Punctuator::StarEqual => "*="@,
            Punctuator::SlashEqual => "/="@,
            Punctuator::PercentEqual => "%="@,
            Punctuator::PlusEqual => "+="@,
            Punctuator::MinusEqual => "-="@,
            Punctuator::ShiftLeftEqual => "<<="@,
            Punctuator::ShiftRightEqual => ">>="@,
            Punctuator::AmpersandEqual => "&="@,
            Punctuator::CaretEqual => "^="@,
            Punctuator::PipeEqual => "|="@,
            Punctuator::Comma => ","@,
            Punctuator::Hash => "#"@,
            Punctuator::HashHash => "##"@,
        }
    }

    /// The text as a string slice.
    pub fn spelling(self) -> (s: &'static str)
        ensures
            s@ == self.text(),
    {
        match self {
            Punctuator::LeftBracket => "[",
            Punctuator::RightBracket => "]",
            Punctuator::LeftParen => "(",
            Punctuator::RightParen => ")",
            Punctuator::LeftBrace => "{",
            Punctuator::RightBrace => "}",
            Punctuator::Dot => ".",
            Punctuator::Arrow => "->",
            Punctuator::PlusPlus => "++",
            Punctuator::MinusMinus => "--",
            Punctuator::Ampersand => "&",
            Punctuator::Star => "*",
            Punctuator::Plus => "+",
            Punctuator::Minus => "-",
            Punctuator::Tilde => "~",
            Punctuator::Bang => "!",
            Punctuator::Slash => "/",
            Punctuator::Percent => "%",
            Punctuator::ShiftLeft => "<<",
            Punctuator::ShiftRight => ">>",
            Punctuator::Caret => "^",
            Punctuator::Pipe => "|",
            Punctuator::AndAnd => "&&",
            Punctuator::OrOr => "||",
            Punctuator::Question => "?",
            Punctuator::Colon => ":",
            Punctuator::Semicolon => ";",
            Punctuator::Ellipsis => "...",
            Punctuator::Equal => "=",
            Punctuator::StarEqual => "*=",
            Punctuator::SlashEqual => "/=",
            Punctuator::PercentEqual => "%=",
            Punctuator::PlusEqual => "+=",
            Punctuator::MinusEqual => "-=",
            Punctuator::ShiftLeftEqual => "<<=",
            Punctuator::ShiftRightEqual => ">>=",
            Punctuator::AmpersandEqual => "&=",
            Punctuator::CaretEqual => "^=",
            Punctuator::PipeEqual => "|=",
            Punctuator::Comma => ",",
            Punctuator::Hash => "#",
            Punctuator::HashHash => "##",
        }
    }
}
/// How a character constant writes a byte: printable characters but `'` and `\` as they
/// are, the usual escapes for the rest, and `\xHH` where there is none.
pub open spec fn escaped(byte: u8) -> Seq<char> {
    if byte == 0x27 {
        "\\'"@
    } else if byte == 0x5c {
        "\\\\"@
    } else if byte == 0x0a {
        "\\n"@
    } else if byte == 0x09 {
        "\\t"@
    } else if byte == 0x0d {
        "\\r"@
    } else if byte == 0 {
        "\\0"@
    } else if 0x20 <= byte <= 0x7e {
        seq![byte as char]
    } else {
        "\\x"@.push(numeral_char((byte / 16) as nat)).push(numeral_char((byte % 16) as nat))
    }
}

fn hex_digit(d: u8) -> (c: char)
    requires
        d < 16,
    ensures
        c == numeral_char(d as nat),
{
    if d < 10 {
        (d + 48u8) as char
    } else {
        (d + 87u8) as char
    }
}

/// Writes a byte at the end of `out` as a character constant writes it.
pub fn append_escaped(out: &mut String, byte: u8)
    ensures
        final(out)@ == old(out)@ + escaped(byte),
{
    if byte == 0x27 {
        out.append("\\'");
    } else if byte == 0x5c {
        out.append("\\\\");
    } else if byte == 0x0a {
        out.append("\\n");
    } else if byte == 0x09 {
        out.append("\\t");
    } else if byte == 0x0d {
        out.append("\\r");
    } else if byte == 0 {
        out.append("\\0");
    } else if 0x20 <= byte && byte <= 0x7e {
        push_char(out, byte as char);
        assert(old(out)@.push(byte as char) == old(out)@ + seq![byte as char]);
    } else {
        out.append("\\x");
        push_char(out, hex_digit(byte / 16));
        push_char(out, hex_digit(byte % 16));
        assert(out@ == old(out)@ + escaped(byte));
    }
}

/// A token of the C language.
#[derive(Clone, Copy, Debug, PartialEq, Eq, Hash, Structural)]
pub enum Token {
    /// An identifier.
    Id(InternedStr),
    Keyword(Keyword),
    /// An integer literal: its value, whether it is signed, and the base it was written in.
    Integer { value: u64, signed: bool, radix: Radix },
    /// A floating literal, as it was written.
    Float(InternedStr),
    /// A character literal: the byte it stands for.
    Char(u8),
    /// A string literal: what stands between its quotes.
    Str(InternedStr),
    Punctuator(Punctuator),
    Comparison(ComparisonToken),
}

impl Token {
    /// Whether `names` holds the strings that this token refers to.
    pub open spec fn known(self, names: Seq<Seq<char>>) -> bool {
        match self {
            Token::Id(name) => name.known(names),
            Token::Float(spelling) => spelling.known(names),
            Token::Str(contents) => contents.known(names),
            _ => true,
        }
    }

    /// The token as C source text. An integer literal is written in its base, with the
    /// base's prefix and, where it is unsigned, the suffix `u`.
    pub open spec fn text(self, names: Seq<Seq<char>>) -> Seq<char>
        recommends
            self.known(names),
    {
        match self {
            Token::Id(name) => name.text(names),
            Token::Keyword(keyword) => keyword.text(),
            Token::Integer { value, signed, radix } => radix.prefix() + numeral(
                value as nat,
                radix.base(),
            ) + (if signed {
                ""@
            } else {
                "u"@
            }),
            Token::Float(spelling) => spelling.text(names),
            Token::Char(byte) => "'"@ + escaped(byte) + "'"@,
            Token::Str(contents) => "\""@ + contents.text(names) + "\""@,
            Token::Punctuator(punctuator) => punctuator.text(),
            Token::Comparison(comparison) => comparison.text(),
        }
    }

    /// Whether `names` holds the strings that this token refers to.
    pub fn is_known(&self, names: &Interner) -> (r: bool)
        ensures
            r == self.known(names@),
    {
        match self {
            Token::Id(name) => names.knows(*name),
            Token::Float(spelling) => names.knows(*spelling),
            Token::Str(contents) => names.knows(*contents),
            _ => true,
        }
    }

    /// Writes the token at the end of `out`.
    pub fn append_to(&self, out: &mut String, names: &Interner)
        requires
            self.known(names@),
        ensures
            final(out)@ == old(out)@ + self.text(names@),
    {
        match self {
            Token::Id(name) => out.append(names.resolve(*name)),
            Token::Keyword(keyword) => out.append(keyword.spelling()),
            Token::Integer { value, signed, radix } => {
                out.append(radix.prefix_spelling());
                append_numeral(out, *value, radix.as_u64());
                out.append(if *signed {
                    ""
                } else {
                    "u"
                });
                assert(out@ == old(out)@ + self.text(names@));
            },
            Token::Float(spelling) => out.append(names.resolve(*spelling)),
            Token::Char(byte) => {
                out.append("'");
                append_escaped(out, *byte);
                out.append("'");
                assert(out@ == old(out)@ + self.text(names@));
            },
            Token::Str(contents) => {
                out.append("\"");
                out.append(names.resolve(*contents));
                out.append("\"");
                assert(out@ == old(out)@ + self.text(names@));
            },
            Token::Punctuator(punctuator) => out.append(punctuator.spelling()),
            Token::Comparison(comparison) => out.append(comparison.spelling()),
        }
    }

    /// The token as C source text.
    pub fn to_text(&self, names: &Interner) -> (s: String)
        requires
            self.known(names@),
        ensures
            s@ == self.text(names@),
    {
        let mut s = String::new();
        self.append_to(&mut s, names);
        s
    }
}

/// Whether `names` holds the strings that the tokens refer to.
pub open spec fn tokens_known(tokens: Seq<Token>, names: Seq<Seq<char>>) -> bool {
    forall|i: int| 0 <= i < tokens.len() ==> (#[trigger] tokens[i]).known(names)
}

/// The tokens as C source text, with a space between one and the next.
pub open spec fn tokens_text(tokens: Seq<Token>, names: Seq<Seq<char>>) -> Seq<char>
    decreases tokens.len(),
{
    if tokens.len() == 0 {
        Seq::empty()
    } else if tokens.len() == 1 {
        tokens[0].text(names)
    } else {
        tokens_text(tokens.drop_last(), names) + " "@ + tokens.last().text(names)
    }
}

/// Whether `names` holds the strings that the tokens refer to.
pub fn all_known(tokens: &Vec<Token>, names: &Interner) -> (r: bool)
    ensures
        r == tokens_known(tokens@, names@),
{
    let mut i: usize = 0;
    while i < tokens.len()
        invariant
            i <= tokens.len(),
            forall|j: int| 0 <= j < i ==> (#[trigger] tokens@[j]).known(names@),
        decreases tokens.len() - i,
    {
        if !tokens[i].is_known(names) {
            return false;
        }
        i += 1;
    }
    true
}

/// Writes the tokens at the end of `out`, with a space between one and the next.
pub fn append_tokens(out: &mut String, tokens: &Vec<Token>, names: &Interner)
    requires
        tokens_known(tokens@, names@),
    ensures
        final(out)@ == old(out)@ + tokens_text(tokens@, names@),
{
    let mut i: usize = 0;
    assert(tokens@.take(0) == Seq::<Token>::empty());
    assert(old(out)@ + Seq::<char>::empty() == old(out)@);
    while i < tokens.len()
        invariant
            i <= tokens.len(),
            tokens_known(tokens@, names@),
            out@ == old(out)@ + tokens_text(tokens@.take(i as int), names@),
        decreases tokens.len() - i,
    {
        let ghost before = tokens_text(tokens@.take(i as int), names@);
        if i > 0 {
            out.append(" ");
        }
        tokens[i].append_to(out, names);
        proof {
            let next = tokens@.take(i as int + 1);
            assert(next.drop_last() == tokens@.take(i as int));
            assert(next.last() == tokens@[i as int]);
            if i > 0 {
                assert(out@ == old(out)@ + (before + " "@ + tokens@[i as int].text(names@)));
            } else {
                assert(next[0] == tokens@[0]);
            }
        }
        i += 1;
    }
    assert(tokens@.take(tokens.len() as int) == tokens@);
}

} // verus!
