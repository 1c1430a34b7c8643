//! What diagnostics say of the typed program: storage classes, qualifiers, operators and
//! the names of types.

use crate::lex::ComparisonToken;
use vstd::prelude::*;
use vstd::string::*;

verus! {

/// The storage class of a declaration.
#[derive(Clone, Copy, Debug, PartialEq, Eq, Hash, Structural)]
pub enum StorageClass {
    Static,
    Extern,
    Auto,
    Register,
    Typedef,
}

impl StorageClass {
    /// The storage class as it is written.
    pub open spec fn text(self) -> Seq<char> {
        match self {
            StorageClass::Static => "static"@,
            StorageClass::Extern => "extern"@,
            StorageClass::Auto => "auto"@,
            StorageClass::Register => "register"@,
            StorageClass::Typedef => "typedef"@,
        }
    }

    /// The text as a string slice.
    pub fn spelling(self) -> (s: &'static str)
        ensures
            s@ == self.text(),
    {
        match self {
            StorageClass::Static => "static",
            StorageClass::Extern => "extern",
            StorageClass::Auto => "auto",
            StorageClass::Register => "register",
            StorageClass::Typedef => "typedef",
        }
    }
}
/// The qualifiers of a type.
#[derive(Clone, Copy, Debug, PartialEq, Eq, Hash, Structural)]
pub struct Qualifiers {
    pub c_const: bool,
    pub volatile: bool,
    pub restrict: bool,
}

/// `word` if `present`, after a space if something stands before it; nothing otherwise.
pub open spec fn listed(before: Seq<char>, present: bool, word: Seq<char>) -> Seq<char> {
    if !present {
        before
    } else if before.len() == 0 {
        word
    } else {
        before + " "@ + word
    }
}

fn list(out: &mut String, present: bool, word: &str)
    ensures
        final(out)@ == listed(old(out)@, present, word@),
{
    if present {
        if out.as_str().unicode_len() > 0 {
            out.append(" ");
        }
        out.append(word);
        assert(Seq::<char>::empty() + word@ == word@);
    }
}

impl Qualifiers {
    /// The qualifiers that are set, as they are written, in the order `const`, `volatile`,
    /// `restrict`, with a space between one and the next.
    pub open spec fn text(self) -> Seq<char> {
        listed(
            listed(listed(Seq::empty(), self.c_const, "const"@), self.volatile, "volatile"@),
            self.restrict,
            "restrict"@,
        )
    }

    /// The qualifiers that are set, as a string.
    pub fn to_text(&self) -> (s: String)
        ensures
            s@ == self.text(),
    {
        let mut s = String::new();
        list(&mut s, self.c_const, "const");
        list(&mut s, self.volatile, "volatile");
        list(&mut s, self.restrict, "restrict");
        s
    }
}

/// The specifiers that only a function can have.
#[derive(Clone, Copy, Debug, PartialEq, Eq, Hash, Structural)]
pub struct FunctionQualifiers {
    pub inline: bool,
    pub no_return: bool,
}

impl FunctionQualifiers {
    /// The specifiers that are set, as they are written, in the order `inline`,
    /// `_Noreturn`, with a space between them.
    pub open spec fn text(self) -> Seq<char> {
        listed(listed(Seq::empty(), self.inline, "inline"@), self.no_return, "_Noreturn"@)
    }

    /// The specifiers that are set, as a string.
    pub fn to_text(&self) -> (s: String)
        ensures
            s@ == self.text(),
    {
        let mut s = String::new();
        list(&mut s, self.inline, "inline");
        list(&mut s, self.no_return, "_Noreturn");
        s
    }
}

/// The binary operators of C.
#[derive(Clone, Copy, Debug, PartialEq, Eq, Hash, Structural)]
pub enum BinaryOp {
    Mul,
    Div,
    Mod,
    Add,
    Sub,
    Shl,
    Shr,
    Compare(ComparisonToken),
    BitwiseAnd,
    Xor,
    BitwiseOr,
    LogicalAnd,
    LogicalOr,
}

impl BinaryOp {
    /// The operator as it is written.
    pub open spec fn text(self) -> Seq<char> {
        match self {
            BinaryOp::Mul => "*"@,
            BinaryOp::Div => "/"@,
            BinaryOp::Mod => "%"@,
            BinaryOp::Add => "+"@,
            BinaryOp::Sub => "-"@,
            BinaryOp::Shl => "<<"@,
            BinaryOp::Shr => ">>"@,
            BinaryOp::Compare(comparison) => comparison.text(),
            BinaryOp::BitwiseAnd => "&"@,
            BinaryOp::Xor => "^"@,
            BinaryOp::BitwiseOr => "|"@,
            BinaryOp::LogicalAnd => "&&"@,
            BinaryOp::LogicalOr => "||"@,
        }
    }

    /// The text as a string slice.
    pub fn spelling(self) -> (s: &'static str)
        ensures
            s@ == self.text(),
    {
        match self {
            BinaryOp::Mul => "*",
            BinaryOp::Div => "/",
            BinaryOp::Mod => "%",
            BinaryOp::Add => "+",
            BinaryOp::Sub => "-",
            BinaryOp::Shl => "<<",
            BinaryOp::Shr => ">>",
            BinaryOp::Compare(comparison) => comparison.spelling(),
            BinaryOp::BitwiseAnd => "&",
            BinaryOp::Xor => "^",
            BinaryOp::BitwiseOr => "|",
            BinaryOp::LogicalAnd => "&&",
            BinaryOp::LogicalOr => "||",
        }
    }
}

/// A type as a diagnostic shows it: its name as the analyzer writes it for the target,
/// and whether it is a pointer type.
#[derive(Clone, Debug, PartialEq, Eq)]
pub struct TypeName {
    pub name: String,
    pub pointer: bool,
}

impl TypeName {
    /// A type by its name, and whether it is a pointer type.
    pub fn new(name: &str, pointer: bool) -> (r: TypeName)
        ensures
            r.name@ == name@,
            r.pointer == pointer,
    {
        TypeName { name: name.to_owned(), pointer }
    }

    /// The name of the type.
    pub open spec fn text(self) -> Seq<char> {
        self.name@
    }

    /// Whether the type is a pointer type.
    pub fn is_pointer(&self) -> (r: bool)
        ensures
            r == self.pointer,
    {
        self.pointer
    }
}

} // verus!
