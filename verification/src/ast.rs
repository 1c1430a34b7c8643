//! What diagnostics say of the syntax tree: declaration specifiers.

use crate::intern::{InternedStr, Interner};
use vstd::prelude::*;
use vstd::string::*;

verus! {

/// A declaration specifier that is one keyword.
#[derive(Clone, Copy, Debug, PartialEq, Eq, Hash, Structural)]
pub enum UnitSpecifier {
    Static,
    Extern,
    Register,
    Auto,
    Typedef,
    Const,
    Volatile,
    Restrict,
    Inline,
    Void,
    Bool,
    Char,
    Short,
    Int,
    Long,
    Float,
    Double,
    Signed,
    Unsigned,
}

impl UnitSpecifier {
    /// The specifier as it is written.
    pub open spec fn text(self) -> Seq<char> {
        match self {
            UnitSpecifier::Static => "static"@,
            UnitSpecifier::Extern => "extern"@,
            UnitSpecifier::Register => "register"@,
            UnitSpecifier::Auto => "auto"@,
            UnitSpecifier::Typedef => "typedef"@,
            UnitSpecifier::Const => "const"@,
            UnitSpecifier::Volatile => "volatile"@,
            UnitSpecifier::Restrict => "restrict"@,
            UnitSpecifier::Inline => "inline"@,
            UnitSpecifier::Void => "void"@,
            UnitSpecifier::Bool => "_Bool"@,
            UnitSpecifier::Char => "char"@,
            UnitSpecifier::Short => "short"@,
            UnitSpecifier::Int => "int"@,
            UnitSpecifier::Long => "long"@,
            UnitSpecifier::Float => "float"@,
            UnitSpecifier::Double => "double"@,
            UnitSpecifier::Signed => "signed"@,
            UnitSpecifier::Unsigned => "unsigned"@,
        }
    }

    /// The text as a string slice.
    pub fn spelling(self) -> (s: &'static str)
        ensures
            s@ == self.text(),
    {
        match self {
            UnitSpecifier::Static => "static",
            UnitSpecifier::Extern => "extern",
            UnitSpecifier::Register => "register",
            UnitSpecifier::Auto => "auto",
            UnitSpecifier::Typedef => "typedef",
            UnitSpecifier::Const => "const",
            UnitSpecifier::Volatile => "volatile",
            UnitSpecifier::Restrict => "restrict",
            UnitSpecifier::Inline => "inline",
            UnitSpecifier::Void => "void",
            UnitSpecifier::Bool => "_Bool",
            UnitSpecifier::Char => "char",
            UnitSpecifier::Short => "short",
            UnitSpecifier::Int => "int",
            UnitSpecifier::Long => "long",
            UnitSpecifier::Float => "float",
            UnitSpecifier::Double => "double",
            UnitSpecifier::Signed => "signed",
            UnitSpecifier::Unsigned => "unsigned",
        }
    }
}
/// One specifier of a declaration: a storage class, a type specifier, a qualifier or a
/// function specifier.
#[derive(Clone, Copy, Debug, PartialEq, Eq, Hash, Structural)]
pub enum DeclarationSpecifier {
    Unit(UnitSpecifier),
    /// `struct`, with its tag if it has one.
    Struct(Option<InternedStr>),
    /// `union`, with its tag if it has one.
    Union(Option<InternedStr>),
    /// `enum`, with its tag if it has one.
    Enum(Option<InternedStr>),
    /// The name of a typedef.
    Typedef(InternedStr),
}

/// A keyword, followed by a space and a tag if there is one.
pub open spec fn tagged(keyword: Seq<char>, tag: Option<InternedStr>, names: Seq<Seq<char>>) -> Seq<
    char,
> {
    match tag {
        Some(tag) => keyword + " "@ + tag.text(names),
        None => keyword,
    }
}

fn append_tagged(out: &mut String, keyword: &str, tag: &Option<InternedStr>, names: &Interner)
    requires
        tag matches Some(tag) ==> tag.known(names@),
    ensures
        final(out)@ == old(out)@ + tagged(keyword@, *tag, names@),
{
    out.append(keyword);
    match tag {
        Some(tag) => {
            out.append(" ");
            out.append(names.resolve(*tag));
            assert(out@ == old(out)@ + (keyword@ + " "@ + tag.text(names@)));
        },
        None => {},
    }
}

impl DeclarationSpecifier {
    /// Whether `names` holds the strings that this specifier refers to.
    pub open spec fn known(self, names: Seq<Seq<char>>) -> bool {
        match self {
            DeclarationSpecifier::Unit(_) => true,
            DeclarationSpecifier::Struct(tag) | DeclarationSpecifier::Union(tag)
            | DeclarationSpecifier::Enum(tag) => tag matches Some(tag) ==> tag.known(names),
            DeclarationSpecifier::Typedef(name) => name.known(names),
        }
    }

    /// The specifier as it is written.
    pub open spec fn text(self, names: Seq<Seq<char>>) -> Seq<char>
        recommends
            self.known(names),
    {
        match self {
            DeclarationSpecifier::Unit(unit) => unit.text(),
            DeclarationSpecifier::Struct(tag) => tagged("struct"@, tag, names),
            DeclarationSpecifier::Union(tag) => tagged("union"@, tag, names),
            DeclarationSpecifier::Enum(tag) => tagged("enum"@, tag, names),
            DeclarationSpecifier::Typedef(name) => name.text(names),
        }
    }

    /// Whether `names` holds the strings that this specifier refers to.
    pub fn is_known(&self, names: &Interner) -> (r: bool)
        ensures
            r == self.known(names@),
    {
        match self {
            DeclarationSpecifier::Unit(_) => true,
            DeclarationSpecifier::Struct(tag) | DeclarationSpecifier::Union(tag)
            | DeclarationSpecifier::Enum(tag) => match tag {
                Some(tag) => names.knows(*tag),
                None => true,
            },
            DeclarationSpecifier::Typedef(name) => names.knows(*name),
        }
    }

    /// Writes the specifier at the end of `out`.
    pub fn append_to(&self, out: &mut String, names: &Interner)
        requires
            self.known(names@),
        ensures
            final(out)@ == old(out)@ + self.text(names@),
    {
        match self {
            DeclarationSpecifier::Unit(unit) => out.append(unit.spelling()),
            DeclarationSpecifier::Struct(tag) => append_tagged(out, "struct", tag, names),
            DeclarationSpecifier::Union(tag) => append_tagged(out, "union", tag, names),
            DeclarationSpecifier::Enum(tag) => append_tagged(out, "enum", tag, names),
            DeclarationSpecifier::Typedef(name) => out.append(names.resolve(*name)),
        }
    }
}

} // verus!
