//! The diagnostics of the front end: what can be wrong with a program, and what is worth
//! a warning.
//!
//! Each stage has its own kind of error: [`LexError`] for the lexer, [`CppError`] for the
//! preprocessor, [`SyntaxError`] for the parser and [`SemanticError`] for the analyzer.
//! [`Error`] is any of them. Every diagnostic has a fixed text, which its `message`
//! renders; names are held as handles, so rendering takes the interner that gave them.

use crate::ast::{DeclarationSpecifier, UnitSpecifier};
use crate::hexfloat::{hex_float_message, hex_float_text};
use crate::hir::{BinaryOp, FunctionQualifiers, Qualifiers, StorageClass, TypeName};
use crate::intern::{InternedStr, Interner};
use crate::lex::{
    all_known, append_tokens, tokens_known, tokens_text, ComparisonToken, Keyword, Radix, Token,
};
use crate::location::{Locatable, Location};
use hexponent::ParseError;
use crate::text::{
    append_decimal, append_repeated, decimal, decimal_string, push_char, repeated,
};
use vstd::prelude::*;
use vstd::std_specs::convert::{FromSpecImpl, IntoSpec};
use vstd::string::*;

verus! {

/// What a stage gives back: its result, or the error that stopped it.
pub type CompileResult<T> = Result<T, CompileError>;

/// An error and the place where it was found.
pub type CompileError = Locatable<Error>;

/// A warning and the place that it is about.
pub type CompileWarning = Locatable<Warning>;

/// What follows the text of a refused implicit conversion: for a pointer type, the
/// advice to cast.
pub open spec fn cast_help(to: TypeName) -> Seq<char> {
    if to.pointer {
        ". help: use an explicit cast: ("@ + to.text() + ")"@
    } else {
        Seq::empty()
    }
}

fn append_cast_help(s: &mut String, to: &TypeName)
    ensures
        final(s)@ == old(s)@ + cast_help(*to),
{
    if to.is_pointer() {
        s.append(". help: use an explicit cast: (");
        s.append(to.name.as_str());
        s.append(")");
        assert(s@ == old(s)@ + cast_help(*to));
    } else {
        assert(old(s)@ + Seq::<char>::empty() == old(s)@);
    }
}

/// How a diagnostic names the token it found: the token, or `<end-of-file>`.
pub open spec fn found_text(found: Option<Token>, names: Seq<Seq<char>>) -> Seq<char> {
    match found {
        Some(token) => token.text(names),
        None => "<end-of-file>"@,
    }
}

fn append_found(s: &mut String, found: &Option<Token>, names: &Interner)
    requires
        found matches Some(token) ==> token.known(names@),
    ensures
        final(s)@ == old(s)@ + found_text(*found, names@),
{
    match found {
        Some(token) => token.append_to(s, names),
        None => s.append("<end-of-file>"),
    }
}

/// The word for the signedness of a literal that overflowed, if it is known.
pub open spec fn signedness(is_signed: Option<bool>) -> Seq<char> {
    match is_signed {
        Some(true) => "signed "@,
        Some(false) => "unsigned "@,
        None => ""@,
    }
}

fn signedness_word(is_signed: &Option<bool>) -> (s: &'static str)
    ensures
        s@ == signedness(*is_signed),
{
    match is_signed {
        Some(true) => "signed ",
        Some(false) => "unsigned ",
        None => "",
    }
}

/// What a warning adds for a specifier that stands more than twice.
pub open spec fn occurrences(count: nat) -> Seq<char> {
    if count > 1 {
        " occurs "@ + decimal(count) + " times"@
    } else {
        Seq::empty()
    }
}

fn append_occurrences(s: &mut String, count: usize)
    ensures
        final(s)@ == old(s)@ + occurrences(count as nat),
{
    if count > 1 {
        s.append(" occurs ");
        append_decimal(s, count as u64);
        s.append(" times");
        assert(s@ == old(s)@ + occurrences(count as nat));
    } else {
        assert(old(s)@ + Seq::<char>::empty() == old(s)@);
    }
}

/// What the analyzer can find wrong with a program.
///
/// Semantic errors are non-exhaustive and may have new variants added at any time.
#[derive(Clone, Debug, PartialEq)]
#[non_exhaustive]
pub enum SemanticError {
    Generic(String),

    // Declaration specifiers
    /// Two declaration specifiers that cannot stand together.
    InvalidSpecifier { existing: DeclarationSpecifier, new: DeclarationSpecifier },
    NotAQualifier(DeclarationSpecifier),
    /// More `long`s than a type can have; the payload is their number.
    TooLong(usize),
    ConflictingStorageClass(StorageClass, StorageClass),
    ConflictingType(TypeName, TypeName),
    CannotBeSigned(TypeName),
    ConflictingSigned,
    AutoAtGlobalScope,
    EmptyProgram,

    // Declarators
    NonIntegralLength,
    NegativeLength,
    ParameterStorageClass(StorageClass),
    DuplicateParameter(InternedStr),
    IllegalReturnType(TypeName),
    ArrayStoringFunction(TypeName),
    InvalidVoidParameter,
    VoidVarargs,
    VarargsWithoutParam,
    EnumOverflow,
    VoidType,

    // Expressions
    UndeclaredVar(InternedStr),
    TypedefInExpressionContext,
    IllegalStorageClass(StorageClass),
    IdInTypeName(InternedStr),
    NonIntegralExpr(TypeName),
    /// A conversion that is not made implicitly, from the first type to the second.
    InvalidCast(TypeName, TypeName),
    /// The payload says what cannot be assigned to.
    NotAssignable(String),
    InvalidAdd(BinaryOp, TypeName, TypeName),
    PointerAddUnknownSize(TypeName),
    NotAFunction(TypeName),
    /// A call with the wrong number of arguments: how many the call has, and how many the
    /// function takes.
    WrongArgumentNumber(usize, usize),
    IncompleteDefinitionUsed(TypeName),
    NotAMember(InternedStr, TypeName),
    NotAStruct(TypeName),
    NotAStructPointer(TypeName),
    NotAPointer(TypeName),
    /// The payload says what has no address.
    InvalidAddressOf(&'static str),
    InvalidIncrement(TypeName),
    NotArithmetic(TypeName),
    IncompatibleTypes(TypeName, TypeName),

    // Constant folding
    ConstOverflow { is_positive: bool },
    DivideByZero,
    NegativeShift { is_left: bool },
    TooManyShiftBits { is_left: bool, maximum: u64, ctype: TypeName, current: u64 },
    /// The payload is the expression as it was written.
    NotConstant(String),
    NullPointerDereference,
    InvalidRelationalType(ComparisonToken, TypeName, TypeName),
    FloatPointerCast(TypeName),
    NonScalarCast(TypeName),
    VoidCast,
    StructCast,

    // Control flow
    UnreachableStatement,
    /// A label that is declared twice; the payload is the number of the block that the
    /// code generator made for it.
    LabelRedeclaration(u32),
    UndeclaredLabel(InternedStr),
    CaseOutsideSwitch { is_default: bool },
    DuplicateCase { is_default: bool },

    // Initializers
    EmptyInitializer,
    AggregateInitializingScalar(TypeName, usize),
    TooManyMembers(usize, usize),

    // Function definitions
    InvalidFuncStorageClass(StorageClass),
    MissingParamName(usize, TypeName),
    ForwardDeclarationIncomplete(InternedStr, InternedStr),
    IllegalMainSignature,

    // Declarations
    Redefinition(InternedStr),
    /// A second declaration of a name that does not agree with the first; the payloads
    /// after the name describe the earlier and the later declaration.
    IncompatibleRedeclaration(InternedStr, String, String),
    FuncQualifiersNotAllowed(FunctionQualifiers),

    // Statements
    NonIntegralSwitch(TypeName),
    MissingReturnValue(InternedStr),
    ReturnFromVoid(InternedStr),
}

impl SemanticError {
    /// Whether `names` holds the strings that this value refers to.
    pub open spec fn known(self, names: Seq<Seq<char>>) -> bool {
        match self {
            SemanticError::InvalidSpecifier { existing, new } => {
                new.known(names)
                    && existing.known(names)
            },
            SemanticError::NotAQualifier(specifier) => specifier.known(names),
            SemanticError::DuplicateParameter(name) => name.known(names),
            SemanticError::UndeclaredVar(name) => name.known(names),
            SemanticError::NotAMember(member, _) => member.known(names),
            SemanticError::UndeclaredLabel(name) => name.known(names),
            SemanticError::ForwardDeclarationIncomplete(tag, used_in) => {
                tag.known(names)
                    && used_in.known(names)
            },
            SemanticError::Redefinition(name) => name.known(names),
            SemanticError::IncompatibleRedeclaration(name, _, _) => name.known(names),
            SemanticError::MissingReturnValue(function) => function.known(names),
            SemanticError::ReturnFromVoid(function) => function.known(names),
            _ => true,
        }
    }

    /// Whether `names` holds the strings that this value refers to.
    pub fn is_known(&self, names: &Interner) -> (r: bool)
        ensures
            r == self.known(names@),
    {
        match self {
            SemanticError::InvalidSpecifier { existing, new } => {
                new.is_known(names)
                    && existing.is_known(names)
            },
            SemanticError::NotAQualifier(specifier) => specifier.is_known(names),
            SemanticError::DuplicateParameter(name) => names.knows(*name),
            SemanticError::UndeclaredVar(name) => names.knows(*name),
            SemanticError::NotAMember(member, _) => names.knows(*member),
            SemanticError::UndeclaredLabel(name) => names.knows(*name),
            SemanticError::ForwardDeclarationIncomplete(tag, used_in) => {
                names.knows(*tag)
                    && names.knows(*used_in)
            },
            SemanticError::Redefinition(name) => names.knows(*name),
            SemanticError::IncompatibleRedeclaration(name, _, _) => names.knows(*name),
            SemanticError::MissingReturnValue(function) => names.knows(*function),
            SemanticError::ReturnFromVoid(function) => names.knows(*function),
            _ => true,
        }
    }

    /// What the diagnostic says.
    pub open spec fn text(self, names: Seq<Seq<char>>) -> Seq<char>
        recommends
            self.known(names),
    {
        match self {
            SemanticError::Generic(message) => message@,
            SemanticError::InvalidSpecifier { existing, new } => {
                "cannot combine '"@ + new.text(names) + "' specifier with previous '"@
                    + existing.text(names) + "' type specifier"@
            },
            SemanticError::NotAQualifier(specifier) => {
                "'"@ + specifier.text(names)
                    + "' is not a qualifier and cannot be used for pointers"@
            },
            SemanticError::TooLong(count) => {
                "'"@ + repeated("long"@, count as nat) + "' is too long for saltwater"@
            },
            SemanticError::ConflictingStorageClass(first, second) => {
                "conflicting storage classes '"@ + first.text() + "' and '"@ + second.text() + "'"@
            },
            SemanticError::ConflictingType(first, second) => {
                "conflicting types '"@ + first.text() + "' and '"@ + second.text() + "'"@
            },
            SemanticError::CannotBeSigned(ctype) => {
                "'"@ + ctype.text() + "' cannot be signed or unsigned"@
            },
            SemanticError::ConflictingSigned => "types cannot be both signed and unsigned"@,
            SemanticError::AutoAtGlobalScope => {
                "only function-scoped variables can have an `auto` storage class"@
            },
            SemanticError::EmptyProgram => "cannot have empty program"@,
            SemanticError::NonIntegralLength => "expected an integer"@,
            SemanticError::NegativeLength => "arrays must have a positive length"@,
            SemanticError::ParameterStorageClass(_) => {
                "function parameters always have a storage class of `auto`"@
            },
            SemanticError::DuplicateParameter(name) => {
                "duplicate parameter name '"@ + name.text(names) + "' in function declaration"@
            },
            SemanticError::IllegalReturnType(ctype) => {
                "functions cannot return '"@ + ctype.text() + "'"@
            },
            SemanticError::ArrayStoringFunction(ctype) => {
                "arrays cannot contain functions (got '"@ + ctype.text()
                    + "'). help: try storing array of pointer to function: (*{}[])(...)"@
            },
            SemanticError::InvalidVoidParameter => {
                "void must be the first and only parameter if specified"@
            },
            SemanticError::VoidVarargs => {
                "functions taking `void` must not have variadic arguments"@
            },
            SemanticError::VarargsWithoutParam => {
                "functions taking variadic arguments must have at least one parameter first"@
            },
            SemanticError::EnumOverflow => "overflow in enumeration constant"@,
            SemanticError::VoidType => "variable has incomplete type 'void'"@,
            SemanticError::UndeclaredVar(name) => {
                "use of undeclared identifier '"@ + name.text(names) + "'"@
            },
            SemanticError::TypedefInExpressionContext => "expected expression, got typedef"@,
            SemanticError::IllegalStorageClass(_) => "type casts cannot have a storage class"@,
            SemanticError::IdInTypeName(_) => "type casts cannot have a variable name"@,
            SemanticError::NonIntegralExpr(ctype) => {
                "expected integer, got '"@ + ctype.text() + "'"@
            },
            SemanticError::InvalidCast(from, to) => {
                "cannot implicitly convert '"@ + from.text() + "' to '"@ + to.text() + "'"@
                    + cast_help(to)
            },
            SemanticError::NotAssignable(reason) => "cannot assign to "@ + reason@,
            SemanticError::InvalidAdd(op, left, right) => {
                "invalid operators for '"@ + op.text()
                    + "' (expected either arithmetic types or pointer operation, got '"@
                    + left.text() + " "@ + op.text() + " "@ + right.text() + "'"@
            },
            SemanticError::PointerAddUnknownSize(ctype) => {
                "cannot perform pointer arithmetic when size of pointed type '"@ + ctype.text()
                    + "' is unknown"@
            },
            SemanticError::NotAFunction(ctype) => {
                "called object of type '"@ + ctype.text() + "' is not a function"@
            },
            SemanticError::WrongArgumentNumber(actual, expected) => {
                "too "@ + (if actual > expected { "many"@ } else { "few"@ })
                    + " arguments to function call: expected "@ + decimal(expected as nat)
                    + ", have "@ + decimal(actual as nat)
            },
            SemanticError::IncompleteDefinitionUsed(ctype) => {
                ctype.text() + " has not yet been defined"@
            },
            SemanticError::NotAMember(member, ctype) => {
                "no member named '"@ + member.text(names) + "' in '"@ + ctype.text() + "'"@
            },
            SemanticError::NotAStruct(ctype) => {
                "expected struct or union, got type '"@ + ctype.text() + "'"@
            },
            SemanticError::NotAStructPointer(_) => {
                "cannot use '->' operator on type that is not a pointer"@
            },
            SemanticError::NotAPointer(ctype) => {
                "cannot dereference expression of non-pointer type '"@ + ctype.text() + "'"@
            },
            SemanticError::InvalidAddressOf(reason) => "cannot take address of "@ + reason@,
            SemanticError::InvalidIncrement(ctype) => {
                "cannot increment or decrement value of type '"@ + ctype.text() + "'"@
            },
            SemanticError::NotArithmetic(ctype) => {
                "cannot use unary plus on expression of non-arithmetic type '"@ + ctype.text()
                    + "'"@
            },
            SemanticError::IncompatibleTypes(first, second) => {
                "incompatible types in ternary expression: '"@ + first.text()
                    + "' cannot be converted to '"@ + second.text() + "'"@
            },
            SemanticError::ConstOverflow { is_positive } => {
                (if is_positive { "positive"@ } else { "negative"@ }) + " overflow in expresson"@
            },
            SemanticError::DivideByZero => "cannot divide by zero"@,
            SemanticError::NegativeShift { is_left } => {
                "cannot shift "@ + (if is_left { "left"@ } else { "right"@ })
                    + " by a negative amount"@
            },
            SemanticError::TooManyShiftBits { is_left, maximum, ctype, current } => {
                "cannot shift "@ + (if is_left { "left"@ } else { "right"@ }) + " by "@
                    + decimal(maximum as nat) + " or more bits for type '"@ + ctype.text()
                    + "' (got "@ + decimal(current as nat) + ")"@
            },
            SemanticError::NotConstant(expr) => "not a constant expression: "@ + expr@,
            SemanticError::NullPointerDereference => "cannot dereference NULL pointer"@,
            SemanticError::InvalidRelationalType(op, left, right) => {
                "invalid types for '"@ + op.text()
                    + "' (expected arithmetic types or compatible pointers, got "@ + left.text()
                    + " "@ + op.text() + " "@ + right.text()
            },
            SemanticError::FloatPointerCast(_) => "cannot cast pointer to float or vice versa"@,
            SemanticError::NonScalarCast(ctype) => {
                "cannot cast to non-scalar type '"@ + ctype.text() + "'"@
            },
            SemanticError::VoidCast => "cannot cast void to any type"@,
            SemanticError::StructCast => "cannot cast structs to any type"@,
            SemanticError::UnreachableStatement => "unreachable statement"@,
            SemanticError::LabelRedeclaration(block) => {
                "redeclaration of label block"@ + decimal(block as nat)
            },
            SemanticError::UndeclaredLabel(name) => "use of undeclared label "@ + name.text(names),
            SemanticError::CaseOutsideSwitch { is_default } => {
                (if is_default { "default "@ } else { ""@ }) + "case outside of switch statement"@
            },
            SemanticError::DuplicateCase { is_default } => {
                "cannot have multiple "@ + (if is_default { "default "@ } else { ""@ })
                    + "cases in a switch statement"@
            },
            SemanticError::EmptyInitializer => "initializers cannot be empty"@,
            SemanticError::AggregateInitializingScalar(ctype, count) => {
                "scalar initializers for '"@ + ctype.text()
                    + "' may only have one element (initialized with "@ + decimal(count as nat)
                    + ")"@
            },
            SemanticError::TooManyMembers(declared, found) => {
                "too many initializers (declared with "@ + decimal(declared as nat)
                    + " elements, found "@ + decimal(found as nat) + ")"@
            },
            SemanticError::InvalidFuncStorageClass(class) => {
                "illegal storage class "@ + class.text()
                    + " for function (only `static` and `extern` are allowed)"@
            },
            SemanticError::MissingParamName(index, ctype) => {
                "missing parameter name in function definition (parameter "@ + decimal(index as nat)
                    + " of type '"@ + ctype.text() + "')"@
            },
            SemanticError::ForwardDeclarationIncomplete(tag, used_in) => {
                "forward declaration of "@ + tag.text(names) + " is never completed (used in "@
                    + used_in.text(names) + ")"@
            },
            SemanticError::IllegalMainSignature => {
                "illegal signature for main function (expected 'int main(void)' or 'int main(int, char **)'"@
            },
            SemanticError::Redefinition(name) => "redefinition of '"@ + name.text(names) + "'"@,
            SemanticError::IncompatibleRedeclaration(name, previous, new) => {
                "redeclaration of '"@ + name.text(names)
                    + "' with different type or qualifiers (originally "@ + previous@ + ", now "@
                    + new@ + ")"@
            },
            SemanticError::FuncQualifiersNotAllowed(qualifiers) => {
                "'"@ + qualifiers.text() + "' can only appear on functions"@
            },
            SemanticError::NonIntegralSwitch(ctype) => {
                "switch expressions must have an integer type (got "@ + ctype.text() + ")"@
            },
            SemanticError::MissingReturnValue(function) => {
                "function '"@ + function.text(names) + "' does not return a value"@
            },
            SemanticError::ReturnFromVoid(function) => {
                "void function '"@ + function.text(names) + "' should not return a value"@
            },
        }
    }

    /// Renders what the diagnostic says.
    pub fn message(&self, names: &Interner) -> (s: String)
        requires
            self.known(names@),
        ensures
            s@ == self.text(names@),
    {
        match self {
            SemanticError::Generic(message) => String::from_str(message.as_str()),
            SemanticError::InvalidSpecifier { existing, new } => {
                let mut s = String::from_str("cannot combine '");
                new.append_to(&mut s, names);
                s.append("' specifier with previous '");
                existing.append_to(&mut s, names);
                s.append("' type specifier");
                s
            },
            SemanticError::NotAQualifier(specifier) => {
                let mut s = String::from_str("'");
                specifier.append_to(&mut s, names);
                s.append("' is not a qualifier and cannot be used for pointers");
                s
            },
            SemanticError::TooLong(count) => {
                let mut s = String::from_str("'");
                append_repeated(&mut s, "long", *count);
                s.append("' is too long for saltwater");
                s
            },
            SemanticError::ConflictingStorageClass(first, second) => {
                let mut s = String::from_str("conflicting storage classes '");
                s.append(first.spelling());
                s.append("' and '");
                s.append(second.spelling());
                s.append("'");
                s
            },
            SemanticError::ConflictingType(first, second) => {
                let mut s = String::from_str("conflicting types '");
                s.append(first.name.as_str());
                s.append("' and '");
                s.append(second.name.as_str());
                s.append("'");
                s
            },
            SemanticError::CannotBeSigned(ctype) => {
                let mut s = String::from_str("'");
                s.append(ctype.name.as_str());
                s.append("' cannot be signed or unsigned");
                s
            },
            SemanticError::ConflictingSigned => String::from_str(
                "types cannot be both signed and unsigned",
            ),
            SemanticError::AutoAtGlobalScope => String::from_str(
                "only function-scoped variables can have an `auto` storage class",
            ),
            SemanticError::EmptyProgram => String::from_str("cannot have empty program"),
            SemanticError::NonIntegralLength => String::from_str("expected an integer"),
            SemanticError::NegativeLength => String::from_str("arrays must have a positive length"),
            SemanticError::ParameterStorageClass(_) => String::from_str(
                "function parameters always have a storage class of `auto`",
            ),
            SemanticError::DuplicateParameter(name) => {
                let mut s = String::from_str("duplicate parameter name '");
                s.append(names.resolve(*name));
                s.append("' in function declaration");
                s
            },
            SemanticError::IllegalReturnType(ctype) => {
                let mut s = String::from_str("functions cannot return '");
                s.append(ctype.name.as_str());
                s.append("'");
                s
            },
            SemanticError::ArrayStoringFunction(ctype) => {
                let mut s = String::from_str("arrays cannot contain functions (got '");
                s.append(ctype.name.as_str());
                s.append("'). help: try storing array of pointer to function: (*{}[])(...)");
                s
            },
            SemanticError::InvalidVoidParameter => String::from_str(
                "void must be the first and only parameter if specified",
            ),
            SemanticError::VoidVarargs => String::from_str(
                "functions taking `void` must not have variadic arguments",
            ),
            SemanticError::VarargsWithoutParam => String::from_str(
                "functions taking variadic arguments must have at least one parameter first",
            ),
            SemanticError::EnumOverflow => String::from_str("overflow in enumeration constant"),
            SemanticError::VoidType => String::from_str("variable has incomplete type 'void'"),
            SemanticError::UndeclaredVar(name) => {
                let mut s = String::from_str("use of undeclared identifier '");
                s.append(names.resolve(*name));
                s.append("'");
                s
            },
            SemanticError::TypedefInExpressionContext => String::from_str(
                "expected expression, got typedef",
            ),
            SemanticError::IllegalStorageClass(_) => String::from_str(
                "type casts cannot have a storage class",
            ),
            SemanticError::IdInTypeName(_) => String::from_str(
                "type casts cannot have a variable name",
            ),
            SemanticError::NonIntegralExpr(ctype) => {
                let mut s = String::from_str("expected integer, got '");
                s.append(ctype.name.as_str());
                s.append("'");
                s
            },
            SemanticError::InvalidCast(from, to) => {
                let mut s = String::from_str("cannot implicitly convert '");
                s.append(from.name.as_str());
                s.append("' to '");
                s.append(to.name.as_str());
                s.append("'");
                append_cast_help(&mut s, to);
                s
            },
            SemanticError::NotAssignable(reason) => {
                let mut s = String::from_str("cannot assign to ");
                s.append(reason.as_str());
                s
            },
            SemanticError::InvalidAdd(op, left, right) => {
                let mut s = String::from_str("invalid operators for '");
                s.append(op.spelling());
                s.append("' (expected either arithmetic types or pointer operation, got '");
                s.append(left.name.as_str());
                s.append(" ");
                s.append(op.spelling());
                s.append(" ");
                s.append(right.name.as_str());
                s.append("'");
                s
            },
            SemanticError::PointerAddUnknownSize(ctype) => {
                let mut s = String::from_str(
                    "cannot perform pointer arithmetic when size of pointed type '",
                );
                s.append(ctype.name.as_str());
                s.append("' is unknown");
                s
            },
            SemanticError::NotAFunction(ctype) => {
                let mut s = String::from_str("called object of type '");
                s.append(ctype.name.as_str());
                s.append("' is not a function");
                s
            },
            SemanticError::WrongArgumentNumber(actual, expected) => {
                let mut s = String::from_str("too ");
                s.append(if *actual > *expected { "many" } else { "few" });
                s.append(" arguments to function call: expected ");
                append_decimal(&mut s, *expected as u64);
                s.append(", have ");
                append_decimal(&mut s, *actual as u64);
                s
            },
            SemanticError::IncompleteDefinitionUsed(ctype) => {
                let mut s = String::from_str(ctype.name.as_str());
                s.append(" has not yet been defined");
                s
            },
            SemanticError::NotAMember(member, ctype) => {
                let mut s = String::from_str("no member named '");
                s.append(names.resolve(*member));
                s.append("' in '");
                s.append(ctype.name.as_str());
                s.append("'");
                s
            },
            SemanticError::NotAStruct(ctype) => {
                let mut s = String::from_str("expected struct or union, got type '");
                s.append(ctype.name.as_str());
                s.append("'");
                s
            },
            SemanticError::NotAStructPointer(_) => String::from_str(
                "cannot use '->' operator on type that is not a pointer",
            ),
            SemanticError::NotAPointer(ctype) => {
                let mut s = String::from_str("cannot dereference expression of non-pointer type '");
                s.append(ctype.name.as_str());
                s.append("'");
                s
            },
            SemanticError::InvalidAddressOf(reason) => {
                let mut s = String::from_str("cannot take address of ");
                s.append(*reason);
                s
            },
            SemanticError::InvalidIncrement(ctype) => {
                let mut s = String::from_str("cannot increment or decrement value of type '");
                s.append(ctype.name.as_str());
                s.append("'");
                s
            },
            SemanticError::NotArithmetic(ctype) => {
                let mut s = String::from_str(
                    "cannot use unary plus on expression of non-arithmetic type '",
                );
                s.append(ctype.name.as_str());
                s.append("'");
                s
            },
            SemanticError::IncompatibleTypes(first, second) => {
                let mut s = String::from_str("incompatible types in ternary expression: '");
                s.append(first.name.as_str());
                s.append("' cannot be converted to '");
                s.append(second.name.as_str());
                s.append("'");
                s
            },
            SemanticError::ConstOverflow { is_positive } => {
                let mut s = String::from_str(if *is_positive { "positive" } else { "negative" });
                s.append(" overflow in expresson");
                s
            },
            SemanticError::DivideByZero => String::from_str("cannot divide by zero"),
            SemanticError::NegativeShift { is_left } => {
                let mut s = String::from_str("cannot shift ");
                s.append(if *is_left { "left" } else { "right" });
                s.append(" by a negative amount");
                s
            },
            SemanticError::TooManyShiftBits { is_left, maximum, ctype, current } => {
                let mut s = String::from_str("cannot shift ");
                s.append(if *is_left { "left" } else { "right" });
                s.append(" by ");
                append_decimal(&mut s, *maximum as u64);
                s.append(" or more bits for type '");
                s.append(ctype.name.as_str());
                s.append("' (got ");
                append_decimal(&mut s, *current as u64);
                s.append(")");
                s
            },
            SemanticError::NotConstant(expr) => {
                let mut s = String::from_str("not a constant expression: ");
                s.append(expr.as_str());
                s
            },
            SemanticError::NullPointerDereference => String::from_str(
                "cannot dereference NULL pointer",
            ),
            SemanticError::InvalidRelationalType(op, left, right) => {
                let mut s = String::from_str("invalid types for '");
                s.append(op.spelling());
                s.append("' (expected arithmetic types or compatible pointers, got ");
                s.append(left.name.as_str());
                s.append(" ");
                s.append(op.spelling());
                s.append(" ");
                s.append(right.name.as_str());
                s
            },
            SemanticError::FloatPointerCast(_) => String::from_str(
                "cannot cast pointer to float or vice versa",
            ),
            SemanticError::NonScalarCast(ctype) => {
                let mut s = String::from_str("cannot cast to non-scalar type '");
                s.append(ctype.name.as_str());
                s.append("'");
                s
            },
            SemanticError::VoidCast => String::from_str("cannot cast void to any type"),
            SemanticError::StructCast => String::from_str("cannot cast structs to any type"),
            SemanticError::UnreachableStatement => String::from_str("unreachable statement"),
            SemanticError::LabelRedeclaration(block) => {
                let mut s = String::from_str("redeclaration of label block");
                append_decimal(&mut s, *block as u64);
                s
            },
            SemanticError::UndeclaredLabel(name) => {
                let mut s = String::from_str("use of undeclared label ");
                s.append(names.resolve(*name));
                s
            },
            SemanticError::CaseOutsideSwitch { is_default } => {
                let mut s = String::from_str(if *is_default { "default " } else { "" });
                s.append("case outside of switch statement");
                s
            },
            SemanticError::DuplicateCase { is_default } => {
                let mut s = String::from_str("cannot have multiple ");
                s.append(if *is_default { "default " } else { "" });
                s.append("cases in a switch statement");
                s
            },
            SemanticError::EmptyInitializer => String::from_str("initializers cannot be empty"),
            SemanticError::AggregateInitializingScalar(ctype, count) => {
                let mut s = String::from_str("scalar initializers for '");
                s.append(ctype.name.as_str());
                s.append("' may only have one element (initialized with ");
                append_decimal(&mut s, *count as u64);
                s.append(")");
                s
            },
            SemanticError::TooManyMembers(declared, found) => {
                let mut s = String::from_str("too many initializers (declared with ");
                append_decimal(&mut s, *declared as u64);
                s.append(" elements, found ");
                append_decimal(&mut s, *found as u64);
                s.append(")");
                s
            },
            SemanticError::InvalidFuncStorageClass(class) => {
                let mut s = String::from_str("illegal storage class ");
                s.append(class.spelling());
                s.append(" for function (only `static` and `extern` are allowed)");
                s
            },
            SemanticError::MissingParamName(index, ctype) => {
                let mut s = String::from_str(
                    "missing parameter name in function definition (parameter ",
                );
                append_decimal(&mut s, *index as u64);
                s.append(" of type '");
                s.append(ctype.name.as_str());
                s.append("')");
                s
            },
            SemanticError::ForwardDeclarationIncomplete(tag, used_in) => {
                let mut s = String::from_str("forward declaration of ");
                s.append(names.resolve(*tag));
                s.append(" is never completed (used in ");
                s.append(names.resolve(*used_in));
                s.append(")");
                s
            },
            SemanticError::IllegalMainSignature => String::from_str(
                "illegal signature for main function (expected 'int main(void)' or 'int main(int, char **)'",
            ),
            SemanticError::Redefinition(name) => {
                let mut s = String::from_str("redefinition of '");
                s.append(names.resolve(*name));
                s.append("'");
                s
            },
            SemanticError::IncompatibleRedeclaration(name, previous, new) => {
                let mut s = String::from_str("redeclaration of '");
                s.append(names.resolve(*name));
                s.append("' with different type or qualifiers (originally ");
                s.append(previous.as_str());
                s.append(", now ");
                s.append(new.as_str());
                s.append(")");
                s
            },
            SemanticError::FuncQualifiersNotAllowed(qualifiers) => {
                let mut s = String::from_str("'");
                s.append(qualifiers.to_text().as_str());
                s.append("' can only appear on functions");
                s
            },
            SemanticError::NonIntegralSwitch(ctype) => {
                let mut s = String::from_str("switch expressions must have an integer type (got ");
                s.append(ctype.name.as_str());
                s.append(")");
                s
            },
            SemanticError::MissingReturnValue(function) => {
                let mut s = String::from_str("function '");
                s.append(names.resolve(*function));
                s.append("' does not return a value");
                s
            },
            SemanticError::ReturnFromVoid(function) => {
                let mut s = String::from_str("void function '");
                s.append(names.resolve(*function));
                s.append("' should not return a value");
                s
            },
        }
    }
}
/// What the parser can find wrong with a program.
///
/// Syntax errors are non-exhaustive and may have new variants added at any time.
#[derive(Clone, Debug, PartialEq)]
#[non_exhaustive]
pub enum SyntaxError {
    Generic(String),
    /// The payload says what was expected.
    EndOfFile(&'static str),
    NotAStatement(Keyword),
    /// A primary expression was expected, but the input ended or held another token.
    MissingPrimary,
    /// The payload is the token that was found; none at the end of the input.
    ExpectedId(Option<Token>),
    ExpectedDeclSpecifier(Keyword),
    ExpectedDeclarator,
    ExpectedType,
    ExpectedDeclaratorStart(Token),
    /// The payload is the declarator as it was written.
    NotAFunction(String),
    /// The payload is the initializer as it was written.
    FunctionInitializer(String),
    /// The payload is the type of the function that was defined.
    FunctionNotAllowed(TypeName),
    MissingFunctionName,
    StaticInConcreteArray,
    IntegerOverflow { is_signed: Option<bool> },
    FloatUnderflow,
    /// A decimal floating literal that cannot be read; the payload says why.
    ParseFloat(String),
    /// A hexadecimal floating literal that cannot be read.
    InvalidHexFloat(ParseError),
}

impl SyntaxError {
    /// Whether `names` holds the strings that this value refers to.
    pub open spec fn known(self, names: Seq<Seq<char>>) -> bool {
        match self {
            SyntaxError::ExpectedId(found) => (found matches Some(token) ==> token.known(names)),
            SyntaxError::ExpectedDeclaratorStart(found) => found.known(names),
            _ => true,
        }
    }

    /// Whether `names` holds the strings that this value refers to.
    pub fn is_known(&self, names: &Interner) -> (r: bool)
        ensures
            r == self.known(names@),
    {
        match self {
            SyntaxError::ExpectedId(found) => {
                (match found { Some(token) => token.is_known(names), None => true })
            },
            SyntaxError::ExpectedDeclaratorStart(found) => found.is_known(names),
            _ => true,
        }
    }

    /// What the diagnostic says.
    pub open spec fn text(self, names: Seq<Seq<char>>) -> Seq<char>
        recommends
            self.known(names),
    {
        match self {
            SyntaxError::Generic(message) => message@,
            SyntaxError::EndOfFile(expected) => "expected "@ + expected@ + ", got <end-of-file>"@,
            SyntaxError::NotAStatement(keyword) => "expected statement, got "@ + keyword.text(),
            SyntaxError::MissingPrimary => "expected variable, literal, or '('"@,
            SyntaxError::ExpectedId(found) => {
                "expected identifier, got '"@ + found_text(found, names) + "'"@
            },
            SyntaxError::ExpectedDeclSpecifier(keyword) => {
                "expected declaration specifier, got keyword '"@ + keyword.text() + "'"@
            },
            SyntaxError::ExpectedDeclarator => "expected declarator in declaration"@,
            SyntaxError::ExpectedType => "empty type name"@,
            SyntaxError::ExpectedDeclaratorStart(found) => {
                "expected '(', '*', or variable, got '"@ + found.text(names) + "'"@
            },
            SyntaxError::NotAFunction(declarator) => {
                "only functions can have a function body (got "@ + declarator@ + ")"@
            },
            SyntaxError::FunctionInitializer(initializer) => {
                "functions cannot be initialized (got "@ + initializer@ + ")"@
            },
            SyntaxError::FunctionNotAllowed(ctype) => {
                "function not allowed in this context (got "@ + ctype.text() + ")"@
            },
            SyntaxError::MissingFunctionName => "function definitions must have a name"@,
            SyntaxError::StaticInConcreteArray => {
                "`static` for array sizes is only allowed in function declarations"@
            },
            SyntaxError::IntegerOverflow { is_signed } => {
                "overflow while parsing "@ + signedness(is_signed) + "integer literal"@
            },
            SyntaxError::FloatUnderflow => "underflow parsing floating literal"@,
            SyntaxError::ParseFloat(reason) => reason@,
            SyntaxError::InvalidHexFloat(error) => hex_float_text(error.kind),
        }
    }

    /// Renders what the diagnostic says.
    pub fn message(&self, names: &Interner) -> (s: String)
        requires
            self.known(names@),
        ensures
            s@ == self.text(names@),
    {
        match self {
            SyntaxError::Generic(message) => String::from_str(message.as_str()),
            SyntaxError::EndOfFile(expected) => {
                let mut s = String::from_str("expected ");
                s.append(*expected);
                s.append(", got <end-of-file>");
                s
            },
            SyntaxError::NotAStatement(keyword) => {
                let mut s = String::from_str("expected statement, got ");
                s.append(keyword.spelling());
                s
            },
            SyntaxError::MissingPrimary => String::from_str("expected variable, literal, or '('"),
            SyntaxError::ExpectedId(found) => {
                let mut s = String::from_str("expected identifier, got '");
                append_found(&mut s, found, names);
                s.append("'");
                s
            },
            SyntaxError::ExpectedDeclSpecifier(keyword) => {
                let mut s = String::from_str("expected declaration specifier, got keyword '");
                s.append(keyword.spelling());
                s.append("'");
                s
            },
            SyntaxError::ExpectedDeclarator => String::from_str(
                "expected declarator in declaration",
            ),
            SyntaxError::ExpectedType => String::from_str("empty type name"),
            SyntaxError::ExpectedDeclaratorStart(found) => {
                let mut s = String::from_str("expected '(', '*', or variable, got '");
                found.append_to(&mut s, names);
                s.append("'");
                s
            },
            SyntaxError::NotAFunction(declarator) => {
                let mut s = String::from_str("only functions can have a function body (got ");
                s.append(declarator.as_str());
                s.append(")");
                s
            },
            SyntaxError::FunctionInitializer(initializer) => {
                let mut s = String::from_str("functions cannot be initialized (got ");
                s.append(initializer.as_str());
                s.append(")");
                s
            },
            SyntaxError::FunctionNotAllowed(ctype) => {
                let mut s = String::from_str("function not allowed in this context (got ");
                s.append(ctype.name.as_str());
                s.append(")");
                s
            },
            SyntaxError::MissingFunctionName => String::from_str(
                "function definitions must have a name",
            ),
            SyntaxError::StaticInConcreteArray => String::from_str(
                "`static` for array sizes is only allowed in function declarations",
            ),
            SyntaxError::IntegerOverflow { is_signed } => {
                let mut s = String::from_str("overflow while parsing ");
                s.append(signedness_word(is_signed));
                s.append("integer literal");
                s
            },
            SyntaxError::FloatUnderflow => String::from_str("underflow parsing floating literal"),
            SyntaxError::ParseFloat(reason) => String::from_str(reason.as_str()),
            SyntaxError::InvalidHexFloat(error) => hex_float_message(error),
        }
    }
}
/// What the preprocessor can find wrong with a program.
///
/// Preprocessing errors are non-exhaustive and may have new variants added at any time.
#[derive(Clone, Debug, PartialEq)]
#[non_exhaustive]
pub enum CppError {
    /// A user-defined error (`#error`) was present.
    /// The payload holds the tokens that followed the directive.
    User(Vec<Token>),
    /// An invalid directive was present, such as `#invalid`.
    InvalidDirective,
    /// A valid token was present in an invalid position, such as `#if *`.
    ///
    /// The first payload describes the expected token; the second is the token found.
    UnexpectedToken(&'static str, Token),
    /// The file ended in the middle of a directive, such as `#define`.
    ///
    /// The payload describes what token was expected.
    EndOfFile(&'static str),
    FileNotFound(String),
    TooFewArguments(usize, usize),
    IO(String),
    /// The file ended before an `#if`, `#ifdef`, or `#ifndef` was closed.
    UnterminatedIf,
    /// An `#if` occurred without an expression following.
    EmptyExpression,
    ExpectedMacroId,
    Expected(&'static str, &'static str),
    /// A `#define` occurred without an identifier following.
    EmptyDefine,
    /// An `#include<>` or `#include""` was present.
    EmptyInclude,
    /// An `#endif` was present, but no `#if` was currently open.
    UnexpectedEndIf,
    /// An `#else` was present, but either no `#if` was currently open, or an `#else` has
    /// already been seen.
    UnexpectedElse,
    /// An `#elif` was present, but either no `#if` was currently open (`early`), or an
    /// `#else` has already been seen.
    UnexpectedElif { early: bool },
    /// After parsing an `#if` expression, there were tokens left over.
    TooManyTokens,
    /// A macro was defined again, and not as it was defined before.
    IncompatibleRedefinition(InternedStr),
    /// '#' in a function macro not followed by function parameter.
    HashMissingParameter,
    /// '##' at the start of a macro's replacement, or at its end.
    HashHashMissingParameter(bool),
    /// The result of '##' is not a valid token.
    HashHashInvalid(Token, Token),
}

impl CppError {
    /// Whether `names` holds the strings that this value refers to.
    pub open spec fn known(self, names: Seq<Seq<char>>) -> bool {
        match self {
            CppError::User(tokens) => tokens_known(tokens@, names),
            CppError::UnexpectedToken(_, found) => found.known(names),
            CppError::IncompatibleRedefinition(name) => name.known(names),
            CppError::HashHashInvalid(left, right) => left.known(names) && right.known(names),
            _ => true,
        }
    }

    /// Whether `names` holds the strings that this value refers to.
    pub fn is_known(&self, names: &Interner) -> (r: bool)
        ensures
            r == self.known(names@),
    {
        match self {
            CppError::User(tokens) => all_known(tokens, names),
            CppError::UnexpectedToken(_, found) => found.is_known(names),
            CppError::IncompatibleRedefinition(name) => names.knows(*name),
            CppError::HashHashInvalid(left, right) => left.is_known(names) && right.is_known(names),
            _ => true,
        }
    }

    /// What the diagnostic says.
    pub open spec fn text(self, names: Seq<Seq<char>>) -> Seq<char>
        recommends
            self.known(names),
    {
        match self {
            CppError::User(tokens) => "#error "@ + tokens_text(tokens@, names),
            CppError::InvalidDirective => "invalid preprocessing directive"@,
            CppError::UnexpectedToken(expected, found) => {
                "expected "@ + expected@ + ", got "@ + found.text(names)
            },
            CppError::EndOfFile(expected) => "expected "@ + expected@ + ", got <end-of-file>"@,
            CppError::FileNotFound(file) => "file '"@ + file@ + "' not found"@,
            CppError::TooFewArguments(expected, got) => {
                "wrong number of arguments: expected "@ + decimal(expected as nat) + ", got "@
                    + decimal(got as nat)
            },
            CppError::IO(description) => "IO error: "@ + description@,
            CppError::UnterminatedIf => "#if is never terminated"@,
            CppError::EmptyExpression => "expected expression for #if"@,
            CppError::ExpectedMacroId => "macro name missing"@,
            CppError::Expected(missing, place) => "missing "@ + missing@ + " in "@ + place@,
            CppError::EmptyDefine => "macro name missing"@,
            CppError::EmptyInclude => "empty filename"@,
            CppError::UnexpectedEndIf => "#endif without #if"@,
            CppError::UnexpectedElse => "#else after #else or #else without #if"@,
            CppError::UnexpectedElif { early } => {
                (if early { "#elif without #if"@ } else { "#elif after #else "@ })
            },
            CppError::TooManyTokens => "trailing tokens in `#if` expression"@,
            CppError::IncompatibleRedefinition(name) => {
                "redefinition of '"@ + name.text(names) + "' does not match original definition"@
            },
            CppError::HashMissingParameter => "'#' is not followed by a macro parameter"@,
            CppError::HashHashMissingParameter(at_start) => {
                "'##' cannot appear at "@ + (if at_start { "start"@ } else { "end"@ })
                    + " of macro expansion"@
            },
            CppError::HashHashInvalid(left, right) => {
                "pasting formed '"@ + left.text(names) + right.text(names)
                    + "', an invalid preprocessing token"@
            },
        }
    }

    /// Renders what the diagnostic says.
    pub fn message(&self, names: &Interner) -> (s: String)
        requires
            self.known(names@),
        ensures
            s@ == self.text(names@),
    {
        match self {
            CppError::User(tokens) => {
                let mut s = String::from_str("#error ");
                append_tokens(&mut s, tokens, names);
                s
            },
            CppError::InvalidDirective => String::from_str("invalid preprocessing directive"),
            CppError::UnexpectedToken(expected, found) => {
                let mut s = String::from_str("expected ");
                s.append(*expected);
                s.append(", got ");
                found.append_to(&mut s, names);
                s
            },
            CppError::EndOfFile(expected) => {
                let mut s = String::from_str("expected ");
                s.append(*expected);
                s.append(", got <end-of-file>");
                s
            },
            CppError::FileNotFound(file) => {
                let mut s = String::from_str("file '");
                s.append(file.as_str());
                s.append("' not found");
                s
            },
            CppError::TooFewArguments(expected, got) => {
                let mut s = String::from_str("wrong number of arguments: expected ");
                append_decimal(&mut s, *expected as u64);
                s.append(", got ");
                append_decimal(&mut s, *got as u64);
                s
            },
            CppError::IO(description) => {
                let mut s = String::from_str("IO error: ");
                s.append(description.as_str());
                s
            },
            CppError::UnterminatedIf => String::from_str("#if is never terminated"),
            CppError::EmptyExpression => String::from_str("expected expression for #if"),
            CppError::ExpectedMacroId => String::from_str("macro name missing"),
            CppError::Expected(missing, place) => {
                let mut s = String::from_str("missing ");
                s.append(*missing);
                s.append(" in ");
                s.append(*place);
                s
            },
            CppError::EmptyDefine => String::from_str("macro name missing"),
            CppError::EmptyInclude => String::from_str("empty filename"),
            CppError::UnexpectedEndIf => String::from_str("#endif without #if"),
            CppError::UnexpectedElse => String::from_str("#else after #else or #else without #if"),
            CppError::UnexpectedElif { early } => String::from_str(
                if *early { "#elif without #if" } else { "#elif after #else " },
            ),
            CppError::TooManyTokens => String::from_str("trailing tokens in `#if` expression"),
            CppError::IncompatibleRedefinition(name) => {
                let mut s = String::from_str("redefinition of '");
                s.append(names.resolve(*name));
                s.append("' does not match original definition");
                s
            },
            CppError::HashMissingParameter => String::from_str(
                "'#' is not followed by a macro parameter",
            ),
            CppError::HashHashMissingParameter(at_start) => {
                let mut s = String::from_str("'##' cannot appear at ");
                s.append(if *at_start { "start" } else { "end" });
                s.append(" of macro expansion");
                s
            },
            CppError::HashHashInvalid(left, right) => {
                let mut s = String::from_str("pasting formed '");
                left.append_to(&mut s, names);
                right.append_to(&mut s, names);
                s.append("', an invalid preprocessing token");
                s
            },
        }
    }
}
/// What the lexer can find wrong with a program.
///
/// Lex errors are non-exhaustive and may have new variants added at any time.
#[derive(Clone, Debug, PartialEq, Eq)]
#[non_exhaustive]
pub enum LexError {
    UnterminatedComment,
    NoNewlineAtEOF,
    UnknownToken(char),
    MissingEndQuote { string: bool },
    NewlineInString,
    CharEscapeOutOfRange(Radix),
    ExponentMissingDigits,
    MissingDigits(Radix),
    InvalidDigit { digit: u32, radix: Radix },
    MultiByteCharLiteral,
    NewlineInChar,
    EmptyChar,
}

impl LexError {
    /// What the diagnostic says.
    pub open spec fn text(self) -> Seq<char>
    {
        match self {
            LexError::UnterminatedComment => "unterminated /* comment"@,
            LexError::NoNewlineAtEOF => "no newline at end of file"@,
            LexError::UnknownToken(found) => "unknown token: '"@ + seq![found] + "'"@,
            LexError::MissingEndQuote { string } => {
                "missing terminating "@ + (if string { "\""@ } else { "'"@ }) + " character in "@
                    + (if string { "string"@ } else { "character"@ }) + " literal"@
            },
            LexError::NewlineInString => "illegal newline while parsing string literal"@,
            LexError::CharEscapeOutOfRange(radix) => {
                radix.text() + " character escape out of range"@
            },
            LexError::ExponentMissingDigits => "exponent for floating literal has no digits"@,
            LexError::MissingDigits(radix) => {
                "missing digits to "@ + radix.text() + " integer constant"@
            },
            LexError::InvalidDigit { digit, radix } => {
                "invalid digit "@ + decimal(digit as nat) + " in "@ + radix.text() + " constant"@
            },
            LexError::MultiByteCharLiteral => "multi-byte character literal"@,
            LexError::NewlineInChar => "illegal newline while parsing char literal"@,
            LexError::EmptyChar => "empty character constant"@,
        }
    }

    /// Renders what the diagnostic says.
    pub fn message(&self) -> (s: String)
        ensures
            s@ == self.text(),
    {
        match self {
            LexError::UnterminatedComment => String::from_str("unterminated /* comment"),
            LexError::NoNewlineAtEOF => String::from_str("no newline at end of file"),
            LexError::UnknownToken(found) => {
                let mut s = String::from_str("unknown token: '");
                push_char(&mut s, *found);
                s.append("'");
                s
            },
            LexError::MissingEndQuote { string } => {
                let mut s = String::from_str("missing terminating ");
                s.append(if *string { "\"" } else { "'" });
                s.append(" character in ");
                s.append(if *string { "string" } else { "character" });
                s.append(" literal");
                s
            },
            LexError::NewlineInString => String::from_str(
                "illegal newline while parsing string literal",
            ),
            LexError::CharEscapeOutOfRange(radix) => {
                let mut s = String::from_str(radix.spelling());
                s.append(" character escape out of range");
                s
            },
            LexError::ExponentMissingDigits => String::from_str(
                "exponent for floating literal has no digits",
            ),
            LexError::MissingDigits(radix) => {
                let mut s = String::from_str("missing digits to ");
                s.append(radix.spelling());
                s.append(" integer constant");
                s
            },
            LexError::InvalidDigit { digit, radix } => {
                let mut s = String::from_str("invalid digit ");
                append_decimal(&mut s, *digit as u64);
                s.append(" in ");
                s.append(radix.spelling());
                s.append(" constant");
                s
            },
            LexError::MultiByteCharLiteral => String::from_str("multi-byte character literal"),
            LexError::NewlineInChar => String::from_str(
                "illegal newline while parsing char literal",
            ),
            LexError::EmptyChar => String::from_str("empty character constant"),
        }
    }
}
/// What is worth a word to the user but does not stop the translation.
///
/// Warnings are non-exhaustive and may have new variants added at any time.
#[derive(Clone, Debug, PartialEq)]
#[non_exhaustive]
pub enum Warning {
    Generic(String),
    /// A `#warning` directive was present, followed by the tokens in this variant.
    User(Vec<Token>),
    ExtraneousSemicolon(&'static str),
    FunctionQualifiersIgnored(Qualifiers),
    /// A specifier that a declaration holds more than once; the number says how often.
    DuplicateSpecifier(UnitSpecifier, usize),
    IgnoredQualifier(Qualifiers),
    EmptyDeclaration,
    IgnoredPragma,
    IgnoredVariadic,
    ImplicitInt,
    ExtraneousExtern,
}

impl Warning {
    /// Whether `names` holds the strings that this value refers to.
    pub open spec fn known(self, names: Seq<Seq<char>>) -> bool {
        match self {
            Warning::User(tokens) => tokens_known(tokens@, names),
            _ => true,
        }
    }

    /// Whether `names` holds the strings that this value refers to.
    pub fn is_known(&self, names: &Interner) -> (r: bool)
        ensures
            r == self.known(names@),
    {
        match self {
            Warning::User(tokens) => all_known(tokens, names),
            _ => true,
        }
    }

    /// What the diagnostic says.
    pub open spec fn text(self, names: Seq<Seq<char>>) -> Seq<char>
        recommends
            self.known(names),
    {
        match self {
            Warning::Generic(message) => message@,
            Warning::User(tokens) => "#warning "@ + tokens_text(tokens@, names),
            Warning::ExtraneousSemicolon(place) => "extraneous semicolon in "@ + place@,
            Warning::FunctionQualifiersIgnored(qualifiers) => {
                "'"@ + qualifiers.text() + "' qualifier on return type has no effect"@
            },
            Warning::DuplicateSpecifier(specifier, count) => {
                "duplicate '"@ + specifier.text() + "' declaration specifier"@
                    + occurrences(count as nat)
            },
            Warning::IgnoredQualifier(_) => "qualifiers in type casts are ignored"@,
            Warning::EmptyDeclaration => "declaration does not declare anything"@,
            Warning::IgnoredPragma => "saltwater does not support #pragma"@,
            Warning::IgnoredVariadic => "variadic macros are not yet supported"@,
            Warning::ImplicitInt => {
                "implicit int is deprecated and may be removed in a future release"@
            },
            Warning::ExtraneousExtern => {
                "this is a definition, not a declaration, the 'extern' keyword has no effect"@
            },
        }
    }

    /// Renders what the diagnostic says.
    pub fn message(&self, names: &Interner) -> (s: String)
        requires
            self.known(names@),
        ensures
            s@ == self.text(names@),
    {
        match self {
            Warning::Generic(message) => String::from_str(message.as_str()),
            Warning::User(tokens) => {
                let mut s = String::from_str("#warning ");
                append_tokens(&mut s, tokens, names);
                s
            },
            Warning::ExtraneousSemicolon(place) => {
                let mut s = String::from_str("extraneous semicolon in ");
                s.append(*place);
                s
            },
            Warning::FunctionQualifiersIgnored(qualifiers) => {
                let mut s = String::from_str("'");
                s.append(qualifiers.to_text().as_str());
                s.append("' qualifier on return type has no effect");
                s
            },
            Warning::DuplicateSpecifier(specifier, count) => {
                let mut s = String::from_str("duplicate '");
                s.append(specifier.spelling());
                s.append("' declaration specifier");
                append_occurrences(&mut s, *count);
                s
            },
            Warning::IgnoredQualifier(_) => String::from_str(
                "qualifiers in type casts are ignored",
            ),
            Warning::EmptyDeclaration => String::from_str("declaration does not declare anything"),
            Warning::IgnoredPragma => String::from_str("saltwater does not support #pragma"),
            Warning::IgnoredVariadic => String::from_str("variadic macros are not yet supported"),
            Warning::ImplicitInt => String::from_str(
                "implicit int is deprecated and may be removed in a future release",
            ),
            Warning::ExtraneousExtern => String::from_str(
                "this is a definition, not a declaration, the 'extern' keyword has no effect",
            ),
        }
    }
}
/// Anything that can be wrong with a program.
#[derive(Clone, Debug, PartialEq)]
pub enum Error {
    Semantic(SemanticError),
    Syntax(SyntaxError),
    PreProcessor(CppError),
    Lex(LexError),
}

impl Error {
    /// Whether `names` holds the strings that this error refers to.
    pub open spec fn known(self, names: Seq<Seq<char>>) -> bool {
        match self {
            Error::Semantic(error) => error.known(names),
            Error::Syntax(error) => error.known(names),
            Error::PreProcessor(error) => error.known(names),
            Error::Lex(_) => true,
        }
    }

    /// Whether `names` holds the strings that this error refers to.
    pub fn is_known(&self, names: &Interner) -> (r: bool)
        ensures
            r == self.known(names@),
    {
        match self {
            Error::Semantic(error) => error.is_known(names),
            Error::Syntax(error) => error.is_known(names),
            Error::PreProcessor(error) => error.is_known(names),
            Error::Lex(_) => true,
        }
    }

    /// What the diagnostic says: the stage's verdict, then the error's own text.
    pub open spec fn text(self, names: Seq<Seq<char>>) -> Seq<char>
        recommends
            self.known(names),
    {
        match self {
            Error::Semantic(error) => "invalid program: "@ + error.text(names),
            Error::Syntax(error) => "invalid syntax: "@ + error.text(names),
            Error::PreProcessor(error) => "invalid macro: "@ + error.text(names),
            Error::Lex(error) => "invalid token: "@ + error.text(),
        }
    }

    /// Renders what the diagnostic says.
    pub fn message(&self, names: &Interner) -> (s: String)
        requires
            self.known(names@),
        ensures
            s@ == self.text(names@),
    {
        match self {
            Error::Semantic(error) => {
                let mut s = String::from_str("invalid program: ");
                s.append(error.message(names).as_str());
                s
            },
            Error::Syntax(error) => {
                let mut s = String::from_str("invalid syntax: ");
                s.append(error.message(names).as_str());
                s
            },
            Error::PreProcessor(error) => {
                let mut s = String::from_str("invalid macro: ");
                s.append(error.message(names).as_str());
                s
            },
            Error::Lex(error) => {
                let mut s = String::from_str("invalid token: ");
                s.append(error.message().as_str());
                s
            },
        }
    }

    /// Whether the lexer found the error.
    pub fn is_lex_err(&self) -> (r: bool)
        ensures
            r == (self is Lex),
    {
        if let Error::Lex(_) = self {
            true
        } else {
            false
        }
    }

    /// Whether the parser found the error.
    pub fn is_syntax_err(&self) -> (r: bool)
        ensures
            r == (self is Syntax),
    {
        if let Error::Syntax(_) = self {
            true
        } else {
            false
        }
    }

    /// Whether the analyzer found the error.
    pub fn is_semantic_err(&self) -> (r: bool)
        ensures
            r == (self is Semantic),
    {
        if let Error::Semantic(_) = self {
            true
        } else {
            false
        }
    }
}

impl Locatable<Error> {
    /// Where the error was found.
    pub fn location(&self) -> (r: Location)
        ensures
            r == self.location,
    {
        self.location
    }

    /// Whether the lexer found the error.
    pub fn is_lex_err(&self) -> (r: bool)
        ensures
            r == (self.data is Lex),
    {
        self.data.is_lex_err()
    }

    /// Whether the parser found the error.
    pub fn is_syntax_err(&self) -> (r: bool)
        ensures
            r == (self.data is Syntax),
    {
        self.data.is_syntax_err()
    }

    /// Whether the analyzer found the error.
    pub fn is_semantic_err(&self) -> (r: bool)
        ensures
            r == (self.data is Semantic),
    {
        self.data.is_semantic_err()
    }
}

impl From<SemanticError> for Error {
    fn from(error: SemanticError) -> (r: Error) {
        Error::Semantic(error)
    }
}

impl FromSpecImpl<SemanticError> for Error {
    open spec fn obeys_from_spec() -> bool {
        true
    }

    open spec fn from_spec(error: SemanticError) -> Error {
        Error::Semantic(error)
    }
}

impl From<SyntaxError> for Error {
    fn from(error: SyntaxError) -> (r: Error) {
        Error::Syntax(error)
    }
}

impl FromSpecImpl<SyntaxError> for Error {
    open spec fn obeys_from_spec() -> bool {
        true
    }

    open spec fn from_spec(error: SyntaxError) -> Error {
        Error::Syntax(error)
    }
}

impl From<CppError> for Error {
    fn from(error: CppError) -> (r: Error) {
        Error::PreProcessor(error)
    }
}

impl FromSpecImpl<CppError> for Error {
    open spec fn obeys_from_spec() -> bool {
        true
    }

    open spec fn from_spec(error: CppError) -> Error {
        Error::PreProcessor(error)
    }
}

impl From<LexError> for Error {
    fn from(error: LexError) -> (r: Error) {
        Error::Lex(error)
    }
}

impl FromSpecImpl<LexError> for Error {
    open spec fn obeys_from_spec() -> bool {
        true
    }

    open spec fn from_spec(error: LexError) -> Error {
        Error::Lex(error)
    }
}

impl From<Locatable<String>> for Locatable<Error> {
    fn from(error: Locatable<String>) -> (r: Locatable<Error>) {
        Locatable {
            data: Error::Semantic(SemanticError::Generic(error.data)),
            location: error.location,
        }
    }
}

impl FromSpecImpl<Locatable<String>> for Locatable<Error> {
    open spec fn obeys_from_spec() -> bool {
        true
    }

    open spec fn from_spec(error: Locatable<String>) -> Locatable<Error> {
        Locatable {
            data: Error::Semantic(SemanticError::Generic(error.data)),
            location: error.location,
        }
    }
}

impl From<Locatable<SemanticError>> for Locatable<Error> {
    fn from(error: Locatable<SemanticError>) -> (r: Locatable<Error>) {
        Locatable { data: Error::Semantic(error.data), location: error.location }
    }
}

impl FromSpecImpl<Locatable<SemanticError>> for Locatable<Error> {
    open spec fn obeys_from_spec() -> bool {
        true
    }

    open spec fn from_spec(error: Locatable<SemanticError>) -> Locatable<Error> {
        Locatable { data: Error::Semantic(error.data), location: error.location }
    }
}

impl From<Locatable<SyntaxError>> for Locatable<Error> {
    fn from(error: Locatable<SyntaxError>) -> (r: Locatable<Error>) {
        Locatable { data: Error::Syntax(error.data), location: error.location }
    }
}

impl FromSpecImpl<Locatable<SyntaxError>> for Locatable<Error> {
    open spec fn obeys_from_spec() -> bool {
        true
    }

    open spec fn from_spec(error: Locatable<SyntaxError>) -> Locatable<Error> {
        Locatable { data: Error::Syntax(error.data), location: error.location }
    }
}

impl From<Locatable<CppError>> for Locatable<Error> {
    fn from(error: Locatable<CppError>) -> (r: Locatable<Error>) {
        Locatable { data: Error::PreProcessor(error.data), location: error.location }
    }
}

impl FromSpecImpl<Locatable<CppError>> for Locatable<Error> {
    open spec fn obeys_from_spec() -> bool {
        true
    }

    open spec fn from_spec(error: Locatable<CppError>) -> Locatable<Error> {
        Locatable { data: Error::PreProcessor(error.data), location: error.location }
    }
}

impl From<Locatable<LexError>> for Locatable<Error> {
    fn from(error: Locatable<LexError>) -> (r: Locatable<Error>) {
        Locatable { data: Error::Lex(error.data), location: error.location }
    }
}

impl FromSpecImpl<Locatable<LexError>> for Locatable<Error> {
    open spec fn obeys_from_spec() -> bool {
        true
    }

    open spec fn from_spec(error: Locatable<LexError>) -> Locatable<Error> {
        Locatable { data: Error::Lex(error.data), location: error.location }
    }
}

impl From<Locatable<String>> for Locatable<SemanticError> {
    fn from(error: Locatable<String>) -> (r: Locatable<SemanticError>) {
        Locatable { data: SemanticError::Generic(error.data), location: error.location }
    }
}

impl FromSpecImpl<Locatable<String>> for Locatable<SemanticError> {
    open spec fn obeys_from_spec() -> bool {
        true
    }

    open spec fn from_spec(error: Locatable<String>) -> Locatable<SemanticError> {
        Locatable { data: SemanticError::Generic(error.data), location: error.location }
    }
}

impl<S: Into<String>> From<S> for SemanticError {
    /// An error that says what the message says.
    fn from(message: S) -> (r: SemanticError)
        ensures
            r matches SemanticError::Generic(text) && call_ensures(
                <S as Into<String>>::into,
                (message,),
                text,
            ),
    {
        SemanticError::Generic(message.into())
    }
}

impl<S: Into<String>> FromSpecImpl<S> for SemanticError {
    open spec fn obeys_from_spec() -> bool {
        <S as IntoSpec<String>>::obeys_into_spec()
    }

    open spec fn from_spec(message: S) -> SemanticError {
        SemanticError::Generic(message.into_spec())
    }
}

impl<S: Into<String>> From<S> for Warning {
    /// A warning that says what the message says.
    fn from(message: S) -> (r: Warning)
        ensures
            r matches Warning::Generic(text) && call_ensures(
                <S as Into<String>>::into,
                (message,),
                text,
            ),
    {
        Warning::Generic(message.into())
    }
}

impl<S: Into<String>> FromSpecImpl<S> for Warning {
    open spec fn obeys_from_spec() -> bool {
        <S as IntoSpec<String>>::obeys_into_spec()
    }

    open spec fn from_spec(message: S) -> Warning {
        Warning::Generic(message.into_spec())
    }
}

impl From<ParseError> for SyntaxError {
    fn from(error: ParseError) -> (r: SyntaxError) {
        SyntaxError::InvalidHexFloat(error)
    }
}

impl FromSpecImpl<ParseError> for SyntaxError {
    open spec fn obeys_from_spec() -> bool {
        true
    }

    open spec fn from_spec(error: ParseError) -> SyntaxError {
        SyntaxError::InvalidHexFloat(error)
    }
}

} // verus!
