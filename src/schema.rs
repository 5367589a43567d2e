use vstd::prelude::*;

verus! {

/// A place in the source of the record definition. Whoever reads the source
/// hands out one handle per place it may need to point at, and maps a handle in
/// a diagnostic back to that place.
#[derive(Clone, Copy, Debug, PartialEq, Eq, Structural)]
pub struct Span {
    pub id: usize,
}

impl Span {
    pub fn new(id: usize) -> (r: Span)
        ensures
            r.id == id,
    {
        Span { id }
    }
}

} // verus!

verus! {

/// A type expression as written on a field: a handle to it (handed out and
/// mapped back by whoever reads the source, as for `Span`), its source text,
/// and the path structure when the type is a plain path such as
/// `std::option::Option<u8>`.
pub struct TypeExpr {
    pub id: usize,
    pub text: String,
    pub path: Option<Vec<PathSegment>>,
}

/// One `::`-separated segment of a type path.
pub struct PathSegment {
    pub ident: String,
    pub args: PathArgs,
}

/// The arguments attached to a path segment.
pub enum PathArgs {
    Bare,
    /// `Name<A, B, ...>`
    AngleBracketed(Vec<GenericArg>),
    /// `Fn(A) -> B` style arguments, which no container uses.
    Parenthesized,
}

/// One argument between angle brackets.
pub enum GenericArg {
    Type(TypeExpr),
    /// A lifetime, const or associated-type binding.
    Other,
}

/// Delimiter of a token group.
#[derive(Clone, Copy, Debug, PartialEq, Eq, Structural)]
pub enum Delimiter {
    Parenthesis,
    Bracket,
    Brace,
    Invisible,
}

/// A token of an attribute's argument list.
pub enum Token {
    Ident(String),
    Punct(char),
    /// A string literal, holding its unescaped value.
    Str(String),
    /// Any other literal, as written.
    OtherLit(String),
    Group(Delimiter, Vec<Token>),
}

/// One attribute entry `#[path tokens]` attached to a field.
pub struct AttrEntry {
    pub span: Span,
    pub path: Vec<String>,
    pub tokens: Vec<Token>,
}

/// A named field of a record.
pub struct FieldDef {
    pub name: String,
    pub span: Span,
    pub ty: TypeExpr,
    pub attrs: Vec<AttrEntry>,
}

/// The body of the input type definition.
pub enum RecordBody {
    /// A struct whose fields are all named.
    Named(Vec<FieldDef>),
    /// A tuple struct.
    Unnamed,
    /// A struct without fields: `struct S;`.
    Unit,
    Enum,
    Union,
}

/// The input type definition.
pub struct RecordDef {
    pub name: String,
    pub span: Span,
    pub body: RecordBody,
}

} // verus!
