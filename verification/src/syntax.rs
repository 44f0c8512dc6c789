//! The declaration tree that a lowering pass consumes: what a parser has
//! recognised in a native source module, held as plain values.

use vstd::prelude::*;

verus! {

/// A place in the source text.
#[derive(Clone, Copy, Debug, PartialEq, Eq, Structural)]
pub struct SourcePosition {
    pub line: usize,
    pub column: usize,
}

/// An identifier and where it was written.
#[derive(Debug)]
pub struct Ident {
    pub name: String,
    pub position: SourcePosition,
}

/// One argument between the angle brackets of a path segment.
#[derive(Debug)]
pub enum GenericArgument {
    /// A type argument.
    Type(TypeNode),
    /// A lifetime, a constant, a binding or a constraint.
    Other,
}

/// What follows the identifier of a path segment.
#[derive(Debug)]
pub enum PathArguments {
    /// Nothing.
    Absent,
    /// `<A, B>`
    AngleBracketed(Vec<GenericArgument>),
    /// `(A, B) -> C`
    Parenthesized,
}

/// One segment of a path.
#[derive(Debug)]
pub struct PathSegment {
    pub ident: Ident,
    pub arguments: PathArguments,
}

/// A path such as `a::b::C<D>`.
#[derive(Debug)]
pub struct Path {
    pub leading_colon: bool,
    pub segments: Vec<PathSegment>,
    pub position: SourcePosition,
}

/// The kinds of type that have no counterpart across the foreign-function boundary.
#[derive(Clone, Copy, Debug, PartialEq, Eq, Structural)]
pub enum UnsupportedKind {
    Array,
    BareFn,
    Group,
    ImplTrait,
    Infer,
    Macro,
    Never,
    Paren,
    Slice,
    TraitObject,
    Tuple,
    Verbatim,
}

/// A type as written in the source.
#[derive(Debug)]
pub enum TypeNode {
    /// A named type, possibly with generic arguments.
    Path(Path),
    /// `*const T` or `*mut T`
    Pointer(Box<TypeNode>),
    /// `&T` or `&mut T`
    Reference(Box<TypeNode>),
    /// Any other kind of type, with the place where it starts.
    Unsupported(UnsupportedKind, SourcePosition),
}

/// A literal in an attribute or a discriminant.
#[derive(Debug)]
pub enum Literal {
    /// A string literal, by its value.
    Text(String),
    /// An integer literal, by its digits in base ten.
    Integer(String),
    Other,
}

/// One entry in the list of an attribute such as `#[repr(..)]`.
#[derive(Debug)]
pub enum NestedMeta {
    /// A path, as `u8` in `#[repr(u8)]`.
    Path(Path),
    /// A literal, a nested list or a name with a value.
    Other,
}

/// An attribute attached to a declaration, a field or a variant.
#[derive(Debug)]
pub enum Attribute {
    /// `#[path]`
    Path(Path),
    /// `#[path(entries)]`
    List(Path, Vec<NestedMeta>),
    /// `#[path = literal]`; a documentation line is `#[doc = "text"]`.
    NameValue(Path, Literal),
    /// An attribute whose content is none of these shapes, with the parser's
    /// message and the place it points at.
    Malformed(String, SourcePosition),
}

/// The pattern that binds a parameter.
#[derive(Debug)]
pub enum Pattern {
    Ident(Ident),
    Other,
}

/// One parameter of a function.
#[derive(Debug)]
pub enum Parameter {
    /// `self` in any form.
    Receiver(SourcePosition),
    /// `pattern: type`
    Typed(Pattern, TypeNode, SourcePosition),
}

/// The `extern` marker of a function, with the name of the ABI if one is given.
#[derive(Debug)]
pub struct Abi {
    pub name: Option<String>,
}

/// A function declaration.
#[derive(Debug)]
pub struct Function {
    pub attrs: Vec<Attribute>,
    pub abi: Option<Abi>,
    pub ident: Ident,
    pub inputs: Vec<Parameter>,
    pub output: Option<TypeNode>,
}

/// The value given to an enumeration variant.
#[derive(Debug)]
pub enum Discriminant {
    Literal(Literal),
    Other,
}

/// One variant of an enumeration.
#[derive(Debug)]
pub struct Variant {
    pub attrs: Vec<Attribute>,
    pub ident: Ident,
    pub has_fields: bool,
    pub discriminant: Option<Discriminant>,
    pub position: SourcePosition,
}

/// An enumeration declaration.
#[derive(Debug)]
pub struct Enumeration {
    pub attrs: Vec<Attribute>,
    pub ident: Ident,
    pub variants: Vec<Variant>,
}

/// One generic parameter of a record.
#[derive(Debug)]
pub enum GenericParam {
    /// A type parameter, by its identifier.
    Type(Ident),
    /// A lifetime or a constant.
    Other,
}

/// One field of a record; a field of a tuple record has no identifier.
#[derive(Debug)]
pub struct Field {
    pub attrs: Vec<Attribute>,
    pub ident: Option<Ident>,
    pub ty: TypeNode,
}

/// A record (struct) declaration.
#[derive(Debug)]
pub struct Record {
    pub attrs: Vec<Attribute>,
    pub ident: Ident,
    pub generics: Vec<GenericParam>,
    pub fields: Vec<Field>,
}

/// A type alias declaration.
#[derive(Debug)]
pub struct TypeAlias {
    pub ident: Ident,
    pub ty: TypeNode,
}

/// A top-level declaration.
#[derive(Debug)]
pub enum Declaration {
    Function(Function),
    Enumeration(Enumeration),
    Record(Record),
    TypeAlias(TypeAlias),
    /// A module, by the declarations inside it.
    Module(Vec<Declaration>),
    /// Anything else; it is passed over.
    Other,
}

/// The identifier that a path consists of: it has no leading colon, one
/// segment, and no arguments on it.
pub open spec fn single_ident(path: Path) -> Option<Ident> {
    if !path.leading_colon && path.segments.len() == 1 && path.segments[0].arguments
        is Absent {
        Some(path.segments[0].ident)
    } else {
        None
    }
}

/// The last segment of a path, which names what the path refers to.
pub open spec fn last_segment(path: Path) -> Option<PathSegment> {
    if path.segments.len() == 0 {
        None
    } else {
        Some(path.segments[path.segments.len() - 1])
    }
}

impl Path {
    /// The identifier that this path consists of, if it is a single bare identifier.
    pub fn get_ident(&self) -> (r: Option<&Ident>)
        ensures
            match r {
                Some(i) => single_ident(*self) == Some(*i),
                None => single_ident(*self) is None,
            },
    {
        if !self.leading_colon && self.segments.len() == 1 {
            match &self.segments[0].arguments {
                PathArguments::Absent => Some(&self.segments[0].ident),
                _ => None,
            }
        } else {
            None
        }
    }

    /// The last segment of this path.
    pub fn last(&self) -> (r: Option<&PathSegment>)
        ensures
            match r {
                Some(s) => last_segment(*self) == Some(*s),
                None => last_segment(*self) is None,
            },
    {
        if self.segments.len() == 0 {
            None
        } else {
            Some(&self.segments[self.segments.len() - 1])
        }
    }
}

} // verus!
