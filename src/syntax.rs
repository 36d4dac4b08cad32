use vstd::prelude::*;

verus! {

/// A source location: a range of the positions that whoever produced the
/// input gave to its parts.
#[derive(Clone, Copy, Debug, PartialEq, Eq, Structural)]
pub struct Span {
    pub start: usize,
    pub end: usize,
}

/// The arguments that follow one segment of a path.
#[derive(Debug)]
pub enum PathArgs {
    /// `Name`
    Bare,
    /// `Name<A, B>`: for each argument, its source text when it is a type,
    /// `None` when it is a lifetime, a constant or a binding.
    Angle(Vec<Option<String>>),
    /// `Name(A) -> B`
    Paren,
}

#[derive(Debug)]
pub struct PathSegment {
    pub ident: String,
    pub args: PathArgs,
}

/// A path such as `std::option::Option<T>` or `each`.
#[derive(Debug)]
pub struct TypePath {
    pub leading_colon: bool,
    pub segments: Vec<PathSegment>,
}

/// The declared type of a field.
#[derive(Debug)]
pub enum TypeExpr {
    /// A path type; `qself` is set for the `<T as Trait>::Assoc` form.
    Path { qself: bool, path: TypePath, text: String },
    /// Any other type (a reference, a tuple, an array, ...).
    Other { text: String },
}

/// One side of the assignment inside `builder(...)`.
#[derive(Debug)]
pub enum Operand {
    Path { path: TypePath, span: Span },
    Str { value: String, span: Span },
    Other { span: Span },
}

/// The parsed arguments of an attribute.
#[derive(Debug)]
pub enum AttrArgs {
    Assign { left: Operand, right: Operand, span: Span },
    /// Arguments that are absent, do not parse as an expression, or parse
    /// as an expression other than an assignment.
    Other,
}

/// An outer attribute on a field, `#[path(args)]`.
#[derive(Debug)]
pub struct Attr {
    pub path: TypePath,
    pub path_span: Span,
    pub args: AttrArgs,
    pub span: Span,
}

#[derive(Debug)]
pub struct FieldDef {
    pub name: String,
    pub ty: TypeExpr,
    pub attrs: Vec<Attr>,
}

/// The body of the annotated item.
#[derive(Debug)]
pub enum Body {
    Named(Vec<FieldDef>),
    /// A tuple or unit struct, an enum or a union.
    Other,
}

#[derive(Debug)]
pub struct StructDef {
    pub name: String,
    pub body: Body,
}

/// The source text of a type.
pub open spec fn type_text(t: TypeExpr) -> Seq<char> {
    match t {
        TypeExpr::Path { text, .. } => text@,
        TypeExpr::Other { text } => text@,
    }
}

/// True when the path is the single identifier `name`, with no leading
/// `::` and no arguments.
pub open spec fn path_is_ident(p: TypePath, name: Seq<char>) -> bool {
    &&& !p.leading_colon
    &&& p.segments@.len() == 1
    &&& p.segments@[0].args is Bare
    &&& p.segments@[0].ident@ == name
}

pub fn type_text_of(t: &TypeExpr) -> (r: &String)
    ensures
        r@ == type_text(*t),
{
    match t {
        TypeExpr::Path { text, .. } => text,
        TypeExpr::Other { text } => text,
    }
}

pub fn is_ident(p: &TypePath, name: &str) -> (r: bool)
    ensures
        r == path_is_ident(*p, name@),
{
    if p.leading_colon || p.segments.len() != 1 {
        return false;
    }
    let seg = &p.segments[0];
    match seg.args {
        PathArgs::Bare => {},
        _ => {
            return false;
        },
    }
    seg.ident == String::from_str(name)
}

} // verus!
