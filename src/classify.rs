use vstd::prelude::*;
use crate::syntax::{PathArgs, TypeExpr, type_text, type_text_of};

verus! {

/// The three shapes a field can take.
#[derive(Clone, Copy, Debug, PartialEq, Eq, Structural)]
pub enum Shape {
    /// Any type not recognised as a wrapper: required when building.
    Plain,
    /// `Option<T>`: may stay absent.
    Optional,
    /// `Vec<T>`: empty unless filled.
    Repeated,
}

/// Where the type is a single-segment path with exactly one generic
/// argument, and that argument is a type: the segment's identifier and the
/// argument's text.
pub open spec fn single_wrapper(t: TypeExpr) -> Option<(Seq<char>, Seq<char>)> {
    match t {
        TypeExpr::Path { qself, path, .. } => {
            if !qself && path.segments@.len() == 1 {
                match path.segments@[0].args {
                    PathArgs::Angle(args) => {
                        if args@.len() == 1 && args@[0] is Some {
                            Some((path.segments@[0].ident@, args@[0]->Some_0@))
                        } else {
                            None
                        }
                    },
                    _ => None,
                }
            } else {
                None
            }
        },
        TypeExpr::Other { .. } => None,
    }
}

/// The shape of a field of type `t`, and the type its setter takes apart
/// from the wrapper: the argument of `Option`, the argument of `Vec`, or
/// `t` itself.
pub open spec fn classification(t: TypeExpr) -> (Shape, Seq<char>) {
    match single_wrapper(t) {
        Some((w, inner)) => {
            if w == "Option"@ {
                (Shape::Optional, inner)
            } else if w == "Vec"@ {
                (Shape::Repeated, inner)
            } else {
                (Shape::Plain, type_text(t))
            }
        },
        None => (Shape::Plain, type_text(t)),
    }
}

fn wrapper_of(t: &TypeExpr) -> (r: Option<(&String, &String)>)
    ensures
        match r {
            Some((w, inner)) => single_wrapper(*t) == Some((w@, inner@)),
            None => single_wrapper(*t) is None,
        },
{
    match t {
        TypeExpr::Path { qself, path, .. } => {
            if *qself || path.segments.len() != 1 {
                return None;
            }
            let seg = &path.segments[0];
            match &seg.args {
                PathArgs::Angle(args) => {
                    if args.len() != 1 {
                        return None;
                    }
                    match &args[0] {
                        Some(inner) => Some((&seg.ident, inner)),
                        None => None,
                    }
                },
                _ => None,
            }
        },
        TypeExpr::Other { .. } => None,
    }
}

/// Sorts a declared type by the name of its outer wrapper. The match is on
/// the text of the name alone: a type of the user's own called `Option` or
/// `Vec` counts as that wrapper.
pub fn classify(t: &TypeExpr) -> (r: (Shape, String))
    ensures
        (r.0, r.1@) == classification(*t),
{
    match wrapper_of(t) {
        Some((w, inner)) => {
            if *w == String::from_str("Option") {
                (Shape::Optional, inner.clone())
            } else if *w == String::from_str("Vec") {
                (Shape::Repeated, inner.clone())
            } else {
                (Shape::Plain, type_text_of(t).clone())
            }
        },
        None => (Shape::Plain, type_text_of(t).clone()),
    }
}

} // verus!
