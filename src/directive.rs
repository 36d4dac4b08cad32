use vstd::prelude::*;
use crate::syntax::{Attr, AttrArgs, Operand, Span, is_ident, path_is_ident};

verus! {

/// A generation-time error: where it is, and what it says.
#[derive(Debug)]
pub struct Diagnostic {
    pub span: Span,
    pub message: String,
}

/// The one message given for any malformed directive.
pub open spec fn directive_message() -> Seq<char> {
    "expected `builder(each = \"...\")`"@
}

/// What the attributes of a field say: no directive, the name given by
/// `builder(each = "name")`, or the location of the first deviation from
/// that shape.
pub open spec fn directive_of(attrs: Seq<Attr>) -> Result<Option<Seq<char>>, Span> {
    if attrs.len() == 0 {
        Ok(None)
    } else if attrs.len() != 1 {
        Err(attrs[0].span)
    } else if !path_is_ident(attrs[0].path, "builder"@) {
        Err(attrs[0].path_span)
    } else {
        match attrs[0].args {
            AttrArgs::Assign { left, right, span } => match left {
                Operand::Path { path, span: left_span } => {
                    if !path_is_ident(path, "each"@) {
                        Err(left_span)
                    } else {
                        match right {
                            Operand::Str { value, .. } => Ok(Some(value@)),
                            _ => Err(span),
                        }
                    }
                },
                _ => Err(span),
            },
            AttrArgs::Other => Err(attrs[0].span),
        }
    }
}

fn malformed(span: Span) -> (r: Result<Option<String>, Diagnostic>)
    ensures
        r matches Err(d) && d.span == span && d.message@ == directive_message(),
{
    Err(Diagnostic { span, message: String::from_str("expected `builder(each = \"...\")`") })
}

/// Reads the `builder(each = "name")` directive from a field's attributes.
/// At most one attribute is accepted; anything else yields the fixed
/// diagnostic at the offending location.
pub fn parse_each(attrs: &Vec<Attr>) -> (r: Result<Option<String>, Diagnostic>)
    ensures
        match r {
            Ok(Some(name)) => directive_of(attrs@) == Ok::<_, Span>(Some(name@)),
            Ok(None) => directive_of(attrs@) == Ok::<Option<Seq<char>>, Span>(None),
            Err(d) => directive_of(attrs@) == Err::<Option<Seq<char>>, _>(d.span)
                && d.message@ == directive_message(),
        },
{
    if attrs.len() == 0 {
        return Ok(None);
    }
    let attr = &attrs[0];
    if attrs.len() != 1 {
        return malformed(attr.span);
    }
    if !is_ident(&attr.path, "builder") {
        return malformed(attr.path_span);
    }
    match &attr.args {
        AttrArgs::Assign { left, right, span } => match left {
            Operand::Path { path, span: left_span } => {
                if !is_ident(path, "each") {
                    return malformed(*left_span);
                }
                match right {
                    Operand::Str { value, .. } => Ok(Some(value.clone())),
                    _ => malformed(*span),
                }
            },
            _ => malformed(*span),
        },
        AttrArgs::Other => malformed(attr.span),
    }
}

} // verus!
