use vstd::prelude::*;
use crate::classify::{Shape, classification, classify};
use crate::directive::{Diagnostic, directive_of, directive_message, parse_each};
use crate::syntax::{Body, FieldDef, Span, StructDef, type_text};

verus! {

/// What is generated for one field of the annotated struct.
#[derive(Debug)]
pub struct FieldPlan {
    pub name: String,
    pub shape: Shape,
    /// The builder's field holds `Option<slot_ty>`, and the whole-value
    /// setter takes a `slot_ty`.
    pub slot_ty: String,
    /// The type unwrapped from `Option` or `Vec`; the declared type for a
    /// plain field. The appender takes one value of it.
    pub inner: String,
    /// Whether a whole-value setter named after the field is generated.
    pub setter: bool,
    /// The name of the per-element appender, where one is generated.
    pub appender: Option<String>,
    /// For a required field, the message with which the finalizer fails
    /// while the field is unset.
    pub missing: Option<String>,
}

/// Everything generated for one annotated struct: the builder type named
/// `builder`, a `builder()` factory on `target`, and per field a slot,
/// its setters and its step of the finalizer.
#[derive(Debug)]
pub struct Expansion {
    pub target: String,
    pub builder: String,
    pub fields: Vec<FieldPlan>,
}

/// Why nothing is generated.
#[derive(Debug)]
pub enum GenError {
    /// The item is not a struct with named fields.
    NotNamedStruct,
    /// A field carries a malformed directive.
    Directive(Diagnostic),
}

pub open spec fn opt_view(o: Option<String>) -> Option<Seq<char>> {
    match o {
        Some(s) => Some(s@),
        None => None,
    }
}

/// The directive that counts for a field: it is read on `Vec` fields only.
pub open spec fn field_directive(f: FieldDef) -> Result<Option<Seq<char>>, Span> {
    if classification(f.ty).0 == Shape::Repeated {
        directive_of(f.attrs@)
    } else {
        Ok(None)
    }
}

pub open spec fn builder_name(target: Seq<char>) -> Seq<char> {
    target + "Builder"@
}

pub open spec fn missing_message(field: Seq<char>) -> Seq<char> {
    "Field "@ + field + " not initialized"@
}

/// The type held in the builder's slot for a field, and taken by its
/// whole-value setter: the unwrapped type for `Option<T>`, the declared
/// type otherwise.
pub open spec fn slot_type(f: FieldDef) -> Seq<char> {
    let (shape, inner) = classification(f.ty);
    if shape == Shape::Optional {
        inner
    } else {
        type_text(f.ty)
    }
}

/// `p` is what is generated for the well-formed field `f`.
pub open spec fn plans_field(f: FieldDef, p: FieldPlan) -> bool {
    let (shape, inner) = classification(f.ty);
    let each = field_directive(f)->Ok_0;
    &&& p.name@ == f.name@
    &&& p.shape == shape
    &&& p.slot_ty@ == slot_type(f)
    &&& p.inner@ == inner
    &&& opt_view(p.appender) == each
    &&& p.setter == (each != Some(f.name@))
    &&& opt_view(p.missing) == (if shape == Shape::Plain {
        Some(missing_message(f.name@))
    } else {
        None
    })
}

fn plan_field(f: &FieldDef) -> (r: Result<FieldPlan, Diagnostic>)
    ensures
        match r {
            Ok(p) => field_directive(*f) is Ok && plans_field(*f, p),
            Err(d) => field_directive(*f) == Err::<Option<Seq<char>>, _>(d.span)
                && d.message@ == directive_message(),
        },
{
    let (shape, inner) = classify(&f.ty);
    let each = if shape == Shape::Repeated {
        match parse_each(&f.attrs) {
            Ok(e) => e,
            Err(d) => {
                return Err(d);
            },
        }
    } else {
        None
    };
    let slot_ty = if shape == Shape::Optional {
        inner.clone()
    } else {
        crate::syntax::type_text_of(&f.ty).clone()
    };
    let setter = match &each {
        Some(e) => *e != f.name,
        None => true,
    };
    let missing = if shape == Shape::Plain {
        let mut m = String::from_str("Field ");
        m.append(f.name.as_str());
        m.append(" not initialized");
        Some(m)
    } else {
        None
    };
    Ok(FieldPlan { name: f.name.clone(), shape, slot_ty, inner, setter, appender: each, missing })
}

/// Plans the builder for an annotated struct. Fails on anything but a
/// struct with named fields, and on the first field, in declaration
/// order, whose directive is malformed.
pub fn expand(def: &StructDef) -> (r: Result<Expansion, GenError>)
    ensures
        match def.body {
            Body::Other => r matches Err(GenError::NotNamedStruct),
            Body::Named(fields) => {
                &&& r is Ok <==> forall|i: int| 0 <= i < fields@.len()
                    ==> (#[trigger] field_directive(fields@[i])) is Ok
                &&& r matches Ok(e) ==> {
                    &&& e.target@ == def.name@
                    &&& e.builder@ == builder_name(def.name@)
                    &&& e.fields@.len() == fields@.len()
                    &&& forall|i: int| 0 <= i < fields@.len()
                        ==> plans_field(#[trigger] fields@[i], e.fields@[i])
                }
                &&& r matches Err(err) ==> err matches GenError::Directive(d)
                    && d.message@ == directive_message()
                    && exists|i: int| 0 <= i < fields@.len()
                        && field_directive(#[trigger] fields@[i]) == Err::<Option<Seq<char>>, _>(d.span)
                        && forall|j: int| 0 <= j < i ==> (#[trigger] field_directive(fields@[j])) is Ok
            },
        },
{
    let fields = match &def.body {
        Body::Named(fields) => fields,
        Body::Other => {
            return Err(GenError::NotNamedStruct);
        },
    };
    let mut plans: Vec<FieldPlan> = Vec::new();
    let mut i: usize = 0;
    while i < fields.len()
        invariant
            def.body == Body::Named(*fields),
            i <= fields@.len(),
            plans@.len() == i,
            forall|k: int| 0 <= k < i ==> (#[trigger] field_directive(fields@[k])) is Ok,
            forall|k: int| 0 <= k < i ==> plans_field(#[trigger] fields@[k], plans@[k]),
        decreases fields@.len() - i,
    {
        match plan_field(&fields[i]) {
            Ok(p) => {
                plans.push(p);
            },
            Err(d) => {
                assert(field_directive(fields@[i as int]) is Err);
                return Err(GenError::Directive(d));
            },
        }
        i = i + 1;
    }
    let mut builder = def.name.clone();
    builder.append("Builder");
    Ok(Expansion { target: def.name.clone(), builder, fields: plans })
}

impl Expansion {
    /// The error of the generated finalizer, given which slots are set: the
    /// message of the first required field, in declaration order, whose
    /// slot is unset; `None` when it succeeds. Optional and repeated fields
    /// never make it fail.
    pub fn finalizer_error(&self, set: &Vec<bool>) -> (r: Option<String>)
        requires
            set@.len() == self.fields@.len(),
        ensures
            match r {
                None => forall|i: int| 0 <= i < set@.len()
                    ==> (#[trigger] self.fields@[i]).missing is Some ==> set@[i],
                Some(m) => exists|i: int| 0 <= i < set@.len()
                    && !set@[i]
                    && opt_view((#[trigger] self.fields@[i]).missing) == Some(m@)
                    && forall|j: int| 0 <= j < i ==> (#[trigger] self.fields@[j]).missing is Some ==> set@[j],
            },
    {
        let mut i: usize = 0;
        while i < set.len()
            invariant
                set@.len() == self.fields@.len(),
                i <= set@.len(),
                forall|j: int| 0 <= j < i ==> (#[trigger] self.fields@[j]).missing is Some ==> set@[j],
            decreases set@.len() - i,
        {
            if !set[i] {
                match &self.fields[i].missing {
                    Some(m) => {
                        return Some(m.clone());
                    },
                    None => {},
                }
            }
            i = i + 1;
        }
        None
    }
}

/// A required field whose slot is unset, after all earlier required fields
/// were set, makes the generated finalizer fail with
/// `Field <name> not initialized`; optional and repeated fields never do.
pub proof fn lemma_required_fields(fields: Seq<FieldDef>, plans: Seq<FieldPlan>, i: int)
    requires
        fields.len() == plans.len(),
        0 <= i < fields.len(),
        forall|k: int| 0 <= k < fields.len() ==> plans_field(#[trigger] fields[k], plans[k]),
    ensures
        classification(fields[i].ty).0 == Shape::Plain
            ==> opt_view(plans[i].missing) == Some("Field "@ + fields[i].name@ + " not initialized"@),
        classification(fields[i].ty).0 != Shape::Plain ==> plans[i].missing is None,
{
    assert(plans_field(fields[i], plans[i]));
}

/// On a `Vec` field whose directive names `n`, an appender `n` is
/// generated, and a whole-collection setter beside it exactly when `n`
/// differs from the field's name. Fields of other shapes get the setter
/// alone.
pub proof fn lemma_generated_methods(f: FieldDef, p: FieldPlan, n: Seq<char>)
    requires
        plans_field(f, p),
    ensures
        classification(f.ty).0 == Shape::Repeated && directive_of(f.attrs@) == Ok::<_, Span>(Some(n))
            ==> opt_view(p.appender) == Some(n) && p.setter == (n != f.name@),
        classification(f.ty).0 != Shape::Repeated ==> p.appender is None && p.setter,
{
}

} // verus!
