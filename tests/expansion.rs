use builder::{
    classify, expand, parse_each, Attr, AttrArgs, Body, FieldDef, GenError, Operand, PathArgs,
    PathSegment, Shape, Span, StructDef, TypeExpr, TypePath,
};

const MESSAGE: &str = "expected `builder(each = \"...\")`";

fn sp(start: usize, end: usize) -> Span {
    Span { start, end }
}

fn ident_path(name: &str) -> TypePath {
    TypePath {
        leading_colon: false,
        segments: vec![PathSegment { ident: name.to_string(), args: PathArgs::Bare }],
    }
}

fn plain_ty(name: &str) -> TypeExpr {
    TypeExpr::Path { qself: false, path: ident_path(name), text: name.to_string() }
}

fn wrapped_ty(wrapper: &str, inner: &str) -> TypeExpr {
    TypeExpr::Path {
        qself: false,
        path: TypePath {
            leading_colon: false,
            segments: vec![PathSegment {
                ident: wrapper.to_string(),
                args: PathArgs::Angle(vec![Some(inner.to_string())]),
            }],
        },
        text: format!("{} < {} >", wrapper, inner),
    }
}

fn directive(key: &str, value: Operand) -> Attr {
    Attr {
        path: ident_path("builder"),
        path_span: sp(2, 9),
        args: AttrArgs::Assign {
            left: Operand::Path { path: ident_path(key), span: sp(10, 14) },
            right: value,
            span: sp(10, 20),
        },
        span: sp(0, 21),
    }
}

fn each(name: &str) -> Attr {
    directive("each", Operand::Str { value: name.to_string(), span: sp(17, 20) })
}

fn field(name: &str, ty: TypeExpr, attrs: Vec<Attr>) -> FieldDef {
    FieldDef { name: name.to_string(), ty, attrs }
}

fn command_def() -> StructDef {
    StructDef {
        name: "Command".to_string(),
        body: Body::Named(vec![
            field("executable", plain_ty("String"), vec![]),
            field("args", wrapped_ty("Vec", "String"), vec![each("arg")]),
            field("env", wrapped_ty("Vec", "String"), vec![]),
            field("current_dir", wrapped_ty("Option", "String"), vec![]),
        ]),
    }
}

#[test]
fn classify_three_shapes() {
    assert_eq!(classify(&plain_ty("String")), (Shape::Plain, "String".to_string()));
    assert_eq!(classify(&wrapped_ty("Option", "u8")), (Shape::Optional, "u8".to_string()));
    assert_eq!(classify(&wrapped_ty("Vec", "u8")), (Shape::Repeated, "u8".to_string()));
    assert_eq!(
        classify(&wrapped_ty("Box", "u8")),
        (Shape::Plain, "Box < u8 >".to_string())
    );
}

#[test]
fn classify_falls_back_to_plain() {
    let two_args = TypeExpr::Path {
        qself: false,
        path: TypePath {
            leading_colon: false,
            segments: vec![PathSegment {
                ident: "Vec".to_string(),
                args: PathArgs::Angle(vec![Some("u8".to_string()), Some("A".to_string())]),
            }],
        },
        text: "Vec<u8, A>".to_string(),
    };
    assert_eq!(classify(&two_args), (Shape::Plain, "Vec<u8, A>".to_string()));
    let lifetime_arg = TypeExpr::Path {
        qself: false,
        path: TypePath {
            leading_colon: false,
            segments: vec![PathSegment {
                ident: "Option".to_string(),
                args: PathArgs::Angle(vec![None]),
            }],
        },
        text: "Option<'a>".to_string(),
    };
    assert_eq!(classify(&lifetime_arg).0, Shape::Plain);
    let qualified = TypeExpr::Path {
        qself: false,
        path: TypePath {
            leading_colon: false,
            segments: vec![
                PathSegment { ident: "std".to_string(), args: PathArgs::Bare },
                PathSegment {
                    ident: "Option".to_string(),
                    args: PathArgs::Angle(vec![Some("u8".to_string())]),
                },
            ],
        },
        text: "std::Option<u8>".to_string(),
    };
    assert_eq!(classify(&qualified), (Shape::Plain, "std::Option<u8>".to_string()));
    let reference = TypeExpr::Other { text: "&'static str".to_string() };
    assert_eq!(classify(&reference), (Shape::Plain, "&'static str".to_string()));
}

#[test]
fn directive_absent_and_present() {
    assert_eq!(parse_each(&vec![]).unwrap(), None);
    assert_eq!(parse_each(&vec![each("arg")]).unwrap(), Some("arg".to_string()));
}

#[test]
fn directive_wrong_key() {
    let d = parse_each(&vec![directive(
        "eac",
        Operand::Str { value: "x".to_string(), span: sp(16, 19) },
    )])
    .unwrap_err();
    assert_eq!(d.message, MESSAGE);
    assert_eq!(d.span, sp(10, 14));
}

#[test]
fn directive_non_string_value() {
    let d = parse_each(&vec![directive("each", Operand::Other { span: sp(17, 19) })]).unwrap_err();
    assert_eq!(d.message, MESSAGE);
    assert_eq!(d.span, sp(10, 20));
}

#[test]
fn directive_wrong_attribute_name() {
    let mut a = each("arg");
    a.path = ident_path("builde");
    let d = parse_each(&vec![a]).unwrap_err();
    assert_eq!(d.message, MESSAGE);
    assert_eq!(d.span, sp(2, 9));
}

#[test]
fn directive_not_an_assignment() {
    let mut a = each("arg");
    a.args = AttrArgs::Other;
    let d = parse_each(&vec![a]).unwrap_err();
    assert_eq!(d.message, MESSAGE);
    assert_eq!(d.span, sp(0, 21));
}

#[test]
fn directive_left_side_not_a_path() {
    let mut a = each("arg");
    a.args = AttrArgs::Assign {
        left: Operand::Str { value: "each".to_string(), span: sp(10, 16) },
        right: Operand::Str { value: "arg".to_string(), span: sp(19, 24) },
        span: sp(10, 24),
    };
    let d = parse_each(&vec![a]).unwrap_err();
    assert_eq!(d.span, sp(10, 24));
}

#[test]
fn directive_two_attributes() {
    let mut second = each("b");
    second.span = sp(30, 40);
    let d = parse_each(&vec![each("a"), second]).unwrap_err();
    assert_eq!(d.message, MESSAGE);
    assert_eq!(d.span, sp(0, 21));
}

#[test]
fn expand_command() {
    let e = expand(&command_def()).unwrap();
    assert_eq!(e.target, "Command");
    assert_eq!(e.builder, "CommandBuilder");
    assert_eq!(e.fields.len(), 4);

    let exe = &e.fields[0];
    assert_eq!(exe.name, "executable");
    assert_eq!(exe.shape, Shape::Plain);
    assert_eq!(exe.slot_ty, "String");
    assert!(exe.setter);
    assert_eq!(exe.appender, None);
    assert_eq!(exe.missing.as_deref(), Some("Field executable not initialized"));

    let args = &e.fields[1];
    assert_eq!(args.shape, Shape::Repeated);
    assert_eq!(args.slot_ty, "Vec < String >");
    assert_eq!(args.inner, "String");
    assert!(args.setter);
    assert_eq!(args.appender.as_deref(), Some("arg"));
    assert_eq!(args.missing, None);

    let env = &e.fields[2];
    assert_eq!(env.shape, Shape::Repeated);
    assert!(env.setter);
    assert_eq!(env.appender, None);

    let dir = &e.fields[3];
    assert_eq!(dir.shape, Shape::Optional);
    assert_eq!(dir.slot_ty, "String");
    assert!(dir.setter);
    assert_eq!(dir.missing, None);
}

#[test]
fn appender_named_like_field_has_no_setter() {
    let def = StructDef {
        name: "Cmd".to_string(),
        body: Body::Named(vec![field("arg", wrapped_ty("Vec", "String"), vec![each("arg")])]),
    };
    let e = expand(&def).unwrap();
    assert!(!e.fields[0].setter);
    assert_eq!(e.fields[0].appender.as_deref(), Some("arg"));
}

#[test]
fn malformed_directive_aborts_expansion() {
    let bad = directive("eac", Operand::Str { value: "x".to_string(), span: sp(16, 19) });
    let def = StructDef {
        name: "Command".to_string(),
        body: Body::Named(vec![
            field("executable", plain_ty("String"), vec![]),
            field("args", wrapped_ty("Vec", "String"), vec![bad]),
        ]),
    };
    match expand(&def) {
        Err(GenError::Directive(d)) => {
            assert_eq!(d.message, MESSAGE);
            assert_eq!(d.span, sp(10, 14));
        }
        other => panic!("unexpected {:?}", other),
    }
}

#[test]
fn first_malformed_field_is_reported() {
    let mut late = each("x");
    late.args = AttrArgs::Other;
    late.span = sp(50, 60);
    let def = StructDef {
        name: "S".to_string(),
        body: Body::Named(vec![
            field("a", wrapped_ty("Vec", "u8"), vec![directive("eac", Operand::Other { span: sp(1, 2) })]),
            field("b", wrapped_ty("Vec", "u8"), vec![late]),
        ]),
    };
    match expand(&def) {
        Err(GenError::Directive(d)) => assert_eq!(d.span, sp(10, 14)),
        other => panic!("unexpected {:?}", other),
    }
}

#[test]
fn directive_ignored_off_collections() {
    let mut odd = each("x");
    odd.args = AttrArgs::Other;
    let def = StructDef {
        name: "S".to_string(),
        body: Body::Named(vec![field("a", plain_ty("u8"), vec![odd])]),
    };
    let e = expand(&def).unwrap();
    assert_eq!(e.fields[0].appender, None);
    assert!(e.fields[0].setter);
}

#[test]
fn expand_rejects_other_items() {
    let def = StructDef { name: "T".to_string(), body: Body::Other };
    assert!(matches!(expand(&def), Err(GenError::NotNamedStruct)));
}

#[test]
fn expand_empty_struct() {
    let def = StructDef { name: "Empty".to_string(), body: Body::Named(vec![]) };
    let e = expand(&def).unwrap();
    assert_eq!(e.builder, "EmptyBuilder");
    assert!(e.fields.is_empty());
    assert_eq!(e.finalizer_error(&vec![]), None);
}

#[test]
fn finalizer_reports_first_missing() {
    let def = StructDef {
        name: "P".to_string(),
        body: Body::Named(vec![
            field("host", plain_ty("String"), vec![]),
            field("tags", wrapped_ty("Vec", "String"), vec![]),
            field("port", plain_ty("u16"), vec![]),
            field("user", wrapped_ty("Option", "String"), vec![]),
        ]),
    };
    let e = expand(&def).unwrap();
    assert_eq!(
        e.finalizer_error(&vec![false, false, false, false]).as_deref(),
        Some("Field host not initialized")
    );
    assert_eq!(
        e.finalizer_error(&vec![true, false, false, false]).as_deref(),
        Some("Field port not initialized")
    );
    assert_eq!(e.finalizer_error(&vec![true, false, true, false]), None);
}
