use lirpc::contracts::contract_file::SerializableType;
use lirpc::contracts::serializable_type::{ArrayLength, TypeExpr};

fn named(ident: &str) -> TypeExpr {
    TypeExpr::Path { ident: Some(ident.to_string()), type_args: None }
}

fn generic(ident: &str, args: Vec<TypeExpr>) -> TypeExpr {
    TypeExpr::Path { ident: Some(ident.to_string()), type_args: Some(args) }
}

fn convert(t: TypeExpr) -> Result<SerializableType, String> {
    SerializableType::from_type_expr(&t)
}

#[test]
fn primitives() {
    let cases = [
        ("bool", SerializableType::Bool),
        ("String", SerializableType::String),
        ("u128", SerializableType::U128),
        ("u64", SerializableType::U64),
        ("u32", SerializableType::U32),
        ("u16", SerializableType::U16),
        ("u8", SerializableType::U8),
        ("i128", SerializableType::I128),
        ("i64", SerializableType::I64),
        ("i32", SerializableType::I32),
        ("i16", SerializableType::I16),
        ("i8", SerializableType::I8),
        ("f64", SerializableType::F64),
        ("f32", SerializableType::F32),
    ];
    for (name, expected) in cases {
        assert_eq!(convert(named(name)), Ok(expected));
    }
}

#[test]
fn other_names_are_custom() {
    assert_eq!(
        convert(named("MyOtherType")),
        Ok(SerializableType::Custom { name: "MyOtherType".to_string() })
    );
    // A name with angle brackets that is not a known container is still custom.
    assert_eq!(
        convert(generic("HashMap", vec![named("String"), named("u8")])),
        Ok(SerializableType::Custom { name: "HashMap".to_string() })
    );
}

#[test]
fn containers() {
    assert_eq!(
        convert(generic("Vec", vec![named("u8")])),
        Ok(SerializableType::Vec { children: Box::new(SerializableType::U8) })
    );
    assert_eq!(
        convert(generic("Option", vec![named("String")])),
        Ok(SerializableType::Option { some: Box::new(SerializableType::String) })
    );
    assert_eq!(
        convert(generic("Result", vec![TypeExpr::Tuple { elems: vec![] }, named("MyError")])),
        Ok(SerializableType::Result {
            ok: Box::new(SerializableType::Tuple { children: vec![] }),
            err: Box::new(SerializableType::Custom { name: "MyError".to_string() }),
        })
    );
}

#[test]
fn arrays_and_tuples() {
    assert_eq!(
        convert(TypeExpr::Array { elem: Box::new(named("u8")), len: ArrayLength::Literal(Ok(4)) }),
        Ok(SerializableType::Array { children: Box::new(SerializableType::U8), length: 4 })
    );
    assert_eq!(
        convert(TypeExpr::Tuple { elems: vec![named("bool"), generic("Vec", vec![named("i8")])] }),
        Ok(SerializableType::Tuple {
            children: vec![
                SerializableType::Bool,
                SerializableType::Vec { children: Box::new(SerializableType::I8) },
            ],
        })
    );
}

#[test]
fn array_length_errors() {
    assert_eq!(
        convert(TypeExpr::Array {
            elem: Box::new(named("u8")),
            len: ArrayLength::Literal(Err("number too large to fit in target type".to_string())),
        }),
        Err("Invalid array length: number too large to fit in target type".to_string())
    );
    assert_eq!(
        convert(TypeExpr::Array { elem: Box::new(named("u8")), len: ArrayLength::Expr }),
        Err("Unsupported array length expression, expected integer literal".to_string())
    );
}

#[test]
fn container_argument_errors() {
    assert_eq!(
        convert(named("Vec")),
        Err("Vec must have one generic argument".to_string())
    );
    assert_eq!(convert(generic("Vec", vec![])), Err("Vec missing type argument".to_string()));
    assert_eq!(
        convert(generic("Option", vec![named("u8"), named("u8")])),
        Err("Option must have exactly one type argument".to_string())
    );
    assert_eq!(
        convert(named("Result")),
        Err("Result must have two generic arguments".to_string())
    );
    assert_eq!(
        convert(generic("Result", vec![])),
        Err("Result missing Ok type argument".to_string())
    );
    assert_eq!(
        convert(generic("Result", vec![named("u8")])),
        Err("Result missing Err type argument".to_string())
    );
    assert_eq!(
        convert(generic("Result", vec![named("u8"), named("u8"), named("u8")])),
        Err("Result must have exactly two type arguments".to_string())
    );
}

#[test]
fn first_failing_part_is_reported() {
    let t = TypeExpr::Tuple {
        elems: vec![
            named("u8"),
            TypeExpr::Unsupported { rendered: "&str".to_string() },
            TypeExpr::Path { ident: None, type_args: None },
        ],
    };
    assert_eq!(convert(t), Err("Unsupported type: &str".to_string()));
    assert_eq!(
        convert(TypeExpr::Path { ident: None, type_args: None }),
        Err("Empty type path".to_string())
    );
    assert_eq!(
        convert(generic(
            "Result",
            vec![generic("Vec", vec![]), TypeExpr::Unsupported { rendered: "fn()".to_string() }]
        )),
        Err("Vec missing type argument".to_string())
    );
}
