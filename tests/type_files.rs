use lirpc::contracts::contract_file::{LiRpcType, LiRpcTypeFile, SerializableType};
use lirpc::contracts::lirpc_type::{lirpc_type, FieldDecl, TypeDecl, VariantDecl};
use lirpc::contracts::serializable_type::TypeExpr;

fn field(name: &str, ty: &str) -> FieldDecl {
    FieldDecl {
        ident: Some(name.to_string()),
        ty: TypeExpr::Path { ident: Some(ty.to_string()), type_args: None },
    }
}

#[test]
fn lirpc_type_macro_from_struct() {
    let item = TypeDecl::Struct {
        ident: "MyType".to_string(),
        fields: vec![field("value1", "String"), field("value2", "MyOtherType")],
    };
    let lirpc_type_file = lirpc_type(&item).expect("Serialization failed");
    assert_eq!(
        lirpc_type_file,
        LiRpcTypeFile {
            name: "MyType".to_string(),
            kind: LiRpcType::Struct {
                fields: vec![
                    ("value1".to_string(), SerializableType::String),
                    (
                        "value2".to_string(),
                        SerializableType::Custom { name: "MyOtherType".to_string() }
                    ),
                ],
            },
        }
    );
}

#[test]
fn lirpc_type_macro_from_enum() {
    let item = TypeDecl::Enum {
        ident: "MyType".to_string(),
        variants: vec![
            VariantDecl { ident: "Variant".to_string(), fields: vec![] },
            VariantDecl {
                ident: "VariantWithNamedFields".to_string(),
                fields: vec![field("value1", "String"), field("value2", "MyOtherType")],
            },
        ],
    };
    let lirpc_type_file = lirpc_type(&item).expect("Serialization failed");
    assert_eq!(
        lirpc_type_file,
        LiRpcTypeFile {
            name: "MyType".to_string(),
            kind: LiRpcType::Enum {
                variants: vec![
                    ("Variant".to_string(), vec![]),
                    (
                        "VariantWithNamedFields".to_string(),
                        vec![
                            ("value1".to_string(), SerializableType::String),
                            (
                                "value2".to_string(),
                                SerializableType::Custom { name: "MyOtherType".to_string() }
                            ),
                        ]
                    ),
                ],
            },
        }
    );
}

#[test]
fn unnamed_fields_are_refused() {
    let tuple_struct = TypeDecl::Struct {
        ident: "Pair".to_string(),
        fields: vec![FieldDecl {
            ident: None,
            ty: TypeExpr::Path { ident: Some("u8".to_string()), type_args: None },
        }],
    };
    assert_eq!(
        lirpc_type(&tuple_struct),
        Err("Struct annoted with lirpc_type must have identifiers (names) for its fields"
            .to_string())
    );
    let tuple_variant = TypeDecl::Enum {
        ident: "E".to_string(),
        variants: vec![
            VariantDecl { ident: "A".to_string(), fields: vec![field("x", "u8")] },
            VariantDecl {
                ident: "B".to_string(),
                fields: vec![FieldDecl {
                    ident: None,
                    ty: TypeExpr::Path { ident: Some("u8".to_string()), type_args: None },
                }],
            },
        ],
    };
    assert_eq!(
        lirpc_type(&tuple_variant),
        Err("Enum annoted with lirpc_type cannot have variants without identifiers (names) for its fields"
            .to_string())
    );
}

#[test]
fn field_without_descriptor_is_refused() {
    let item = TypeDecl::Struct {
        ident: "S".to_string(),
        fields: vec![
            field("ok", "u8"),
            FieldDecl {
                ident: Some("bad".to_string()),
                ty: TypeExpr::Unsupported { rendered: "&'static str".to_string() },
            },
        ],
    };
    assert_eq!(
        lirpc_type(&item),
        Err("Unsupported type cannot be used: Unsupported type: &'static str".to_string())
    );
}
