//! The description of a struct or enum, read off its declaration.
use crate::contracts::contract_file::{LiRpcType, LiRpcTypeFile, SerializableType};
use crate::contracts::serializable_type::{describes, type_error, TypeExpr};
use vstd::prelude::*;
use vstd::string::*;

verus! {

/// A field of a struct or of an enum variant: its name, where it has one, and
/// its written type.
#[derive(Debug, PartialEq)]
pub struct FieldDecl {
    pub ident: Option<String>,
    pub ty: TypeExpr,
}

/// A variant of an enum.
#[derive(Debug, PartialEq)]
pub struct VariantDecl {
    pub ident: String,
    pub fields: Vec<FieldDecl>,
}

/// A declared struct or enum.
#[derive(Debug, PartialEq)]
pub enum TypeDecl {
    Struct { ident: String, fields: Vec<FieldDecl> },
    Enum { ident: String, variants: Vec<VariantDecl> },
}

pub open spec fn unnamed_struct_field() -> Seq<char> {
    "Struct annoted with lirpc_type must have identifiers (names) for its fields"@
}

pub open spec fn unnamed_variant_field() -> Seq<char> {
    "Enum annoted with lirpc_type cannot have variants without identifiers (names) for its fields"@
}

/// Why `fields` have no description: the first field, in order, without a name
/// (reported as `unnamed`) or whose type has no descriptor.
pub open spec fn fields_error(fields: Seq<FieldDecl>, unnamed: Seq<char>) -> Option<Seq<char>>
    decreases fields.len(),
{
    if fields.len() == 0 {
        None
    } else {
        match fields_error(fields.drop_last(), unnamed) {
            Some(e) => Some(e),
            None => if fields.last().ident is None {
                Some(unnamed)
            } else {
                match type_error(fields.last().ty) {
                    Some(e) => Some("Unsupported type cannot be used: "@ + e),
                    None => None,
                }
            },
        }
    }
}

/// `out` names and describes `fields`, one for one.
pub open spec fn fields_describe(fields: Seq<FieldDecl>, out: Seq<(String, SerializableType)>) -> bool {
    &&& out.len() == fields.len()
    &&& forall|i: int|
        0 <= i < fields.len() ==> (#[trigger] fields[i]).ident == Some(out[i].0) && describes(
            fields[i].ty,
            out[i].1,
        )
}

/// Why `variants` have no description: the first variant, in order, with a
/// field that has none.
pub open spec fn variants_error(variants: Seq<VariantDecl>) -> Option<Seq<char>>
    decreases variants.len(),
{
    if variants.len() == 0 {
        None
    } else {
        match variants_error(variants.drop_last()) {
            Some(e) => Some(e),
            None => fields_error(variants.last().fields@, unnamed_variant_field()),
        }
    }
}

/// `out` names and describes `variants`, one for one.
pub open spec fn variants_describe(
    variants: Seq<VariantDecl>,
    out: Seq<(String, Vec<(String, SerializableType)>)>,
) -> bool {
    &&& out.len() == variants.len()
    &&& forall|i: int|
        0 <= i < variants.len() ==> (#[trigger] variants[i]).ident == out[i].0 && fields_describe(
            variants[i].fields@,
            out[i].1@,
        )
}

pub open spec fn decl_error(item: TypeDecl) -> Option<Seq<char>> {
    match item {
        TypeDecl::Struct { fields, .. } => fields_error(fields@, unnamed_struct_field()),
        TypeDecl::Enum { variants, .. } => variants_error(variants@),
    }
}

/// `kind` is a struct whose fields describe `fields`.
pub open spec fn struct_describes(fields: Seq<FieldDecl>, kind: LiRpcType) -> bool {
    match kind {
        LiRpcType::Struct { fields: out } => fields_describe(fields, out@),
        _ => false,
    }
}

/// `kind` is an enum whose variants describe `variants`.
pub open spec fn enum_describes(variants: Seq<VariantDecl>, kind: LiRpcType) -> bool {
    match kind {
        LiRpcType::Enum { variants: out } => variants_describe(variants, out@),
        _ => false,
    }
}

/// `f` is the description of `item`.
pub open spec fn describes_decl(item: TypeDecl, f: LiRpcTypeFile) -> bool {
    match item {
        TypeDecl::Struct { ident, fields } => f.name == ident && struct_describes(fields@, f.kind),
        TypeDecl::Enum { ident, variants } => f.name == ident && enum_describes(variants@, f.kind),
    }
}

/// The names and descriptors of `fields`, or the first reason they have none.
fn describe_fields(fields: &Vec<FieldDecl>, unnamed: &str) -> (r: Result<
    Vec<(String, SerializableType)>,
    String,
>)
    ensures
        match r {
            Ok(out) => fields_error(fields@, unnamed@) is None && fields_describe(fields@, out@),
            Err(e) => fields_error(fields@, unnamed@) == Some(e@),
        },
{
    let mut out: Vec<(String, SerializableType)> = Vec::new();
    let mut i: usize = 0;
    while i < fields.len()
        invariant
            i <= fields@.len(),
            fields_error(fields@.take(i as int), unnamed@) is None,
            fields_describe(fields@.take(i as int), out@),
        decreases fields@.len() - i,
    {
        let ghost prefix = fields@.take(i + 1);
        assert(prefix.drop_last() =~= fields@.take(i as int));
        let field = &fields[i];
        match &field.ident {
            None => {
                proof {
                    lemma_fields_error_stays(fields@, unnamed@, i + 1);
                }
                return Err(unnamed.to_owned());
            },
            Some(name) => match SerializableType::from_type_expr(&field.ty) {
                Err(e) => {
                    proof {
                        lemma_fields_error_stays(fields@, unnamed@, i + 1);
                    }
                    return Err("Unsupported type cannot be used: ".to_owned().concat(e.as_str()));
                },
                Ok(st) => {
                    out.push((name.clone(), st));
                },
            },
        }
        i = i + 1;
        assert(fields_describe(fields@.take(i as int), out@)) by {
            assert forall|j: int| 0 <= j < i implies (#[trigger] fields@.take(i as int)[j]).ident
                == Some(out@[j].0) && describes(fields@.take(i as int)[j].ty, out@[j].1) by {
                assert(fields@.take(i as int)[j] == fields@[j]);
                if j < i - 1 {
                    assert(fields@.take(i - 1)[j] == fields@[j]);
                }
            }
        }
    }
    assert(fields@.take(i as int) =~= fields@);
    Ok(out)
}

/// The description of a struct named `ident` with `fields`.
pub fn lirpc_type_from_struct(ident: &String, fields: &Vec<FieldDecl>) -> (r: Result<
    LiRpcTypeFile,
    String,
>)
    ensures
        match r {
            Ok(f) => fields_error(fields@, unnamed_struct_field()) is None && f.name == *ident
                && struct_describes(fields@, f.kind),
            Err(e) => fields_error(fields@, unnamed_struct_field()) == Some(e@),
        },
{
    let unnamed = "Struct annoted with lirpc_type must have identifiers (names) for its fields";
    match describe_fields(fields, unnamed) {
        Ok(out) => Ok(LiRpcTypeFile { name: ident.clone(), kind: LiRpcType::Struct { fields: out } }),
        Err(e) => Err(e),
    }
}

/// The description of an enum named `ident` with `variants`.
pub fn lirpc_type_from_enum(ident: &String, variants: &Vec<VariantDecl>) -> (r: Result<
    LiRpcTypeFile,
    String,
>)
    ensures
        match r {
            Ok(f) => variants_error(variants@) is None && f.name == *ident && enum_describes(
                variants@,
                f.kind,
            ),
            Err(e) => variants_error(variants@) == Some(e@),
        },
{
    let unnamed =
        "Enum annoted with lirpc_type cannot have variants without identifiers (names) for its fields";
    let mut out: Vec<(String, Vec<(String, SerializableType)>)> = Vec::new();
    let mut i: usize = 0;
    while i < variants.len()
        invariant
            unnamed@ == unnamed_variant_field(),
            i <= variants@.len(),
            variants_error(variants@.take(i as int)) is None,
            variants_describe(variants@.take(i as int), out@),
        decreases variants@.len() - i,
    {
        let ghost prefix = variants@.take(i + 1);
        assert(prefix.drop_last() =~= variants@.take(i as int));
        let variant = &variants[i];
        match describe_fields(&variant.fields, unnamed) {
            Err(e) => {
                proof {
                    lemma_variants_error_stays(variants@, i + 1);
                }
                return Err(e);
            },
            Ok(fields) => {
                out.push((variant.ident.clone(), fields));
            },
        }
        i = i + 1;
        assert(variants_describe(variants@.take(i as int), out@)) by {
            assert forall|j: int| 0 <= j < i implies (#[trigger] variants@.take(i as int)[j]).ident
                == out@[j].0 && fields_describe(
                variants@.take(i as int)[j].fields@,
                out@[j].1@,
            ) by {
                assert(variants@.take(i as int)[j] == variants@[j]);
                if j < i - 1 {
                    assert(variants@.take(i - 1)[j] == variants@[j]);
                }
            }
        }
    }
    assert(variants@.take(i as int) =~= variants@);
    Ok(LiRpcTypeFile { name: ident.clone(), kind: LiRpcType::Enum { variants: out } })
}

/// The description of a declared struct or enum, or the first reason it has none.
pub fn lirpc_type(item: &TypeDecl) -> (r: Result<LiRpcTypeFile, String>)
    ensures
        match r {
            Ok(f) => decl_error(*item) is None && describes_decl(*item, f),
            Err(e) => decl_error(*item) == Some(e@),
        },
{
    match item {
        TypeDecl::Struct { ident, fields } => lirpc_type_from_struct(ident, fields),
        TypeDecl::Enum { ident, variants } => lirpc_type_from_enum(ident, variants),
    }
}

proof fn lemma_fields_error_stays(fields: Seq<FieldDecl>, unnamed: Seq<char>, k: int)
    requires
        0 <= k <= fields.len(),
        fields_error(fields.take(k), unnamed) is Some,
    ensures
        fields_error(fields, unnamed) == fields_error(fields.take(k), unnamed),
    decreases fields.len() - k,
{
    if k < fields.len() {
        assert(fields.take(k + 1).drop_last() =~= fields.take(k));
        lemma_fields_error_stays(fields, unnamed, k + 1);
    } else {
        assert(fields.take(k) =~= fields);
    }
}

proof fn lemma_variants_error_stays(variants: Seq<VariantDecl>, k: int)
    requires
        0 <= k <= variants.len(),
        variants_error(variants.take(k)) is Some,
    ensures
        variants_error(variants) == variants_error(variants.take(k)),
    decreases variants.len() - k,
{
    if k < variants.len() {
        assert(variants.take(k + 1).drop_last() =~= variants.take(k));
        lemma_variants_error_stays(variants, k + 1);
    } else {
        assert(variants.take(k) =~= variants);
    }
}

} // verus!
