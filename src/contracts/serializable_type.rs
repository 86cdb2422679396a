//! The type descriptor of a written Rust type.
use crate::contracts::contract_file::SerializableType;
use vstd::prelude::*;
use vstd::string::*;

verus! {

/// A written Rust type, as far as its descriptor depends on it.
#[derive(Debug, PartialEq)]
pub enum TypeExpr {
    /// `[elem; len]`.
    Array { elem: Box<TypeExpr>, len: ArrayLength },
    /// `(a, b, ...)`.
    Tuple { elems: Vec<TypeExpr> },
    /// A path such as `std::vec::Vec<u8>`: the name of its last segment (none for
    /// an empty path) and, where that segment has angle brackets, the types among
    /// its generic arguments, in order.
    Path { ident: Option<String>, type_args: Option<Vec<TypeExpr>> },
    /// Any other form of type, with its rendering for the error message.
    Unsupported { rendered: String },
}

/// The length of an array type.
#[derive(Debug, PartialEq)]
pub enum ArrayLength {
    /// An integer literal: its value, or why it does not fit in `usize`.
    Literal(Result<usize, String>),
    /// Any other expression.
    Expr,
}

/// The descriptor of a primitive type name.
pub open spec fn primitive_of(ident: Seq<char>) -> Option<SerializableType> {
    if ident == "bool"@ {
        Some(SerializableType::Bool)
    } else if ident == "String"@ {
        Some(SerializableType::String)
    } else if ident == "u128"@ {
        Some(SerializableType::U128)
    } else if ident == "u64"@ {
        Some(SerializableType::U64)
    } else if ident == "u32"@ {
        Some(SerializableType::U32)
    } else if ident == "u16"@ {
        Some(SerializableType::U16)
    } else if ident == "u8"@ {
        Some(SerializableType::U8)
    } else if ident == "i128"@ {
        Some(SerializableType::I128)
    } else if ident == "i64"@ {
        Some(SerializableType::I64)
    } else if ident == "i32"@ {
        Some(SerializableType::I32)
    } else if ident == "i16"@ {
        Some(SerializableType::I16)
    } else if ident == "i8"@ {
        Some(SerializableType::I8)
    } else if ident == "f64"@ {
        Some(SerializableType::F64)
    } else if ident == "f32"@ {
        Some(SerializableType::F32)
    } else {
        None
    }
}

/// The error of a container (`Vec` or `Option`) that takes one type argument.
pub open spec fn single_arg_error(name: Seq<char>, args: Option<Vec<TypeExpr>>) -> Option<
    Seq<char>,
> {
    match args {
        None => Some(name + " must have one generic argument"@),
        Some(a) => if a@.len() == 0 {
            Some(name + " missing type argument"@)
        } else if a@.len() > 1 {
            Some(name + " must have exactly one type argument"@)
        } else {
            None
        },
    }
}

/// The error of `Result`'s type arguments, before their own are looked at.
pub open spec fn result_args_error(args: Option<Vec<TypeExpr>>) -> Option<Seq<char>> {
    match args {
        None => Some("Result must have two generic arguments"@),
        Some(a) => if a@.len() == 0 {
            Some("Result missing Ok type argument"@)
        } else if a@.len() == 1 {
            Some("Result missing Err type argument"@)
        } else if a@.len() > 2 {
            Some("Result must have exactly two type arguments"@)
        } else {
            None
        },
    }
}

/// Why `t` has no descriptor, or none where it has one. The parts of a type are
/// looked at in order, and the first failure is the one reported.
pub open spec fn type_error(t: TypeExpr) -> Option<Seq<char>>
    decreases t,
{
    match t {
        TypeExpr::Array { elem, len } => match len {
            ArrayLength::Literal(Ok(_)) => type_error(*elem),
            ArrayLength::Literal(Err(m)) => Some("Invalid array length: "@ + m@),
            ArrayLength::Expr => Some(
                "Unsupported array length expression, expected integer literal"@,
            ),
        },
        TypeExpr::Tuple { elems } => elements_error(elems@),
        TypeExpr::Path { ident, type_args } => match ident {
            None => Some("Empty type path"@),
            Some(id) => if primitive_of(id@) is Some {
                None
            } else if id@ == "Vec"@ || id@ == "Option"@ {
                match type_args {
                    Some(a) => if a@.len() == 1 {
                        type_error(a@[0])
                    } else {
                        single_arg_error(id@, type_args)
                    },
                    None => single_arg_error(id@, type_args),
                }
            } else if id@ == "Result"@ {
                match type_args {
                    Some(a) => if a@.len() == 2 {
                        match type_error(a@[0]) {
                            Some(e) => Some(e),
                            None => type_error(a@[1]),
                        }
                    } else {
                        result_args_error(type_args)
                    },
                    None => result_args_error(type_args),
                }
            } else {
                None
            },
        },
        TypeExpr::Unsupported { rendered } => Some("Unsupported type: "@ + rendered@),
    }
}

/// The error of the first element of a tuple that has one.
pub open spec fn elements_error(elems: Seq<TypeExpr>) -> Option<Seq<char>>
    decreases elems,
{
    if elems.len() == 0 {
        None
    } else {
        match type_error(elems[0]) {
            Some(e) => Some(e),
            None => elements_error(elems.subrange(1, elems.len() as int)),
        }
    }
}

/// `s` is the descriptor of `t` (for a `t` that has one).
pub open spec fn describes(t: TypeExpr, s: SerializableType) -> bool
    decreases t,
{
    match t {
        TypeExpr::Array { elem, len } => match len {
            ArrayLength::Literal(Ok(n)) => s matches SerializableType::Array { children, length }
                && length == n && describes(*elem, *children),
            _ => false,
        },
        TypeExpr::Tuple { elems } => s matches SerializableType::Tuple { children } && children@.len()
            == elems@.len() && forall|i: int|
            0 <= i < elems@.len() ==> describes(#[trigger] elems@[i], children@[i]),
        TypeExpr::Path { ident, type_args } => match ident {
            None => false,
            Some(id) => if primitive_of(id@) is Some {
                s == primitive_of(id@)->Some_0
            } else if id@ == "Vec"@ {
                match (type_args, s) {
                    (Some(a), SerializableType::Vec { children }) => a@.len() == 1 && describes(
                        a@[0],
                        *children,
                    ),
                    _ => false,
                }
            } else if id@ == "Option"@ {
                match (type_args, s) {
                    (Some(a), SerializableType::Option { some }) => a@.len() == 1 && describes(
                        a@[0],
                        *some,
                    ),
                    _ => false,
                }
            } else if id@ == "Result"@ {
                match (type_args, s) {
                    (Some(a), SerializableType::Result { ok, err }) => a@.len() == 2 && describes(
                        a@[0],
                        *ok,
                    ) && describes(a@[1], *err),
                    _ => false,
                }
            } else {
                s matches SerializableType::Custom { name } && name == id
            },
        },
        TypeExpr::Unsupported { .. } => false,
    }
}

/// Whether `s` is the text `lit`.
fn text_is(s: &String, lit: &str) -> (r: bool)
    ensures
        r == (s@ == lit@),
{
    *s == lit.to_owned()
}

/// The descriptor of a primitive type name.
fn primitive(ident: &String) -> (r: Option<SerializableType>)
    ensures
        r == primitive_of(ident@),
{
    if text_is(ident, "bool") {
        Some(SerializableType::Bool)
    } else if text_is(ident, "String") {
        Some(SerializableType::String)
    } else if text_is(ident, "u128") {
        Some(SerializableType::U128)
    } else if text_is(ident, "u64") {
        Some(SerializableType::U64)
    } else if text_is(ident, "u32") {
        Some(SerializableType::U32)
    } else if text_is(ident, "u16") {
        Some(SerializableType::U16)
    } else if text_is(ident, "u8") {
        Some(SerializableType::U8)
    } else if text_is(ident, "i128") {
        Some(SerializableType::I128)
    } else if text_is(ident, "i64") {
        Some(SerializableType::I64)
    } else if text_is(ident, "i32") {
        Some(SerializableType::I32)
    } else if text_is(ident, "i16") {
        Some(SerializableType::I16)
    } else if text_is(ident, "i8") {
        Some(SerializableType::I8)
    } else if text_is(ident, "f64") {
        Some(SerializableType::F64)
    } else if text_is(ident, "f32") {
        Some(SerializableType::F32)
    } else {
        None
    }
}

impl SerializableType {
    /// The descriptor of a written type: primitives by name, `Vec`, `Option`,
    /// `Result`, arrays with a literal length and tuples by their parts, and any
    /// other named type as a custom reference. Otherwise, why there is none.
    pub fn from_type_expr(t: &TypeExpr) -> (r: Result<SerializableType, String>)
        ensures
            match r {
                Ok(s) => type_error(*t) is None && describes(*t, s),
                Err(e) => type_error(*t) == Some(e@),
            },
        decreases t,
    {
        match t {
            TypeExpr::Array { elem, len } => match len {
                ArrayLength::Literal(Ok(n)) => match SerializableType::from_type_expr(&**elem) {
                    Ok(child) => Ok(SerializableType::Array { children: Box::new(child), length: *n }),
                    Err(e) => Err(e),
                },
                ArrayLength::Literal(Err(m)) => Err(
                    "Invalid array length: ".to_owned().concat(m.as_str()),
                ),
                ArrayLength::Expr => Err(
                    "Unsupported array length expression, expected integer literal".to_owned(),
                ),
            },
            TypeExpr::Tuple { elems } => {
                let mut children: Vec<SerializableType> = Vec::new();
                let mut i: usize = 0;
                assert(elems@.subrange(0, elems@.len() as int) =~= elems@);
                while i < elems.len()
                    invariant
                        *t == (TypeExpr::Tuple { elems: *elems }),
                        i <= elems@.len(),
                        children@.len() == i,
                        forall|j: int| 0 <= j < i ==> describes(#[trigger] elems@[j], children@[j]),
                        elements_error(elems@) == elements_error(
                            elems@.subrange(i as int, elems@.len() as int),
                        ),
                    decreases elems@.len() - i,
                {
                    let ghost rest = elems@.subrange(i as int, elems@.len() as int);
                    assert(rest[0] == elems@[i as int]);
                    assert(rest.subrange(1, rest.len() as int) =~= elems@.subrange(
                        i + 1,
                        elems@.len() as int,
                    ));
                    match SerializableType::from_type_expr(&elems[i]) {
                        Ok(child) => {
                            children.push(child);
                        },
                        Err(e) => {
                            return Err(e);
                        },
                    }
                    i = i + 1;
                }
                Ok(SerializableType::Tuple { children })
            },
            TypeExpr::Path { ident, type_args } => match ident {
                None => Err("Empty type path".to_owned()),
                Some(id) => match primitive(id) {
                    Some(p) => Ok(p),
                    None => if text_is(id, "Vec") || text_is(id, "Option") {
                        match type_args {
                            None => Err(id.clone().concat(" must have one generic argument")),
                            Some(a) => if a.len() == 0 {
                                Err(id.clone().concat(" missing type argument"))
                            } else if a.len() > 1 {
                                Err(id.clone().concat(" must have exactly one type argument"))
                            } else {
                                match SerializableType::from_type_expr(&a[0]) {
                                    Ok(child) => if text_is(id, "Vec") {
                                        Ok(SerializableType::Vec { children: Box::new(child) })
                                    } else {
                                        Ok(SerializableType::Option { some: Box::new(child) })
                                    },
                                    Err(e) => Err(e),
                                }
                            },
                        }
                    } else if text_is(id, "Result") {
                        match type_args {
                            None => Err("Result must have two generic arguments".to_owned()),
                            Some(a) => if a.len() == 0 {
                                Err("Result missing Ok type argument".to_owned())
                            } else if a.len() == 1 {
                                Err("Result missing Err type argument".to_owned())
                            } else if a.len() > 2 {
                                Err("Result must have exactly two type arguments".to_owned())
                            } else {
                                match SerializableType::from_type_expr(&a[0]) {
                                    Ok(ok) => match SerializableType::from_type_expr(&a[1]) {
                                        Ok(err) => Ok(
                                            SerializableType::Result {
                                                ok: Box::new(ok),
                                                err: Box::new(err),
                                            },
                                        ),
                                        Err(e) => Err(e),
                                    },
                                    Err(e) => Err(e),
                                }
                            },
                        }
                    } else {
                        Ok(SerializableType::Custom { name: id.clone() })
                    },
                },
            },
            TypeExpr::Unsupported { rendered } => Err(
                "Unsupported type: ".to_owned().concat(rendered.as_str()),
            ),
        }
    }
}

} // verus!
