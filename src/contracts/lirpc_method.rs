//! The description of a method, read off its signature.
use crate::contracts::contract_file::{LiRpcMethodFile, LiRpcMethodReturn, SerializableType};
use crate::contracts::serializable_type::{describes, type_error, TypeExpr};
use vstd::prelude::*;
use vstd::string::*;

verus! {

/// A handler's signature: its name, the types of its typed parameters in order,
/// and its return type, if it declares one.
#[derive(Debug, PartialEq)]
pub struct MethodSignature {
    pub name: String,
    pub params: Vec<TypeExpr>,
    pub output: Option<TypeExpr>,
}

/// Whether a parameter named `id` is where the handler's replies go.
pub open spec fn is_output_name(id: Seq<char>) -> bool {
    id == "Output"@ || id == "OutputStream"@
}

/// For a parameter `Output<T>`, `OutputStream<T>` or `Message<T>`: its name and
/// the first type `T` among its arguments.
pub open spec fn capability_of(p: TypeExpr) -> Option<(Seq<char>, TypeExpr)> {
    match p {
        TypeExpr::Path { ident: Some(id), type_args: Some(args) } => if (is_output_name(id@)
            || id@ == "Message"@) && args@.len() > 0 {
            Some((id@, args@[0]))
        } else {
            None
        },
        _ => None,
    }
}

/// Going through `params` in order: the written output and message types found
/// so far, or the first reason the signature is refused.
pub open spec fn scan_params(params: Seq<TypeExpr>) -> Result<
    (Option<TypeExpr>, Option<TypeExpr>),
    Seq<char>,
>
    decreases params.len(),
{
    if params.len() == 0 {
        Ok((None, None))
    } else {
        match scan_params(params.drop_last()) {
            Err(e) => Err(e),
            Ok((out, msg)) => match capability_of(params.last()) {
                None => Ok((out, msg)),
                Some((id, inner)) => match type_error(inner) {
                    Some(e) => Err("Unsupported inner type for "@ + id + ": "@ + e),
                    None => if is_output_name(id) {
                        if out is Some {
                            Err(
                                "Multiple output parameters found (Output/OutputStream are exclusive)"@,
                            )
                        } else {
                            Ok((Some(inner), msg))
                        }
                    } else {
                        if msg is Some {
                            Err("Multiple message parameters found (only one Message<T> allowed)"@)
                        } else {
                            Ok((out, Some(inner)))
                        }
                    },
                },
            },
        }
    }
}

/// A written type of the form `Result<T, E>`.
pub open spec fn is_result_type(t: TypeExpr) -> bool {
    t matches TypeExpr::Path { ident: Some(id), type_args: Some(a) } && id@ == "Result"@ && a@.len()
        == 2
}

/// Why a declared return type is refused: it must be `Result<(), E>`, or absent.
pub open spec fn return_error(output: Option<TypeExpr>) -> Option<Seq<char>> {
    match output {
        None => None,
        Some(t) => match type_error(t) {
            Some(e) => Some("Error parsing method's return type: "@ + e),
            None => if is_result_type(t) {
                None
            } else {
                Some(
                    "A lirpc method should return either the (default) union type or a `Result<(), E>`."@,
                )
            },
        },
    }
}

/// Why `sig` has no description: the parameters are looked at first, then the
/// return type.
pub open spec fn signature_error(sig: MethodSignature) -> Option<Seq<char>> {
    match scan_params(sig.params@) {
        Err(e) => Some(e),
        Ok(_) => return_error(sig.output),
    }
}

/// `s` is the descriptor of the written type `t`, where there is one.
pub open spec fn slot_describes(t: Option<TypeExpr>, s: Option<SerializableType>) -> bool {
    match (t, s) {
        (None, None) => true,
        (Some(t), Some(s)) => describes(t, s),
        _ => false,
    }
}

/// `r` describes the declared return type `output`: nothing, or the error type
/// of `Result<(), E>`.
pub open spec fn return_describes(output: Option<TypeExpr>, r: LiRpcMethodReturn) -> bool {
    match output {
        None => r is Nothing,
        Some(t) => r matches LiRpcMethodReturn::Fallible(e) && describes(
            t->type_args->Some_0@[1],
            e,
        ),
    }
}

/// The name of a capability parameter, if `p` is one, with its written type.
fn capability(p: &TypeExpr) -> (r: Option<(&String, &TypeExpr)>)
    ensures
        match r {
            Some((id, inner)) => capability_of(*p) == Some((id@, *inner)),
            None => capability_of(*p) is None,
        },
{
    match p {
        TypeExpr::Path { ident: Some(id), type_args: Some(args) } => {
            let named = *id == "Output".to_owned() || *id == "OutputStream".to_owned() || *id
                == "Message".to_owned();
            if named && args.len() > 0 {
                Some((id, &args[0]))
            } else {
                None
            }
        },
        _ => None,
    }
}

/// The description of the method with signature `sig`: its message type (from
/// `Message<T>`), its output type (from `Output<T>` or `OutputStream<T>`), and
/// the error type it may return. A signature with two outputs, two messages, a
/// type without a descriptor, or a return type other than `Result<(), E>` is
/// refused with the reason.
pub fn lirpc_method(sig: &MethodSignature) -> (r: Result<LiRpcMethodFile, String>)
    ensures
        match r {
            Ok(f) => {
                &&& signature_error(*sig) is None
                &&& f.name == sig.name
                &&& scan_params(sig.params@) matches Ok((out, msg)) && slot_describes(out, f.output)
                    && slot_describes(msg, f.message)
                &&& return_describes(sig.output, f.return_type)
            },
            Err(e) => signature_error(*sig) == Some(e@),
        },
{
    let mut output: Option<SerializableType> = None;
    let mut message: Option<SerializableType> = None;
    let ghost mut out_t: Option<TypeExpr> = None;
    let ghost mut msg_t: Option<TypeExpr> = None;
    let mut i: usize = 0;
    while i < sig.params.len()
        invariant
            i <= sig.params@.len(),
            scan_params(sig.params@.take(i as int)) == Ok::<
                (Option<TypeExpr>, Option<TypeExpr>),
                Seq<char>,
            >((out_t, msg_t)),
            slot_describes(out_t, output),
            slot_describes(msg_t, message),
        decreases sig.params@.len() - i,
    {
        let ghost prefix = sig.params@.take(i + 1);
        assert(prefix.drop_last() =~= sig.params@.take(i as int));
        assert(prefix.last() == sig.params@[i as int]);
        match capability(&sig.params[i]) {
            None => {},
            Some((id, inner)) => match SerializableType::from_type_expr(inner) {
                Err(e) => {
                    proof {
                        lemma_scan_error_stays(sig.params@, i + 1);
                    }
                    return Err(
                        "Unsupported inner type for ".to_owned().concat(id.as_str()).concat(
                            ": ",
                        ).concat(e.as_str()),
                    );
                },
                Ok(st) => {
                    let to_output = *id == "Output".to_owned() || *id == "OutputStream".to_owned();
                    if to_output {
                        if output.is_some() {
                            proof {
                                lemma_scan_error_stays(sig.params@, i + 1);
                            }
                            return Err(
                                "Multiple output parameters found (Output/OutputStream are exclusive)".to_owned(),
                            );
                        }
                        output = Some(st);
                        proof {
                            out_t = Some(*inner);
                        }
                    } else {
                        if message.is_some() {
                            proof {
                                lemma_scan_error_stays(sig.params@, i + 1);
                            }
                            return Err(
                                "Multiple message parameters found (only one Message<T> allowed)".to_owned(),
                            );
                        }
                        message = Some(st);
                        proof {
                            msg_t = Some(*inner);
                        }
                    }
                },
            },
        }
        i = i + 1;
    }
    assert(sig.params@.take(i as int) =~= sig.params@);
    let return_type = match &sig.output {
        None => LiRpcMethodReturn::Nothing,
        Some(t) => match SerializableType::from_type_expr(t) {
            Err(e) => {
                return Err("Error parsing method's return type: ".to_owned().concat(e.as_str()));
            },
            Ok(SerializableType::Result { ok: _, err }) => LiRpcMethodReturn::Fallible(*err),
            Ok(other) => {
                proof {
                    if is_result_type(*t) {
                        lemma_result_described_as_result(*t, other);
                    }
                }
                return Err(
                    "A lirpc method should return either the (default) union type or a `Result<(), E>`.".to_owned(),
                );
            },
        },
    };
    Ok(LiRpcMethodFile { name: sig.name.clone(), output, message, return_type })
}

/// The descriptor of a written `Result<T, E>` is a result.
proof fn lemma_result_described_as_result(t: TypeExpr, s: SerializableType)
    requires
        is_result_type(t),
        describes(t, s),
    ensures
        s is Result,
{
    reveal_strlit("Result");
    reveal_strlit("String");
    reveal_strlit("Option");
    reveal_strlit("Vec");
    reveal_strlit("bool");
    reveal_strlit("u128");
    reveal_strlit("u64");
    reveal_strlit("u32");
    reveal_strlit("u16");
    reveal_strlit("u8");
    reveal_strlit("i128");
    reveal_strlit("i64");
    reveal_strlit("i32");
    reveal_strlit("i16");
    reveal_strlit("i8");
    reveal_strlit("f64");
    reveal_strlit("f32");
    assert("Result"@[0] != "String"@[0]);
    assert("Result"@[0] != "Option"@[0]);
}

/// Once scanning a prefix of the parameters fails, scanning all of them fails
/// the same way.
proof fn lemma_scan_error_stays(params: Seq<TypeExpr>, k: int)
    requires
        0 <= k <= params.len(),
        scan_params(params.take(k)) is Err,
    ensures
        scan_params(params) == scan_params(params.take(k)),
    decreases params.len() - k,
{
    if k < params.len() {
        assert(params.take(k + 1).drop_last() =~= params.take(k));
        lemma_scan_error_stays(params, k + 1);
    } else {
        assert(params.take(k) =~= params);
    }
}

} // verus!
