//! The optional trailing payload of a frame: `Args` then `Kwargs`.
//!
//! The wire format identifies fields positionally, so `Kwargs` can never be
//! emitted alone: when it is present without an emitted `Args`, an
//! empty-array placeholder takes the `Args` slot.

use crate::value::JsonVal;
use vstd::prelude::*;

verus! {

/// Whether the value is the empty-array placeholder.
pub open spec fn is_empty_array(v: JsonVal) -> bool {
    v matches JsonVal::Array(a) && a@.len() == 0
}

/// Whether `p` is the payload that encoding `args` and `kwargs` emits:
/// `Args` when present and array-typed; `Kwargs` when present and
/// object-typed, preceded by an empty-array placeholder when `Args` was not
/// emitted; nothing else.
pub open spec fn payload_ok(args: Option<JsonVal>, kwargs: Option<JsonVal>, p: Seq<JsonVal>) -> bool {
    match (args, kwargs) {
        (Some(a), Some(k)) => if a is Array && k is Object {
            p.len() == 2 && p[0] == a && p[1] == k
        } else if a is Array {
            p.len() == 1 && p[0] == a
        } else if k is Object {
            p.len() == 2 && is_empty_array(p[0]) && p[1] == k
        } else {
            p.len() == 0
        },
        (Some(a), None) => if a is Array {
            p.len() == 1 && p[0] == a
        } else {
            p.len() == 0
        },
        (None, Some(k)) => if k is Object {
            p.len() == 2 && is_empty_array(p[0]) && p[1] == k
        } else {
            p.len() == 0
        },
        (None, None) => p.len() == 0,
    }
}

/// Whether the payload fields are legally constructed: `Args`, when
/// present, holds an array, and `Kwargs`, when present, holds an object.
pub open spec fn payload_wf(args: Option<JsonVal>, kwargs: Option<JsonVal>) -> bool {
    &&& (args matches Some(a) ==> a is Array)
    &&& (kwargs matches Some(k) ==> k is Object)
}

/// How decoded payload fields relate to the ones that were encoded:
/// `Kwargs` and a present `Args` come back as they were, and the
/// placeholder that stands in for an absent `Args` beside a present
/// `Kwargs` comes back as an empty array.
pub open spec fn payload_round_trip(
    args: Option<JsonVal>,
    kwargs: Option<JsonVal>,
    args2: Option<JsonVal>,
    kwargs2: Option<JsonVal>,
) -> bool {
    &&& kwargs2 == kwargs
    &&& (args is Some ==> args2 == args)
    &&& (args is None && kwargs is Some ==> (args2 matches Some(a) && is_empty_array(a)))
    &&& (args is None && kwargs is None ==> args2 is None)
}

/// Appends the optional payload to a frame under the encoding policy.
pub fn push_payload(data: &mut Vec<JsonVal>, args: Option<JsonVal>, kwargs: Option<JsonVal>)
    ensures
        final(data)@.len() >= old(data)@.len(),
        final(data)@.subrange(0, old(data)@.len() as int) == old(data)@,
        payload_ok(args, kwargs, final(data)@.skip(old(data)@.len() as int)),
{
    let ghost base = data@;
    let args_emitted: bool = match args {
        Some(a) => {
            if a.is_array() {
                data.push(a);
                true
            } else {
                false
            }
        },
        None => false,
    };
    match kwargs {
        Some(k) => {
            if k.is_object() {
                if !args_emitted {
                    let placeholder: Vec<JsonVal> = Vec::new();
                    data.push(JsonVal::Array(placeholder));
                }
                data.push(k);
            }
        },
        None => {},
    }
    proof {
        assert(data@.subrange(0, base.len() as int) =~= base);
    }
}

} // verus!
