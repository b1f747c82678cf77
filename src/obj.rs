//! The handler that stores a tagged value and reports what it stored; one
//! instance listens on the main context and one on a background context.
use vstd::prelude::*;
use vstd::string::StringExecFns;
use crate::addition::{addition_reply, HostInfo};
use crate::value::{
    decode_failure, find_string, is_decode_failure, is_key, is_not_implemented, not_implemented,
    same_text, string_field, string_from, MethodCall, PlatformError, PlatformResult, Value,
};

verus! {

/// The handler behind the `obj` channels.
pub struct Obj {}

/// A tagged string value.
#[derive(Debug)]
pub struct ObjPayload {
    pub tag: String,
    pub value: String,
}

/// What `insert` stores in place of the value it was sent.
pub open spec fn inserted_marker() -> Seq<char> {
    "Inserted Value"@
}

/// True when `v` is the encoding of a payload with tag `tag` and value
/// `value`: the pairs `tag` and `value`, in this order.
pub open spec fn is_payload_value(v: Value, tag: Seq<char>, value: Seq<char>) -> bool {
    &&& v matches Value::Pairs(entries)
    &&& entries@.len() == 2
    &&& is_key(entries@[0].0, "tag"@)
    &&& entries@[0].1 matches Value::Str(t) && t@ == tag
    &&& is_key(entries@[1].0, "value"@)
    &&& entries@[1].1 matches Value::Str(x) && x@ == value
}

/// What decoding `v` as a payload gives: both fields, or a decode failure
/// where either is absent or not a string.
pub open spec fn decoded_payload(v: Value, r: Result<ObjPayload, PlatformError>) -> bool {
    match (string_field(v, "tag"@), string_field(v, "value"@)) {
        (Some(t), Some(x)) => r matches Ok(p) && p.tag@ == t && p.value@ == x,
        _ => r matches Err(e) && is_decode_failure(e),
    }
}

/// What `insert` owes for `args`: the payload it holds, with its value
/// replaced by the marker, or the decode failure.
pub open spec fn insert_result(args: Value, r: PlatformResult) -> bool {
    match (string_field(args, "tag"@), string_field(args, "value"@)) {
        (Some(t), Some(_)) => r matches Ok(v) && is_payload_value(v, t, inserted_marker()),
        _ => r matches Err(e) && is_decode_failure(e),
    }
}

/// True when `r` is what the `obj` handler owes for a call of `method` with
/// `args`.
pub open spec fn obj_reply(method: Seq<char>, args: Value, r: PlatformResult) -> bool {
    if method == "insert"@ {
        insert_result(args, r)
    } else {
        r matches Err(e) && is_not_implemented(e, method)
    }
}

impl ObjPayload {
    /// Decodes a payload from the string fields `tag` and `value` of a map
    /// value.
    pub fn try_from_value(v: &Value) -> (r: Result<ObjPayload, PlatformError>)
        ensures
            decoded_payload(*v, r),
    {
        proof {
            reveal_strlit("tag");
            reveal_strlit("value");
        }
        let tag = match find_string(v, "tag") {
            Some(t) => t,
            None => {
                return Err(decode_failure("tag"));
            },
        };
        let value = match find_string(v, "value") {
            Some(x) => x,
            None => {
                return Err(decode_failure("value"));
            },
        };
        Ok(ObjPayload { tag, value })
    }

    /// Encodes the payload as the pairs `tag` and `value`.
    pub fn into_value(self) -> (r: Value)
        ensures
            is_payload_value(r, self.tag@, self.value@),
    {
        proof {
            reveal_strlit("tag");
            reveal_strlit("value");
        }
        let mut entries: Vec<(Value, Value)> = Vec::new();
        entries.push((Value::Str(String::from_str("tag")), Value::Str(self.tag)));
        entries.push((Value::Str(String::from_str("value")), Value::Str(self.value)));
        Value::Pairs(entries)
    }
}

impl Obj {
    pub fn new() -> (r: Obj) {
        Obj {}
    }

    /// Answers `insert` with the payload it was sent, its value replaced by
    /// the marker; any other method gets a not-implemented failure.
    pub fn on_method_call(&self, call: &MethodCall) -> (r: PlatformResult)
        ensures
            obj_reply(call.method@, call.args, r),
    {
        proof {
            reveal_strlit("insert");
            reveal_strlit("Inserted Value");
        }
        if same_text(&call.method, "insert") {
            let mut payload = match ObjPayload::try_from_value(&call.args) {
                Ok(p) => p,
                Err(e) => {
                    return Err(e);
                },
            };
            payload.value = String::from_str("Inserted Value");
            Ok(payload.into_value())
        } else {
            Err(not_implemented(&call.method))
        }
    }
}

/// Decoding the encoding of a payload gives the payload back.
pub proof fn payload_round_trip(v: Value, tag: Seq<char>, value: Seq<char>)
    requires
        is_payload_value(v, tag, value),
    ensures
        string_field(v, "tag"@) == Some(tag),
        string_field(v, "value"@) == Some(value),
{
    let entries = v->Pairs_0@;
    reveal_strlit("tag");
    reveal_strlit("value");
    assert("tag"@ != "value"@) by {
        assert("tag"@.len() != "value"@.len());
    }
    assert(string_from(entries, "tag"@, 0) == Some(tag));
    assert(!is_key(entries[0].0, "value"@));
    assert(string_from(entries, "value"@, 1) == Some(value));
}

/// `insert` on a payload with two string fields always answers with the same
/// tag and the marker as value, whatever value it was sent.
pub proof fn insert_answers_marker(args: Value, r: PlatformResult)
    requires
        obj_reply("insert"@, args, r),
        string_field(args, "tag"@) is Some,
        string_field(args, "value"@) is Some,
    ensures
        r matches Ok(v) && string_field(v, "value"@) == Some(inserted_marker()) && string_field(
            v,
            "tag"@,
        ) == string_field(args, "tag"@),
{
    let v = r->Ok_0;
    payload_round_trip(v, string_field(args, "tag"@)->Some_0, inserted_marker());
}

/// A method name that no handler registers gets, from either handler, a
/// not-implemented failure that carries the name as detail.
pub proof fn unregistered_method_not_implemented(
    host: HostInfo,
    method: Seq<char>,
    args: Value,
    main_reply: PlatformResult,
    obj_channel_reply: PlatformResult,
)
    requires
        method != "send_message"@,
        method != "add"@,
        method != "get_system_info"@,
        method != "insert"@,
        addition_reply(host, method, args, main_reply),
        obj_reply(method, args, obj_channel_reply),
    ensures
        main_reply matches Err(e) && is_not_implemented(e, method),
        obj_channel_reply matches Err(e) && is_not_implemented(e, method),
{
}

} // verus!
