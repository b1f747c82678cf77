//! The generic value exchanged with the host, the call and failure records,
//! and the lookup helpers over key-value sequences.
use vstd::prelude::*;
use vstd::string::StringExecFns;

verus! {

/// A generic value as it crosses the channel.
#[derive(Debug)]
pub enum Value {
    Null,
    I64(i64),
    Str(String),
    List(Vec<Value>),
    /// An ordered sequence of key-value pairs; keys need not be unique.
    Pairs(Vec<(Value, Value)>),
}

/// True when `k` is the string `key`.
pub open spec fn is_key(k: Value, key: Seq<char>) -> bool {
    k matches Value::Str(s) && s@ == key
}

/// The first entry of `entries`, from index `i` on, whose key is `key` and
/// whose value is a string, as that string; `None` if there is none.
pub open spec fn string_from(entries: Seq<(Value, Value)>, key: Seq<char>, i: int) -> Option<Seq<char>>
    decreases entries.len() - i,
{
    if i < 0 || i >= entries.len() {
        None
    } else if is_key(entries[i].0, key) && entries[i].1 is Str {
        Some(entries[i].1->Str_0@)
    } else {
        string_from(entries, key, i + 1)
    }
}

/// The first entry of `entries`, from index `i` on, whose key is `key` and
/// whose value is an integer, as that integer; `None` if there is none.
pub open spec fn int_from(entries: Seq<(Value, Value)>, key: Seq<char>, i: int) -> Option<i64>
    decreases entries.len() - i,
{
    if i < 0 || i >= entries.len() {
        None
    } else if is_key(entries[i].0, key) && entries[i].1 is I64 {
        Some(entries[i].1->I64_0)
    } else {
        int_from(entries, key, i + 1)
    }
}

/// The string field `key` of a map value; `None` for any other value.
pub open spec fn string_field(v: Value, key: Seq<char>) -> Option<Seq<char>> {
    match v {
        Value::Pairs(entries) => string_from(entries@, key, 0),
        _ => None,
    }
}

/// The integer field `key` of a map value; `None` for any other value.
pub open spec fn int_field(v: Value, key: Seq<char>) -> Option<i64> {
    match v {
        Value::Pairs(entries) => int_from(entries@, key, 0),
        _ => None,
    }
}

/// True when the strings `a` and `b` hold the same characters.
pub fn same_text(a: &String, b: &str) -> (r: bool)
    ensures
        r == (a@ == b@),
{
    let b_owned = String::from_str(b);
    *a == b_owned
}

/// Looks up the string field `key` of a map value: the first entry whose key
/// is `key` and whose value is a string. Any other value, an absent key or a
/// value of another kind gives `None`.
pub fn find_string(v: &Value, key: &str) -> (r: Option<String>)
    ensures
        match r {
            Some(s) => string_field(*v, key@) == Some(s@),
            None => string_field(*v, key@) is None,
        },
{
    match v {
        Value::Pairs(entries) => {
            let mut i: usize = 0;
            while i < entries.len()
                invariant
                    0 <= i <= entries@.len(),
                    string_field(*v, key@) == string_from(entries@, key@, i as int),
                decreases entries@.len() - i,
            {
                let entry = &entries[i];
                match (&entry.0, &entry.1) {
                    (Value::Str(k), Value::Str(s)) => {
                        if same_text(k, key) {
                            assert(is_key(entries@[i as int].0, key@));
                            return Some(s.clone());
                        }
                    },
                    _ => {},
                }
                i = i + 1;
            }
            None
        },
        _ => None,
    }
}

/// Looks up the integer field `key` of a map value: the first entry whose key
/// is `key` and whose value is an integer. Any other value, an absent key or a
/// value of another kind gives `None`.
pub fn find_int(v: &Value, key: &str) -> (r: Option<i64>)
    ensures
        r == int_field(*v, key@),
{
    match v {
        Value::Pairs(entries) => {
            let mut i: usize = 0;
            while i < entries.len()
                invariant
                    0 <= i <= entries@.len(),
                    int_field(*v, key@) == int_from(entries@, key@, i as int),
                decreases entries@.len() - i,
            {
                let entry = &entries[i];
                match (&entry.0, &entry.1) {
                    (Value::Str(k), Value::I64(n)) => {
                        if same_text(k, key) {
                            assert(is_key(entries@[i as int].0, key@));
                            return Some(*n);
                        }
                    },
                    _ => {},
                }
                i = i + 1;
            }
            None
        },
        _ => None,
    }
}

/// A method call as it arrives on a channel.
#[derive(Debug)]
pub struct MethodCall {
    pub method: String,
    pub args: Value,
}

/// The uniform failure record handed back to the caller.
#[derive(Debug)]
pub struct PlatformError {
    pub code: String,
    pub message: Option<String>,
    pub detail: Value,
}

/// The result of a method call.
pub type PlatformResult = Result<Value, PlatformError>;

pub open spec fn not_implemented_code() -> Seq<char> {
    seq!['N', 'O', 'T', '_', 'I', 'M', 'P', 'L', 'E', 'M', 'E', 'N', 'T', 'E', 'D']
}

pub open spec fn invalid_argument_code() -> Seq<char> {
    seq!['I', 'N', 'V', 'A', 'L', 'I', 'D', '_', 'A', 'R', 'G', 'U', 'M', 'E', 'N', 'T']
}

/// True when `e` is the failure for the unknown method `method`: the code
/// `NOT_IMPLEMENTED`, and the method name as detail.
pub open spec fn is_not_implemented(e: PlatformError, method: Seq<char>) -> bool {
    &&& e.code@ == not_implemented_code()
    &&& e.detail matches Value::Str(d) && d@ == method
}

/// True when `e` is an invalid-argument failure.
pub open spec fn is_invalid_argument(e: PlatformError) -> bool {
    e.code@ == invalid_argument_code()
}

/// The failure for a call of a method that the handler does not know.
pub fn not_implemented(method: &String) -> (e: PlatformError)
    ensures
        is_not_implemented(e, method@),
{
    proof {
        reveal_strlit("NOT_IMPLEMENTED");
    }
    let code = String::from_str("NOT_IMPLEMENTED");
    assert(code@ =~= not_implemented_code());
    let message = String::from_str("Unknown method: ").concat(method.as_str());
    PlatformError { code, message: Some(message), detail: Value::Str(method.clone()) }
}

pub open spec fn decode_failure_code() -> Seq<char> {
    "try_from_error"@
}

/// True when `e` is a failure to decode a payload into a structure.
pub open spec fn is_decode_failure(e: PlatformError) -> bool {
    e.code@ == decode_failure_code()
}

/// The failure for a payload that does not have the shape of the structure
/// it is decoded into.
pub fn decode_failure(field: &str) -> (e: PlatformError)
    ensures
        is_decode_failure(e),
        e.detail is Null,
{
    let code = String::from_str("try_from_error");
    let message = String::from_str("Missing or invalid value for field: ").concat(field);
    PlatformError { code, message: Some(message), detail: Value::Null }
}

/// The failure for a call whose arguments lack a required field.
pub fn invalid_argument(field: &str) -> (e: PlatformError)
    ensures
        is_invalid_argument(e),
        e.detail is Null,
{
    proof {
        reveal_strlit("INVALID_ARGUMENT");
    }
    let code = String::from_str("INVALID_ARGUMENT");
    assert(code@ =~= invalid_argument_code());
    let message = String::from_str("Missing or invalid field: ").concat(field);
    PlatformError { code, message: Some(message), detail: Value::Null }
}

} // verus!
