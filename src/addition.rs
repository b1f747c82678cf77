//! The handler of the main channel: echo, integer addition and a description
//! of the host system.
use vstd::prelude::*;
use vstd::string::StringExecFns;
use crate::value::{
    find_int, find_string, int_field, invalid_argument, is_invalid_argument, is_not_implemented,
    not_implemented, same_text, string_field, MethodCall, PlatformResult, Value,
};

verus! {

/// What the echo method puts before the text it was sent.
pub open spec fn echo_prefix() -> Seq<char> {
    "Echo from Rust: "@
}

/// The last element of the system description.
pub open spec fn implementation_marker() -> Seq<char> {
    "Rust"@
}

/// An integer field of the arguments, or zero where it is absent or not an
/// integer.
pub open spec fn int_or_zero(args: Value, key: Seq<char>) -> int {
    match int_field(args, key) {
        Some(n) => n as int,
        None => 0,
    }
}

/// `s` brought into the range of `i64` by two's-complement wrapping.
pub open spec fn wrap_i64(s: int) -> i64 {
    if s > i64::MAX {
        (s - 0x1_0000_0000_0000_0000) as i64
    } else if s < i64::MIN {
        (s + 0x1_0000_0000_0000_0000) as i64
    } else {
        s as i64
    }
}

/// The sum that the add method returns for `args`, before wrapping.
pub open spec fn add_sum(args: Value) -> int {
    int_or_zero(args, "a"@) + int_or_zero(args, "b"@)
}

/// What the echo method returns for `args`.
pub open spec fn echo_result(args: Value, r: PlatformResult) -> bool {
    match string_field(args, "message"@) {
        Some(s) => r matches Ok(Value::Str(o)) && o@ == echo_prefix() + s,
        None => r matches Err(e) && is_invalid_argument(e),
    }
}

/// What the add method returns for `args`.
pub open spec fn add_result(args: Value, r: PlatformResult) -> bool {
    r matches Ok(Value::I64(n)) && n == wrap_i64(add_sum(args))
}

/// Facts about the host that the system description reports.
pub struct HostInfo {
    pub os: String,
    pub arch: String,
    pub family: String,
}

/// True when `v` is the list of `strs`, in order.
pub open spec fn is_string_list(v: Value, strs: Seq<Seq<char>>) -> bool {
    v matches Value::List(items) && items@.len() == strs.len() && forall|i: int|
        0 <= i < strs.len() ==> (#[trigger] items@[i] matches Value::Str(s) && s@ == strs[i])
}

/// The system description of `host`: operating system, architecture, family
/// and implementation marker.
pub open spec fn system_description(host: HostInfo) -> Seq<Seq<char>> {
    seq![host.os@, host.arch@, host.family@, implementation_marker()]
}

/// Answers the string field `message` of the arguments with the echo prefix
/// before it; fails with an invalid-argument failure where that field is
/// absent or not a string.
pub fn echo(args: &Value) -> (r: PlatformResult)
    ensures
        echo_result(*args, r),
{
    match find_string(args, "message") {
        Some(s) => {
            proof {
                reveal_strlit("message");
                reveal_strlit("Echo from Rust: ");
            }
            let out = String::from_str("Echo from Rust: ").concat(s.as_str());
            Ok(Value::Str(out))
        },
        None => {
            proof {
                reveal_strlit("message");
            }
            Err(invalid_argument("message"))
        },
    }
}

/// Adds the integer fields `a` and `b` of the arguments; an absent field or
/// one that is not an integer counts as zero. Never fails.
pub fn add(args: &Value) -> (r: PlatformResult)
    ensures
        add_result(*args, r),
{
    proof {
        reveal_strlit("a");
        reveal_strlit("b");
    }
    let a = match find_int(args, "a") {
        Some(n) => n,
        None => 0,
    };
    let b = match find_int(args, "b") {
        Some(n) => n,
        None => 0,
    };
    Ok(Value::I64(a.wrapping_add(b)))
}

/// The system description of `host` as a list of strings.
pub fn system_info(host: &HostInfo) -> (r: Value)
    ensures
        is_string_list(r, system_description(*host)),
{
    proof {
        reveal_strlit("Rust");
    }
    let mut items: Vec<Value> = Vec::new();
    items.push(Value::Str(host.os.clone()));
    items.push(Value::Str(host.arch.clone()));
    items.push(Value::Str(host.family.clone()));
    items.push(Value::Str(String::from_str("Rust")));
    let r = Value::List(items);
    assert(system_description(*host)[3] == implementation_marker());
    r
}

/// The handler of the main channel.
pub struct Addition {
    pub host: HostInfo,
}

/// True when `r` is what the main channel's handler owes for a call of
/// `method` with `args` on `host`.
pub open spec fn addition_reply(host: HostInfo, method: Seq<char>, args: Value, r: PlatformResult) -> bool {
    if method == "send_message"@ {
        echo_result(args, r)
    } else if method == "add"@ {
        add_result(args, r)
    } else if method == "get_system_info"@ {
        r matches Ok(v) && is_string_list(v, system_description(host))
    } else {
        r matches Err(e) && is_not_implemented(e, method)
    }
}

impl Addition {
    pub fn new(host: HostInfo) -> (r: Addition)
        ensures
            r.host == host,
    {
        Addition { host }
    }

    /// Dispatches a call by its method name: `send_message`, `add` and
    /// `get_system_info`; any other name gets a not-implemented failure.
    pub fn on_method_call(&self, call: &MethodCall) -> (r: PlatformResult)
        ensures
            addition_reply(self.host, call.method@, call.args, r),
    {
        proof {
            reveal_strlit("send_message");
            reveal_strlit("add");
            reveal_strlit("get_system_info");
        }
        if same_text(&call.method, "send_message") {
            echo(&call.args)
        } else if same_text(&call.method, "add") {
            crate::addition::add(&call.args)
        } else if same_text(&call.method, "get_system_info") {
            Ok(system_info(&self.host))
        } else {
            Err(not_implemented(&call.method))
        }
    }
}

/// The reply to `get_system_info` is always a list of four strings, in the
/// order operating system, architecture, family, implementation marker; each
/// is non-empty where the host facts are.
pub proof fn system_info_reply_shape(host: HostInfo, args: Value, r: PlatformResult)
    requires
        addition_reply(host, "get_system_info"@, args, r),
        host.os@.len() > 0,
        host.arch@.len() > 0,
        host.family@.len() > 0,
    ensures
        r matches Ok(v) && is_string_list(v, system_description(host)),
        system_description(host).len() == 4,
        system_description(host)[0] == host.os@,
        system_description(host)[1] == host.arch@,
        system_description(host)[2] == host.family@,
        system_description(host)[3] == implementation_marker(),
        forall|i: int| 0 <= i < 4 ==> #[trigger] system_description(host)[i].len() > 0,
{
    reveal_strlit("get_system_info");
    reveal_strlit("send_message");
    reveal_strlit("add");
    reveal_strlit("Rust");
    assert("get_system_info"@ != "send_message"@) by {
        assert("get_system_info"@.len() != "send_message"@.len());
    }
    assert("get_system_info"@ != "add"@) by {
        assert("get_system_info"@.len() != "add"@.len());
    }
    assert(implementation_marker().len() == 4);
}

} // verus!
