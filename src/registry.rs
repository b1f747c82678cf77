//! Which channels the plugin opens, the handler behind each and the
//! execution context its calls run on.
use vstd::prelude::*;
use vstd::string::StringExecFns;

verus! {

/// The single-threaded context that a channel's calls are executed on.
#[derive(Debug, Clone, Copy, PartialEq, Eq, Structural)]
pub enum ExecutionContext {
    /// The host's main thread, driven by the host's own loop.
    Main,
    /// A dedicated thread that runs a loop of its own.
    Background,
}

/// The handler that answers a channel's calls.
#[derive(Debug, Clone, Copy, PartialEq, Eq, Structural)]
pub enum HandlerKind {
    Addition,
    Obj,
}

/// A channel: its name, its handler and the context it is bound to.
#[derive(Debug)]
pub struct ChannelRegistration {
    pub name: String,
    pub handler: HandlerKind,
    pub context: ExecutionContext,
}

/// True when `r` names the channel `name` with `handler` on `context`.
pub open spec fn registers(
    r: ChannelRegistration,
    name: Seq<char>,
    handler: HandlerKind,
    context: ExecutionContext,
) -> bool {
    r.name@ == name && r.handler == handler && r.context == context
}

/// The channels that the plugin opens at start-up, in the order they are
/// registered: the main channel and `obj` on the main context, and
/// `obj_background_thread` on a context of its own.
pub fn registrations() -> (r: Vec<ChannelRegistration>)
    ensures
        r@.len() == 3,
        registers(r@[0], "addition"@, HandlerKind::Addition, ExecutionContext::Main),
        registers(r@[1], "obj"@, HandlerKind::Obj, ExecutionContext::Main),
        registers(r@[2], "obj_background_thread"@, HandlerKind::Obj, ExecutionContext::Background),
{
    let mut r: Vec<ChannelRegistration> = Vec::new();
    r.push(
        ChannelRegistration {
            name: String::from_str("addition"),
            handler: HandlerKind::Addition,
            context: ExecutionContext::Main,
        },
    );
    r.push(
        ChannelRegistration {
            name: String::from_str("obj"),
            handler: HandlerKind::Obj,
            context: ExecutionContext::Main,
        },
    );
    r.push(
        ChannelRegistration {
            name: String::from_str("obj_background_thread"),
            handler: HandlerKind::Obj,
            context: ExecutionContext::Background,
        },
    );
    r
}

} // verus!
