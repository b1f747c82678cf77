//! The handle of the host-side receiver that notifications are pushed to.
use vstd::prelude::*;
use irondash_dart_ffi::DartPort;

verus! {

/// The host's receive port; its handle is a plain integer field.
#[verifier::external_type_specification]
pub struct ExDartPort(DartPort);

/// Relies on irondash_dart_ffi's `DartPort::new`, which stores the handle it
/// is given in the field `port`.
pub assume_specification[ DartPort::new ](port: irondash_dart_ffi::raw::DartPort) -> (r: DartPort)
    ensures
        r.port == port,
;

/// Where notifications go for a stored handle: nowhere while it is zero,
/// which means unset.
pub open spec fn target_of(handle: i64) -> Option<i64> {
    if handle == 0 {
        None
    } else {
        Some(handle)
    }
}

/// Holds the handle of the port that notifications are sent to; zero means
/// that the host has not set one yet.
pub struct PortSlot {
    pub handle: i64,
}

/// The slot after the handle `port` was stored in `s`.
pub open spec fn after_set(s: PortSlot, port: i64) -> PortSlot {
    PortSlot { handle: port }
}

impl PortSlot {
    /// A slot with no port set.
    pub fn new() -> (r: PortSlot)
        ensures
            r.handle == 0,
            target_of(r.handle) is None,
    {
        PortSlot { handle: 0 }
    }

    /// Stores `port`, replacing whatever was stored before.
    pub fn set_dart_port(&mut self, port: i64)
        ensures
            *final(self) == after_set(*old(self), port),
    {
        self.handle = port;
    }

    /// The port to send notifications to, or `None` while none is set.
    pub fn get_dart_port(&self) -> (r: Option<DartPort>)
        ensures
            match r {
                Some(p) => target_of(self.handle) == Some(p.port),
                None => target_of(self.handle) is None,
            },
    {
        if self.handle == 0 {
            None
        } else {
            Some(DartPort::new(self.handle))
        }
    }
}

/// Of two handles set one after the other, the second decides where every
/// later notification goes.
pub proof fn second_set_wins(s: PortSlot, first: i64, second: i64)
    ensures
        after_set(after_set(s, first), second) == after_set(s, second),
        target_of(after_set(after_set(s, first), second).handle) == target_of(second),
{
}

} // verus!
