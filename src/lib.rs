//! Native side of a message-channel plugin: the payload model, the method
//! handlers that answer calls from the host, and the port used for
//! notifications.
use vstd::prelude::*;

pub mod addition;
pub mod obj;
pub mod port;
pub mod registry;
pub mod value;

verus! {

} // verus!
