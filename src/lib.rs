//! Decision core of a threshold-signature committee member.
//!
//! Each member runs one control loop: operator commands (distributed key
//! generation, signing) wait in a FIFO queue, data-store events are routed by
//! channel, and a small round state machine makes sure that at most one round
//! is in flight at a time. The cryptographic engine, the data store and the
//! node's RPC client stay outside: the functions here take what they returned
//! as plain arguments and say what is to be done next.

pub mod coordinator;
pub mod dispatch;
pub mod runloop;
pub mod threshold;

pub use coordinator::{calculate_coordinator, PublicKeySet};
pub use dispatch::{
    classify_event, gather_outbound, select_inbound_packets, DecodedChunk, EventChannel,
    StackerDBMessage,
};
pub use runloop::{RunLoop, RunLoopCommand, State};
pub use threshold::{zero_based_key_ids, ThresholdConfig};
