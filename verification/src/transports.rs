//! The channel-forwarding actor's marker type.
//!
//! A transporter bridges a receive-only mailbox to a handler forever,
//! terminating only when every sender is gone. The spawning and the receive
//! loop live outside the core, which only decides what each received value
//! means; this marker names the construct in signatures.

use vstd::prelude::*;

verus! {

/// The channel-forwarding actor family.
#[derive(Clone, Copy, Debug, PartialEq, Eq, Structural)]
pub struct Transporter {}

} // verus!
