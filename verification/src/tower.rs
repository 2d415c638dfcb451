//! The ask/answer primitive's configuration.
//!
//! An asker sends a question together with a single-use reply slot and
//! suspends until the slot is fulfilled or abandoned. The channels and the
//! suspension live outside the core; this type carries the configuration a
//! pair of endpoints is built from.

use vstd::prelude::*;

verus! {

/// A template for one ask/answer channel pair: how many requests the
/// responder's mailbox buffers. The type parameters pin the question and
/// answer types the endpoints will carry.
#[derive(Clone, Copy, Debug)]
pub struct Tower<TAsked, TAnswered> {
    pub receiver_buffer: usize,
    pub asked_marker: Option<TAsked>,
    pub answered_marker: Option<TAnswered>,
}

impl<TAsked, TAnswered> Tower<TAsked, TAnswered> {
    /// A template whose responder mailbox buffers `receiver_buffer` pending
    /// requests.
    pub fn template(receiver_buffer: usize) -> (r: Tower<TAsked, TAnswered>)
        ensures
            r.receiver_buffer == receiver_buffer,
            r.asked_marker is None,
            r.answered_marker is None,
    {
        Tower { receiver_buffer, asked_marker: None, answered_marker: None }
    }
}

} // verus!
