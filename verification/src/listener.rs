//! The per-notification step of the background listener: each raw buffer
//! from the notification stream either surfaces a decoded payload or is a
//! per-buffer anomaly. An anomaly never ends the listener; only the stream
//! ending or the caller cancelling does, and both lie with the driver.

use vstd::prelude::*;
use crate::codec::{decode, spec_decode, DecodeError};

verus! {

/// What one raw notification buffer amounts to.
#[derive(Debug, PartialEq, Eq)]
pub enum ListenerOutcome {
    /// The buffer held a well-formed frame with this payload.
    Payload(Vec<u8>),
    /// The buffer was rejected; the listener keeps consuming.
    Anomaly(DecodeError),
}

/// Handle one buffer from the notification stream.
pub fn handle_notification(buf: &Vec<u8>) -> (r: ListenerOutcome)
    ensures
        match r {
            ListenerOutcome::Payload(p) => spec_decode(buf@) == Ok::<Seq<u8>, DecodeError>(p@),
            ListenerOutcome::Anomaly(e) => spec_decode(buf@) == Err::<Seq<u8>, DecodeError>(e),
        },
{
    match decode(buf) {
        Ok(p) => ListenerOutcome::Payload(p),
        Err(e) => ListenerOutcome::Anomaly(e),
    }
}

} // verus!
