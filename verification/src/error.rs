//! The engine's failure taxonomy.

use vstd::prelude::*;
use crate::response::ErrorData;

verus! {

/// How executing one queued action can fail.
///
/// `Transport` covers network, timeout and decoding failures from the HTTP
/// layer; the surrounding binary maps those into the carried message.
/// `APIError` is a remote-side rejection other than the two specially
/// classified codes. `InvalidAPIResponse` is an envelope that breaks the
/// exactly-one-of-data-and-error contract. `Cooldown` is the remote
/// rejection of an action because the character is still on cooldown.
#[derive(Debug)]
pub enum Error {
    Transport(String),
    APIError(ErrorData),
    InvalidAPIResponse,
    Cooldown,
}

} // verus!
