use vstd::prelude::*;

verus! {

/// The single failure channel of the library.
#[derive(Clone, Copy, Debug, PartialEq, Eq, Structural)]
pub enum DingTalkError {
    /// The credential string has no recognised provider prefix.
    TokenFormat,
    /// The configuration payload is not a well-formed JSON object.
    ConfigFormat,
    /// The request could not be signed (the clock reads before the epoch).
    Signing,
    /// The transport failed before a response arrived.
    Transport,
    /// The endpoint answered with a status other than 200.
    Delivery(u16),
}

/// Maps the HTTP status of a response to the outcome of a send: 200 is
/// success, every other status is a delivery error carrying that status.
pub fn delivery_outcome(status: u16) -> (r: Result<(), DingTalkError>)
    ensures
        status == 200 ==> r == Ok::<(), DingTalkError>(()),
        status != 200 ==> r == Err::<(), DingTalkError>(DingTalkError::Delivery(status)),
{
    if status == 200 {
        Ok(())
    } else {
        Err(DingTalkError::Delivery(status))
    }
}

} // verus!
