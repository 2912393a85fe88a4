use vstd::prelude::*;

use crate::payment_intents::PaymentError;

verus! {

/// What can go wrong in a call to the API.
#[derive(Clone, Debug)]
pub enum Error {
    /// The transport could not complete the request; its message, unchanged.
    Transport(String),
    /// The server answered with an error envelope; `status` is the HTTP status.
    Api { status: u16, error: PaymentError },
    /// The response body did not have the shape that was expected.
    Decode,
    /// A page reported that more items follow but held no item to continue after.
    InvalidCursor,
}

} // verus!
