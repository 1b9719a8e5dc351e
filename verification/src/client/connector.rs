//! What a client is told about its attempt to connect.

use crate::client::future::{ButtplugClientFutureState, ButtplugClientFutureStateShared};
use vstd::prelude::*;

verus! {

/// Why a connection to the server could not be made.
#[derive(Debug)]
pub struct ButtplugClientConnectorError {
    message: String,
}

impl View for ButtplugClientConnectorError {
    type V = Seq<char>;

    closed spec fn view(&self) -> Seq<char> {
        self.message@
    }
}

impl Clone for ButtplugClientConnectorError {
    fn clone(&self) -> (copy: Self)
        ensures
            copy@ == self@,
    {
        ButtplugClientConnectorError { message: self.message.clone() }
    }
}

impl ButtplugClientConnectorError {
    /// An error with the given message.
    pub fn new(message: &str) -> (error: Self)
        ensures
            error@ == message@,
    {
        ButtplugClientConnectorError { message: message.to_owned() }
    }

    /// The message of this error.
    pub fn message(&self) -> (message: &str)
        ensures
            message@ == self@,
    {
        self.message.as_str()
    }
}

/// The message of an optional error, `None` where there is no error.
pub open spec fn error_text(error: Option<ButtplugClientConnectorError>) -> Option<Seq<char>> {
    match error {
        Some(error) => Some(error@),
        None => None,
    }
}

/// The cell by which a client learns how its request to connect went: `None` if it
/// is connected, the error if it is not.
pub type ButtplugClientConnectionState = ButtplugClientFutureState<
    Option<ButtplugClientConnectorError>,
>;

/// A connection cell shared between the client and the internal loop.
pub type ButtplugClientConnectionStateShared = ButtplugClientFutureStateShared<
    Option<ButtplugClientConnectorError>,
>;

} // verus!
