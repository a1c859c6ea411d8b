//! What can go wrong.

use vstd::prelude::*;
use vstd::string::StringExecFns;

verus! {

/// Why the socket below the connection refused.
#[derive(Debug, PartialEq, Eq)]
pub struct SocketError {
    pub message: String,
}

/// Why a stanza could not be encrypted or sent.
#[derive(Debug, PartialEq, Eq)]
pub struct EncryptSendError {
    /// The transport is gone, as it is after every disconnect.
    pub transport_unavailable: bool,
    pub message: String,
}

/// Why the client could not do what it was asked for.
#[derive(Debug, PartialEq, Eq)]
pub enum ClientError {
    NotConnected,
    Socket(SocketError),
    EncryptSend(EncryptSendError),
    AlreadyConnected,
    NotLoggedIn,
}

/// Why a query to the server failed.
#[derive(Clone, Copy, Debug, PartialEq, Eq, Structural)]
pub enum IqFailure {
    NotConnected,
    /// The connection ended before the answer came.
    InternalChannelClosed,
    /// The server refused, for a reason with this number.
    Server { code: u16 },
    Other,
}

impl ClientError {
    /// Whether the error only says that there is no connection to send over.
    pub open spec fn transport_gone(self) -> bool {
        match self {
            ClientError::NotConnected => true,
            ClientError::EncryptSend(e) => e.transport_unavailable,
            _ => false,
        }
    }

    /// The error in words.
    pub open spec fn text(self) -> Seq<char> {
        match self {
            ClientError::NotConnected => "client is not connected"@,
            ClientError::Socket(e) => "socket error: "@ + e.message@,
            ClientError::EncryptSend(e) => "encrypt/send error: "@ + e.message@,
            ClientError::AlreadyConnected => "client is already connected"@,
            ClientError::NotLoggedIn => "client is not logged in"@,
        }
    }

    /// Whether the error only says that there is no connection to send over.
    pub fn is_transport_unavailable(&self) -> (r: bool)
        ensures
            r == self.transport_gone(),
    {
        match self {
            ClientError::NotConnected => true,
            ClientError::EncryptSend(e) => e.transport_unavailable,
            _ => false,
        }
    }

    /// The error in words.
    pub fn to_text(&self) -> (r: String)
        ensures
            r@ == self.text(),
    {
        match self {
            ClientError::NotConnected => "client is not connected".to_owned(),
            ClientError::Socket(e) => "socket error: ".to_owned().concat(e.message.as_str()),
            ClientError::EncryptSend(e) => "encrypt/send error: ".to_owned().concat(
                e.message.as_str(),
            ),
            ClientError::AlreadyConnected => "client is already connected".to_owned(),
            ClientError::NotLoggedIn => "client is not logged in".to_owned(),
        }
    }
}

/// Only two errors say that there is nothing to send over: there never was a connection, or the
/// transport is gone. No two errors read alike, and what the socket or the cipher said is told.
pub proof fn errors_tell_what_is_wrong(error: ClientError)
    ensures
        error is NotConnected ==> error.transport_gone(),
        error matches ClientError::EncryptSend(e) ==> error.transport_gone()
            == e.transport_unavailable,
        error is Socket || error is AlreadyConnected || error is NotLoggedIn
            ==> !error.transport_gone(),
        error is NotConnected ==> error.text() == "client is not connected"@,
        error is AlreadyConnected ==> error.text() == "client is already connected"@,
        error is NotLoggedIn ==> error.text() == "client is not logged in"@,
        error matches ClientError::Socket(e) ==> error.text() == "socket error: "@ + e.message@,
        error matches ClientError::EncryptSend(e) ==> error.text() == "encrypt/send error: "@
            + e.message@,
{
}

} // verus!
