//! The ways in which a run can fail.

use vstd::prelude::*;

verus! {

/// Why a run ended without relaying to completion.
///
/// Every kind is fatal: the first one to occur ends the run.
#[derive(Clone, Copy, Debug, PartialEq, Eq)]
pub enum Failure {
    /// The resolver could not be set up, or the lookup itself failed.
    LookupFailed,
    /// The lookup succeeded but held no address.
    NoDnsRecord,
    /// The local endpoint could not be created.
    EndpointBindFailed,
    /// The connection attempt was refused before any handshake began.
    ConnectFailed,
    /// The remote was unreachable or did not prove the expected identity.
    HandshakeFailed,
    /// The session stands but the stream could not be opened.
    StreamOpenFailed,
    /// One copy direction failed after the stream was open. The counts are
    /// the bytes that each direction had copied before the failure, each
    /// present where it could be obtained.
    RelayIOFailed { bytes_transmitted: Option<u64>, bytes_received: Option<u64> },
}

impl Failure {
    /// The text shown to the user for each kind of failure.
    pub open spec fn message_text(self) -> Seq<char> {
        match self {
            Failure::LookupFailed => "DNS lookup failed"@,
            Failure::NoDnsRecord => "No DNS record found"@,
            Failure::EndpointBindFailed => "Could not create the local endpoint"@,
            Failure::ConnectFailed => "Could not start connecting to the remote"@,
            Failure::HandshakeFailed => "Handshake with the remote failed"@,
            Failure::StreamOpenFailed => "Could not open a stream on the connection"@,
            Failure::RelayIOFailed { .. } => "I/O error while relaying"@,
        }
    }

    /// The message to print, once, when the run ends with this failure.
    pub fn message(&self) -> (text: &'static str)
        ensures
            text@ == self.message_text(),
    {
        match self {
            Failure::LookupFailed => "DNS lookup failed",
            Failure::NoDnsRecord => "No DNS record found",
            Failure::EndpointBindFailed => "Could not create the local endpoint",
            Failure::ConnectFailed => "Could not start connecting to the remote",
            Failure::HandshakeFailed => "Handshake with the remote failed",
            Failure::StreamOpenFailed => "Could not open a stream on the connection",
            Failure::RelayIOFailed { .. } => "I/O error while relaying",
        }
    }
}

} // verus!
