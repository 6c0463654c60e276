//! What the user asked for: the target, and how to reach it.

use vstd::prelude::*;
use crate::address::{chosen_address, choose_address, IpAddress, ResolvedAddress};
use crate::connector::{Connector, ConnectorView};
use crate::error::Failure;

verus! {

/// Settings of the QUIC transport.
#[derive(Clone, Debug, PartialEq, Eq)]
pub struct QuicOptions {
    /// The name used to validate the remote's credential, where it is not the
    /// hostname that was connected to.
    pub dns_name: Option<String>,
}

/// The transport to use. There is one today; more may follow.
#[derive(Clone, Debug, PartialEq, Eq)]
pub enum Protocol {
    Quic(QuicOptions),
}

/// The target of a run and the transport to reach it with.
#[derive(Clone, Debug, PartialEq, Eq)]
pub struct Options {
    /// The hostname or IP address to connect to.
    pub hostname: String,
    /// The port number to connect to.
    pub port: u16,
    pub protocol: Protocol,
}

impl QuicOptions {
    /// The name that the remote must prove to be: the explicit name where one
    /// was given and is not empty, else the hostname that the user connects
    /// to.
    pub open spec fn identity(&self, hostname: Seq<char>) -> Seq<char> {
        match self.dns_name {
            Some(name) => if name@.len() > 0 {
                name@
            } else {
                hostname
            },
            None => hostname,
        }
    }

    /// The name to validate the remote against, given the hostname of the
    /// target. An explicit name that is empty counts as none.
    pub fn server_name<'a>(&'a self, hostname: &'a str) -> (name: &'a str)
        ensures
            name@ == self.identity(hostname@),
            self.dns_name matches Some(given) ==> name@ == if given@.len() > 0 {
                given@
            } else {
                hostname@
            },
            self.dns_name is None ==> name@ == hostname@,
    {
        match &self.dns_name {
            Some(name) => if name.as_str().is_empty() {
                hostname
            } else {
                name.as_str()
            },
            None => hostname,
        }
    }

    /// Prepares a connection to the remote address. Where no explicit name
    /// was given, or an empty one, the hostname is what the remote's
    /// credential is checked against.
    ///
    /// The attempt that comes back has nothing done yet; see [`Connector`]
    /// for how it proceeds.
    pub fn connect(&self, address: ResolvedAddress, hostname: &str) -> (connector: Connector)
        ensures
            connector@ == ConnectorView::fresh(address, self.identity(hostname@)),
    {
        Connector::new(address, self.server_name(hostname))
    }
}

impl Protocol {
    /// The name that the remote must prove to be, under this transport.
    pub open spec fn identity(&self, hostname: Seq<char>) -> Seq<char> {
        match self {
            Protocol::Quic(quic) => quic.identity(hostname),
        }
    }
}

impl Options {
    /// The name that the remote must prove to be.
    pub open spec fn identity(&self) -> Seq<char> {
        self.protocol.identity(self.hostname@)
    }

    /// The name to validate the remote against.
    pub fn server_name(&self) -> (name: &str)
        ensures
            name@ == self.identity(),
    {
        match &self.protocol {
            Protocol::Quic(quic) => quic.server_name(self.hostname.as_str()),
        }
    }

    /// Finds the address of the remote host among the candidates that a
    /// lookup of the hostname gave: the first of them, with the port number
    /// of the target. No candidate is the failure `NoDnsRecord`.
    pub fn get_address(&self, candidates: &[IpAddress]) -> (address: Result<
        ResolvedAddress,
        Failure,
    >)
        ensures
            address == chosen_address(candidates@, self.port),
    {
        choose_address(candidates, self.port)
    }

    /// Prepares the connection to `address` under the chosen transport.
    pub fn connect(&self, address: ResolvedAddress) -> (connector: Connector)
        ensures
            connector@ == ConnectorView::fresh(address, self.identity()),
    {
        match &self.protocol {
            Protocol::Quic(quic) => quic.connect(address, self.hostname.as_str()),
        }
    }
}

/// The name that is validated is the explicit name whenever a non-empty one
/// was given, and the hostname otherwise: for every hostname, and whether an
/// explicit name was given or not.
pub proof fn identity_prefers_given_name(options: QuicOptions, hostname: Seq<char>)
    ensures
        options.identity(hostname) == if options.dns_name is Some
            && options.dns_name->0@.len() > 0 {
            options.dns_name->0@
        } else {
            hostname
        },
        options.dns_name is None ==> options.identity(hostname) == hostname,
        options.dns_name matches Some(given) ==> (given@.len() == 0 ==> options.identity(hostname)
            == hostname),
{
}

} // verus!
