//! Network addresses as plain values, and the choice among lookup results.

use vstd::prelude::*;
use crate::error::Failure;

verus! {

/// An IP address: four octets, or eight 16-bit segments.
#[derive(Clone, Copy, Debug, PartialEq, Eq)]
pub enum IpAddress {
    V4([u8; 4]),
    V6([u16; 8]),
}

/// The one address a run connects to: an IP address and a port number.
#[derive(Clone, Copy, Debug, PartialEq, Eq)]
pub struct ResolvedAddress {
    pub ip: IpAddress,
    pub port: u16,
}

/// The address chosen from a lookup's candidates, in the order the resolver
/// gave them: the first one, with the requested port number. No candidate,
/// no address.
pub open spec fn chosen_address(candidates: Seq<IpAddress>, port: u16) -> Result<
    ResolvedAddress,
    Failure,
> {
    if candidates.len() == 0 {
        Err(Failure::NoDnsRecord)
    } else {
        Ok(ResolvedAddress { ip: candidates[0], port })
    }
}

/// Picks the address to connect to from the candidates of a lookup.
///
/// The first candidate wins; the others are never tried. An empty lookup
/// result is the failure `NoDnsRecord`.
pub fn choose_address(candidates: &[IpAddress], port: u16) -> (chosen: Result<
    ResolvedAddress,
    Failure,
>)
    ensures
        chosen == chosen_address(candidates@, port),
        candidates@.len() > 0 ==> chosen == Ok::<ResolvedAddress, Failure>(
            ResolvedAddress { ip: candidates@[0], port },
        ),
        candidates@.len() == 0 ==> chosen == Err::<ResolvedAddress, Failure>(Failure::NoDnsRecord),
{
    if candidates.len() == 0 {
        Err(Failure::NoDnsRecord)
    } else {
        Ok(ResolvedAddress { ip: candidates[0], port })
    }
}

} // verus!
