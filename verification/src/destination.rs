//! Where the probes of a session go.

use crate::text::Text;
use vstd::prelude::*;
use vstd::string::*;

verus! {

/// The port that every probe is addressed to, and the local port that the
/// probes leave from.
pub const PROBE_PORT: u16 = 33434;

/// A destination as the contracts see it.
pub struct DestinationView {
    pub address: Text,
    pub port: u16,
}

/// One address of the traced host, in its textual form, and the port of the
/// probes. It is chosen once and holds for the whole session.
#[derive(Debug, PartialEq, Eq)]
pub struct Destination {
    pub address: String,
    pub port: u16,
}

impl View for Destination {
    type V = DestinationView;

    open spec fn view(&self) -> DestinationView {
        DestinationView { address: self.address@, port: self.port }
    }
}

/// The destination among the addresses that a host name resolved to, at
/// the probe port: the second of them where there are several, the only
/// one where there is one. Only a host without any address offers none.
pub open spec fn chosen(addresses: Seq<Text>) -> Option<DestinationView> {
    if addresses.len() >= 2 {
        Some(DestinationView { address: addresses[1], port: PROBE_PORT })
    } else if addresses.len() == 1 {
        Some(DestinationView { address: addresses[0], port: PROBE_PORT })
    } else {
        None
    }
}

impl Destination {
    /// Picks the destination among the addresses of a host: see [`chosen`].
    pub fn select(addresses: &Vec<String>) -> (destination: Option<Destination>)
        ensures
            match chosen(addresses.deep_view()) {
                Some(view) => destination is Some && destination->0@ == view,
                None => destination is None,
            },
    {
        if addresses.len() >= 2 {
            assert(addresses.deep_view()[1] == addresses[1]@);
            Some(Destination { address: addresses[1].clone(), port: PROBE_PORT })
        } else if addresses.len() == 1 {
            assert(addresses.deep_view()[0] == addresses[0]@);
            Some(Destination { address: addresses[0].clone(), port: PROBE_PORT })
        } else {
            None
        }
    }

    /// A copy of this destination.
    pub fn duplicate(&self) -> (copy: Destination)
        ensures
            copy@ == self@,
    {
        Destination { address: self.address.clone(), port: self.port }
    }
}

} // verus!
