//! Which local addresses a listener serves.
use std::collections::HashSet;

use vstd::prelude::*;

use crate::addr::{IpAddr, SocketAddr};

verus! {

/// How a listener is configured: its address family, and optionally the set
/// of local addresses it serves (`None` serves every address of the family).
/// Addresses are given by their numeric value, as in [`IpAddr`].
pub enum IpFilterConfig {
    V4(Option<HashSet<u32>>),
    V6(Option<HashSet<u128>>),
}

/// The filter a listener applies to the local address of each datagram.
pub enum IpFilter {
    AcceptAllV4,
    AcceptAllV6,
    AllowListV4(HashSet<u32>),
    AllowListV6(HashSet<u128>),
}

impl IpFilterConfig {
    /// Whether the configuration is for IPv6.
    pub open spec fn spec_is_v6(&self) -> bool {
        *self is V6
    }

    /// The filter that a configuration denotes.
    pub open spec fn spec_build(self) -> IpFilter {
        match self {
            IpFilterConfig::V4(None) => IpFilter::AcceptAllV4,
            IpFilterConfig::V4(Some(s)) => IpFilter::AllowListV4(s),
            IpFilterConfig::V6(None) => IpFilter::AcceptAllV6,
            IpFilterConfig::V6(Some(s)) => IpFilter::AllowListV6(s),
        }
    }

    pub fn is_v6(&self) -> (r: bool)
        ensures
            r == self.spec_is_v6(),
    {
        match self {
            IpFilterConfig::V4(_) => false,
            IpFilterConfig::V6(_) => true,
        }
    }

    /// The wildcard address of the configured family on `port`:
    /// `0.0.0.0:port` or `[::]:port`.
    pub fn listen_addr(&self, port: u16) -> (r: SocketAddr)
        ensures
            r.port == port,
            r.ip == (if self.spec_is_v6() {
                IpAddr::V6(0)
            } else {
                IpAddr::V4(0)
            }),
    {
        match self {
            IpFilterConfig::V4(_) => SocketAddr::new(IpAddr::V4(0), port),
            IpFilterConfig::V6(_) => SocketAddr::new(IpAddr::V6(0), port),
        }
    }

    pub fn build(self) -> (r: IpFilter)
        ensures
            r == self.spec_build(),
    {
        match self {
            IpFilterConfig::V4(filter) => match filter {
                Some(filter) => IpFilter::AllowListV4(filter),
                None => IpFilter::AcceptAllV4,
            },
            IpFilterConfig::V6(filter) => match filter {
                Some(filter) => IpFilter::AllowListV6(filter),
                None => IpFilter::AcceptAllV6,
            },
        }
    }
}

impl IpFilter {
    /// Whether the filter is for IPv6.
    pub open spec fn spec_is_v6(&self) -> bool {
        *self is AcceptAllV6 || *self is AllowListV6
    }

    /// Whether the filter lets a datagram addressed to `addr` through: the
    /// address must be of the filter's family and, for an allow-list, in it.
    pub open spec fn spec_pass(&self, addr: IpAddr) -> bool {
        match (*self, addr) {
            (IpFilter::AcceptAllV4, IpAddr::V4(_)) => true,
            (IpFilter::AcceptAllV6, IpAddr::V6(_)) => true,
            (IpFilter::AllowListV4(s), IpAddr::V4(a)) => s@.contains(a),
            (IpFilter::AllowListV6(s), IpAddr::V6(a)) => s@.contains(a),
            _ => false,
        }
    }

    pub fn is_v6(&self) -> (r: bool)
        ensures
            r == self.spec_is_v6(),
    {
        match self {
            IpFilter::AcceptAllV6 | IpFilter::AllowListV6(_) => true,
            _ => false,
        }
    }

    pub fn pass(&self, addr: &IpAddr) -> (r: bool)
        ensures
            r == self.spec_pass(*addr),
    {
        match self {
            IpFilter::AcceptAllV4 => addr.is_v4(),
            IpFilter::AcceptAllV6 => addr.is_v6(),
            IpFilter::AllowListV4(filter) => match addr {
                IpAddr::V4(a) => filter.contains(a),
                IpAddr::V6(_) => false,
            },
            IpFilter::AllowListV6(filter) => match addr {
                IpAddr::V4(_) => false,
                IpAddr::V6(a) => filter.contains(a),
            },
        }
    }
}

/// A filter lets no address through whose family differs from its own.
pub proof fn lemma_filter_rejects_other_family(filter: IpFilter, addr: IpAddr)
    requires
        filter.spec_is_v6() != (addr is V6),
    ensures
        !filter.spec_pass(addr),
{
}

} // verus!
