//! Address normalization and path identity.
//!
//! Two raw addresses that differ only by IPv4 / IPv4-mapped-IPv6
//! representation must yield the same path identity, so representation
//! differences never look like migrations.

use vstd::prelude::*;

verus! {

/// An IP address. An IPv6 address is held as four 32-bit words in network
/// order, so an IPv4-mapped IPv6 address is one whose first three words are
/// `0, 0, 0xffff` and whose last word is the IPv4 address.
#[derive(Clone, Copy, PartialEq, Eq, Structural, Debug)]
pub enum IpAddr {
    V4 { addr: u32 },
    V6 { w0: u32, w1: u32, w2: u32, w3: u32 },
}

impl IpAddr {
    /// True of an IPv6 address that is the IPv4-mapped form of some IPv4 address.
    pub open spec fn spec_is_ipv4_mapped(self) -> bool {
        match self {
            IpAddr::V6 { w0, w1, w2, w3: _ } => w0 == 0 && w1 == 0 && w2 == 0xffffu32,
            IpAddr::V4 { .. } => false,
        }
    }

    /// The IPv4-mapped IPv6 form of an IPv4 address; an IPv6 address is unchanged.
    pub open spec fn spec_ipv4_mapped_form(self) -> IpAddr {
        match self {
            IpAddr::V4 { addr } => IpAddr::V6 { w0: 0, w1: 0, w2: 0xffffu32, w3: addr },
            IpAddr::V6 { .. } => self,
        }
    }

    /// Canonical identity of an address: an IPv4-mapped IPv6 address collapses
    /// to its IPv4 equivalent; every other address is unchanged.
    pub open spec fn spec_normalize(self) -> IpAddr {
        match self {
            IpAddr::V6 { w0, w1, w2, w3 } => {
                if w0 == 0 && w1 == 0 && w2 == 0xffffu32 {
                    IpAddr::V4 { addr: w3 }
                } else {
                    self
                }
            },
            IpAddr::V4 { .. } => self,
        }
    }

    /// An address is normalized when normalization leaves it unchanged.
    pub open spec fn spec_is_normalized(self) -> bool {
        self.spec_normalize() == self
    }

    pub fn is_ipv4_mapped(&self) -> (r: bool)
        ensures
            r == self.spec_is_ipv4_mapped(),
    {
        match self {
            IpAddr::V6 { w0, w1, w2, w3: _ } => *w0 == 0 && *w1 == 0 && *w2 == 0xffffu32,
            IpAddr::V4 { .. } => false,
        }
    }

    /// The IPv4-mapped IPv6 form of an IPv4 address; an IPv6 address is unchanged.
    pub fn ipv4_mapped_form(&self) -> (r: IpAddr)
        ensures
            r == self.spec_ipv4_mapped_form(),
    {
        match self {
            IpAddr::V4 { addr } => IpAddr::V6 { w0: 0, w1: 0, w2: 0xffffu32, w3: *addr },
            IpAddr::V6 { .. } => *self,
        }
    }

    /// Canonicalize the address for identity comparison. Pure; no failure mode.
    pub fn normalize(&self) -> (r: IpAddr)
        ensures
            r == self.spec_normalize(),
    {
        match self {
            IpAddr::V6 { w0, w1, w2, w3 } => {
                if *w0 == 0 && *w1 == 0 && *w2 == 0xffffu32 {
                    IpAddr::V4 { addr: *w3 }
                } else {
                    *self
                }
            },
            IpAddr::V4 { .. } => *self,
        }
    }
}

/// Normalizing an address twice gives the same result as normalizing it once.
pub proof fn lemma_normalize_idempotent(a: IpAddr)
    ensures
        a.spec_normalize().spec_normalize() == a.spec_normalize(),
{
}

/// An IPv4 address and its IPv4-mapped IPv6 form normalize to the same identity.
pub proof fn lemma_ipv4_mapped_same_identity(a: IpAddr)
    ensures
        a.spec_ipv4_mapped_form().spec_normalize() == a.spec_normalize(),
{
}

/// A transport address: IP address and port.
#[derive(Clone, Copy, PartialEq, Eq, Structural, Debug)]
pub struct SocketAddr {
    pub ip: IpAddr,
    pub port: u16,
}

impl SocketAddr {
    pub open spec fn spec_normalize(self) -> SocketAddr {
        SocketAddr { ip: self.ip.spec_normalize(), port: self.port }
    }

    pub open spec fn spec_is_normalized(self) -> bool {
        self.spec_normalize() == self
    }

    /// The same address with the IP in IPv4-mapped IPv6 form.
    pub open spec fn spec_ipv4_mapped_form(self) -> SocketAddr {
        SocketAddr { ip: self.ip.spec_ipv4_mapped_form(), port: self.port }
    }

    pub fn normalize(&self) -> (r: SocketAddr)
        ensures
            r == self.spec_normalize(),
    {
        SocketAddr { ip: self.ip.normalize(), port: self.port }
    }

    pub fn ipv4_mapped_form(&self) -> (r: SocketAddr)
        ensures
            r == self.spec_ipv4_mapped_form(),
    {
        SocketAddr { ip: self.ip.ipv4_mapped_form(), port: self.port }
    }
}

/// Normalizing a transport address twice gives the same result as once.
pub proof fn lemma_socket_normalize_idempotent(a: SocketAddr)
    ensures
        a.spec_normalize().spec_normalize() == a.spec_normalize(),
{
}

/// Identity of a network path: the normalized (local, remote) address pair.
#[derive(Clone, Copy, PartialEq, Eq, Structural, Debug)]
pub struct PathIdentity {
    pub local: SocketAddr,
    pub remote: SocketAddr,
}

impl PathIdentity {
    /// Both halves of a well-formed identity are already normalized.
    pub open spec fn spec_wf(self) -> bool {
        self.local.spec_is_normalized() && self.remote.spec_is_normalized()
    }

    /// The identity computed from a raw (local, remote) observation.
    pub open spec fn spec_of(local: SocketAddr, remote: SocketAddr) -> PathIdentity {
        PathIdentity { local: local.spec_normalize(), remote: remote.spec_normalize() }
    }

    pub fn of(local: SocketAddr, remote: SocketAddr) -> (r: PathIdentity)
        ensures
            r == PathIdentity::spec_of(local, remote),
            r.spec_wf(),
    {
        proof {
            lemma_socket_normalize_idempotent(local);
            lemma_socket_normalize_idempotent(remote);
        }
        PathIdentity { local: local.normalize(), remote: remote.normalize() }
    }
}

/// Re-normalizing a computed path identity is idempotent: the identity of a
/// normalized pair is the pair itself.
pub proof fn lemma_identity_idempotent(local: SocketAddr, remote: SocketAddr)
    ensures
        PathIdentity::spec_of(
            PathIdentity::spec_of(local, remote).local,
            PathIdentity::spec_of(local, remote).remote,
        ) == PathIdentity::spec_of(local, remote),
{
}

/// Replacing the local or the remote address (independently) by its
/// IPv4-mapped IPv6 form yields the same path identity.
pub proof fn lemma_identity_ignores_ipv4_mapping(local: SocketAddr, remote: SocketAddr)
    ensures
        PathIdentity::spec_of(local.spec_ipv4_mapped_form(), remote)
            == PathIdentity::spec_of(local, remote),
        PathIdentity::spec_of(local, remote.spec_ipv4_mapped_form())
            == PathIdentity::spec_of(local, remote),
        PathIdentity::spec_of(local.spec_ipv4_mapped_form(), remote.spec_ipv4_mapped_form())
            == PathIdentity::spec_of(local, remote),
{
}

} // verus!
