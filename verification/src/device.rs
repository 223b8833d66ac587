//! What a virtual interface is made from: its name, its MTU and its
//! addresses, and the address assignments that follow from them.

use vstd::prelude::*;

verus! {

/// Number of bits of an IPv4 address.
pub const IPV4_BITS: u8 = 32;

/// Number of bits of an IPv6 address.
pub const IPV6_BITS: u8 = 128;

/// An IPv4 address with the length of its network prefix.
#[derive(Debug, Clone, Copy, PartialEq, Eq)]
pub struct Ipv4Net {
    addr: u32,
    prefix: u8,
}

impl Ipv4Net {
    #[verifier::type_invariant]
    spec fn well_formed(self) -> bool {
        self.prefix <= IPV4_BITS
    }

    /// The address, as a big-endian number.
    pub closed spec fn spec_ip(self) -> u32 {
        self.addr
    }

    /// The length of the prefix, in bits.
    pub closed spec fn spec_prefix(self) -> u8 {
        self.prefix
    }

    /// The network of `addr` with a prefix of `prefix` bits, or `None` where
    /// `prefix` is more than the 32 bits of an address.
    pub fn new(addr: u32, prefix: u8) -> (net: Option<Ipv4Net>)
        ensures
            net is Some <==> prefix <= IPV4_BITS,
            net matches Some(n) ==> n.spec_ip() == addr && n.spec_prefix() == prefix,
    {
        if prefix > IPV4_BITS {
            None
        } else {
            Some(Ipv4Net { addr, prefix })
        }
    }

    /// The address, as a big-endian number.
    #[verifier::when_used_as_spec(spec_ip)]
    pub fn ip(self) -> (addr: u32)
        ensures
            addr == self.spec_ip(),
    {
        self.addr
    }

    /// The length of the prefix, in bits; never more than 32.
    #[verifier::when_used_as_spec(spec_prefix)]
    pub fn prefix(self) -> (prefix: u8)
        ensures
            prefix == self.spec_prefix(),
            prefix <= IPV4_BITS,
    {
        proof {
            use_type_invariant(&self);
        }
        self.prefix
    }
}

/// An IPv6 address with the length of its network prefix.
#[derive(Debug, Clone, Copy, PartialEq, Eq)]
pub struct Ipv6Net {
    addr: u128,
    prefix: u8,
}

impl Ipv6Net {
    #[verifier::type_invariant]
    spec fn well_formed(self) -> bool {
        self.prefix <= IPV6_BITS
    }

    /// The address, as a big-endian number.
    pub closed spec fn spec_ip(self) -> u128 {
        self.addr
    }

    /// The length of the prefix, in bits.
    pub closed spec fn spec_prefix(self) -> u8 {
        self.prefix
    }

    /// The network of `addr` with a prefix of `prefix` bits, or `None` where
    /// `prefix` is more than the 128 bits of an address.
    pub fn new(addr: u128, prefix: u8) -> (net: Option<Ipv6Net>)
        ensures
            net is Some <==> prefix <= IPV6_BITS,
            net matches Some(n) ==> n.spec_ip() == addr && n.spec_prefix() == prefix,
    {
        if prefix > IPV6_BITS {
            None
        } else {
            Some(Ipv6Net { addr, prefix })
        }
    }

    /// The address, as a big-endian number.
    #[verifier::when_used_as_spec(spec_ip)]
    pub fn ip(self) -> (addr: u128)
        ensures
            addr == self.spec_ip(),
    {
        self.addr
    }

    /// The length of the prefix, in bits; never more than 128.
    #[verifier::when_used_as_spec(spec_prefix)]
    pub fn prefix(self) -> (prefix: u8)
        ensures
            prefix == self.spec_prefix(),
            prefix <= IPV6_BITS,
    {
        proof {
            use_type_invariant(&self);
        }
        self.prefix
    }
}

/// What a virtual interface is made from.
#[derive(Debug, Clone)]
pub struct DeviceConfig {
    /// The name of the interface.
    pub name: String,
    /// The IPv4 addresses to give it.
    pub ipv4_addresses: Vec<Ipv4Net>,
    /// The IPv6 addresses to give it.
    pub ipv6_addresses: Vec<Ipv6Net>,
    /// The largest frame it carries, in bytes.
    pub mtu: u16,
}

/// The settings and address assignments to make, in the order to make them.
#[derive(Debug, Clone, PartialEq, Eq)]
pub struct DevicePlan {
    /// The name of the interface.
    pub name: String,
    /// The largest frame it carries, in bytes.
    pub mtu: u16,
    /// The IPv4 assignments, each an address and a prefix length, to set
    /// before the interface is created.
    pub ipv4: Vec<(u32, u8)>,
    /// The IPv6 assignments, each an address and a prefix length, to add
    /// once the interface is created.
    pub ipv6: Vec<(u128, u8)>,
}

impl DeviceConfig {
    /// The plan for this configuration: name and MTU as they are, and every
    /// IPv4 and every IPv6 address with its prefix, in the order given.
    pub fn plan(&self) -> (plan: DevicePlan)
        ensures
            plan.name@ == self.name@,
            plan.mtu == self.mtu,
            plan.ipv4@.len() == self.ipv4_addresses@.len(),
            forall|i: int|
                0 <= i < self.ipv4_addresses@.len() ==> #[trigger] plan.ipv4@[i] == (
                    self.ipv4_addresses@[i].spec_ip(),
                    self.ipv4_addresses@[i].spec_prefix(),
                ),
            plan.ipv6@.len() == self.ipv6_addresses@.len(),
            forall|i: int|
                0 <= i < self.ipv6_addresses@.len() ==> #[trigger] plan.ipv6@[i] == (
                    self.ipv6_addresses@[i].spec_ip(),
                    self.ipv6_addresses@[i].spec_prefix(),
                ),
    {
        let mut ipv4: Vec<(u32, u8)> = Vec::new();
        let mut i: usize = 0;
        while i < self.ipv4_addresses.len()
            invariant
                i <= self.ipv4_addresses@.len(),
                ipv4@.len() == i,
                forall|k: int|
                    0 <= k < i ==> #[trigger] ipv4@[k] == (
                        self.ipv4_addresses@[k].spec_ip(),
                        self.ipv4_addresses@[k].spec_prefix(),
                    ),
            decreases self.ipv4_addresses@.len() - i,
        {
            let net = self.ipv4_addresses[i];
            ipv4.push((net.ip(), net.prefix()));
            i += 1;
        }
        let mut ipv6: Vec<(u128, u8)> = Vec::new();
        let mut j: usize = 0;
        while j < self.ipv6_addresses.len()
            invariant
                j <= self.ipv6_addresses@.len(),
                ipv6@.len() == j,
                forall|k: int|
                    0 <= k < j ==> #[trigger] ipv6@[k] == (
                        self.ipv6_addresses@[k].spec_ip(),
                        self.ipv6_addresses@[k].spec_prefix(),
                    ),
            decreases self.ipv6_addresses@.len() - j,
        {
            let net = self.ipv6_addresses[j];
            ipv6.push((net.ip(), net.prefix()));
            j += 1;
        }
        DevicePlan { name: self.name.clone(), mtu: self.mtu, ipv4, ipv6 }
    }
}

} // verus!
