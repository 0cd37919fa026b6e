//! IPv4 ranges in CIDR notation and the host addresses they cover.

use vstd::prelude::*;
use vstd::arithmetic::power2::pow2;
use vstd::arithmetic::power2::lemma2_to64;
use vstd::arithmetic::power2::lemma2_to64_rest;

verus! {

/// Why a range could not be built.
#[derive(Debug, Clone, Copy, PartialEq, Eq, Structural)]
pub enum ConfigurationError {
    /// The text is not an IPv4 address with an optional `/prefix` or `/netmask`.
    MalformedCidr,
    /// The prefix length is larger than 32.
    PrefixTooLong,
}

impl ConfigurationError {
    /// A short description for logs and startup failures.
    pub fn message(&self) -> (text: &'static str)
        ensures
            text@ == match *self {
                ConfigurationError::MalformedCidr => "Invalid CIDR format"@,
                ConfigurationError::PrefixTooLong => "Invalid prefix length"@,
            },
    {
        match self {
            ConfigurationError::MalformedCidr => "Invalid CIDR format",
            ConfigurationError::PrefixTooLong => "Invalid prefix length",
        }
    }
}

/// The netmask of a prefix length: the `prefix` most significant bits set.
pub open spec fn prefix_mask(prefix: u8) -> u32 {
    if prefix == 0 {
        0u32
    } else {
        0xffff_ffffu32 << ((32 - prefix) as u32)
    }
}

/// The addresses from `start` to `end`, both included, in ascending order.
/// Empty when `start` is above `end`.
pub open spec fn address_span(start: int, end: int) -> Seq<u32> {
    Seq::new(
        if start <= end {
            (end - start + 1) as nat
        } else {
            0nat
        },
        |i: int| (start + i) as u32,
    )
}

/// The error type of the `ipnetwork` crate, carried from its parser to the
/// place where it is turned into a [`ConfigurationError`].
#[verifier::external_type_specification]
#[verifier::external_body]
pub struct ExIpNetworkError(ipnetwork::IpNetworkError);

/// What `ipnetwork` reads out of a piece of text: the address and the prefix
/// length of an IPv4 range, or nothing when the text is not one.
pub uninterp spec fn parsed_cidr(text: Seq<char>) -> Option<(u32, u8)>;

/// `Ipv4Network::from_str` of `ipnetwork`, with the parsed range handed back
/// as its address and prefix length.
///
/// Trusted: the outcome is the one named by [`parsed_cidr`], and a range that
/// parses has a prefix of at most 32 (the crate's constructor refuses longer
/// ones, and a netmask converts to at most 32).
#[verifier::external_body]
fn cidr_from_str(cidr: &str) -> (outcome: Result<(u32, u8), ipnetwork::IpNetworkError>)
    ensures
        match outcome {
            Ok(parts) => parsed_cidr(cidr@) == Some(parts) && parts.1 <= 32,
            Err(_) => parsed_cidr(cidr@).is_none(),
        },
{
    let network: ipnetwork::Ipv4Network = cidr.parse()?;
    Ok((network.ip().into(), network.prefix()))
}

/// `Ipv4Network::network` of `ipnetwork`: the lowest address of the range.
///
/// Trusted: the result is the address with the bits outside the netmask
/// cleared, as the crate computes it.
#[verifier::external_body]
fn lowest_address(addr: u32, prefix: u8) -> (lowest: u32)
    requires
        prefix <= 32,
    ensures
        lowest == addr & prefix_mask(prefix),
{
    ipnetwork::Ipv4Network::new(addr.into(), prefix).unwrap().network().into()
}

/// `Ipv4Network::broadcast` of `ipnetwork`: the highest address of the range.
///
/// Trusted: the result is the address with the bits outside the netmask set,
/// as the crate computes it.
#[verifier::external_body]
fn highest_address(addr: u32, prefix: u8) -> (highest: u32)
    requires
        prefix <= 32,
    ensures
        highest == addr | !prefix_mask(prefix),
{
    ipnetwork::Ipv4Network::new(addr.into(), prefix).unwrap().broadcast().into()
}

/// An IPv4 range: an address and the length of its network prefix.
#[derive(Debug, Clone, Copy, PartialEq, Eq)]
pub struct NetworkRange {
    addr: u32,
    prefix: u8,
}

impl NetworkRange {
    #[verifier::type_invariant]
    spec fn prefix_fits(&self) -> bool {
        self.prefix <= 32
    }

    /// The prefix length never exceeds the width of an address. Every range
    /// that [`NetworkRange::new`] or [`NetworkRange::parse`] hands out is valid.
    pub open spec fn valid(&self) -> bool {
        self.spec_prefix() <= 32
    }

    /// The address the range was written with.
    pub closed spec fn spec_addr(&self) -> u32 {
        self.addr
    }

    /// The prefix length the range was written with.
    pub closed spec fn spec_prefix(&self) -> u8 {
        self.prefix
    }

    /// The network address: the lowest address of the range.
    pub open spec fn spec_network(&self) -> u32 {
        self.spec_addr() & prefix_mask(self.spec_prefix())
    }

    /// The broadcast address: the highest address of the range.
    pub open spec fn spec_broadcast(&self) -> u32 {
        self.spec_addr() | !prefix_mask(self.spec_prefix())
    }

    /// Builds a range from an address and a prefix length.
    pub fn new(addr: u32, prefix: u8) -> (made: Result<NetworkRange, ConfigurationError>)
        ensures
            prefix <= 32 ==> made.is_ok() && made.unwrap().valid()
                && made.unwrap().spec_addr() == addr && made.unwrap().spec_prefix() == prefix,
            prefix > 32 ==> made == Err::<NetworkRange, _>(ConfigurationError::PrefixTooLong),
    {
        if prefix <= 32 {
            Ok(NetworkRange { addr, prefix })
        } else {
            Err(ConfigurationError::PrefixTooLong)
        }
    }

    /// Reads a range in CIDR notation, such as `192.168.1.0/24`.
    pub fn parse(cidr: &str) -> (made: Result<NetworkRange, ConfigurationError>)
        ensures
            match parsed_cidr(cidr@) {
                Some(parts) => made.is_ok() && made.unwrap().valid()
                    && made.unwrap().spec_addr() == parts.0
                    && made.unwrap().spec_prefix() == parts.1,
                None => made == Err::<NetworkRange, _>(ConfigurationError::MalformedCidr),
            },
    {
        match cidr_from_str(cidr) {
            Ok(parts) => NetworkRange::new(parts.0, parts.1),
            Err(_) => Err(ConfigurationError::MalformedCidr),
        }
    }

    /// The address the range was written with.
    pub fn addr(&self) -> (addr: u32)
        ensures
            addr == self.spec_addr(),
    {
        self.addr
    }

    /// The prefix length, at most 32.
    pub fn prefix(&self) -> (prefix: u8)
        ensures
            prefix == self.spec_prefix(),
            prefix <= 32,
    {
        proof {
            use_type_invariant(self);
        }
        self.prefix
    }

    /// The network address: the lowest address of the range.
    pub fn network(&self) -> (lowest: u32)
        ensures
            lowest == self.spec_network(),
    {
        proof {
            use_type_invariant(self);
        }
        lowest_address(self.addr, self.prefix)
    }

    /// The broadcast address: the highest address of the range.
    pub fn broadcast(&self) -> (highest: u32)
        ensures
            highest == self.spec_broadcast(),
    {
        proof {
            use_type_invariant(self);
        }
        highest_address(self.addr, self.prefix)
    }
}

/// A cursor over a run of consecutive addresses, lowest first. Taking an
/// address moves the cursor; a fresh cursor over the same run starts again.
#[derive(Debug, Clone, Copy, PartialEq, Eq)]
pub struct IpRange {
    next: u64,
    stop: u64,
}

impl View for IpRange {
    type V = Seq<u32>;

    /// The addresses still to come, in the order in which they come.
    closed spec fn view(&self) -> Seq<u32> {
        address_span(self.next as int, self.stop - 1)
    }
}

impl IpRange {
    #[verifier::type_invariant]
    spec fn within_address_space(&self) -> bool {
        self.next <= self.stop <= 0x1_0000_0000
    }

    /// How many addresses are still to come.
    pub fn remaining(&self) -> (count: u64)
        ensures
            count == self@.len(),
    {
        proof {
            use_type_invariant(self);
        }
        self.stop - self.next
    }

    /// Takes the next address, if any is left.
    pub fn next(&mut self) -> (item: Option<u32>)
        ensures
            old(self)@.len() == 0 ==> item.is_none() && final(self)@ == old(self)@,
            old(self)@.len() > 0 ==> item == Some(old(self)@[0]) && final(self)@ == old(
                self,
            )@.drop_first(),
    {
        proof {
            use_type_invariant(&*self);
        }
        if self.next < self.stop {
            let taken: u32 = self.next as u32;
            self.next = self.next + 1;
            assert(self@ =~= old(self)@.drop_first());
            Some(taken)
        } else {
            None
        }
    }

    /// All addresses still to come, in order.
    pub fn collect(self) -> (all: Vec<u32>)
        requires
            self@.len() <= usize::MAX,
        ensures
            all@ == self@,
    {
        proof {
            use_type_invariant(&self);
        }
        let mut all: Vec<u32> = Vec::new();
        let mut at: u64 = self.next;
        while at < self.stop
            invariant
                self.next <= at <= self.stop <= 0x1_0000_0000,
                all@ == address_span(self.next as int, at - 1),
            decreases self.stop - at,
        {
            all.push(at as u32);
            at = at + 1;
            assert(all@ =~= address_span(self.next as int, at - 1));
        }
        all
    }
}

/// The addresses from `start` to `end`, both included; none when `start` is
/// above `end`.
pub fn ip_range(start: u32, end: u32) -> (range: IpRange)
    ensures
        range@ == address_span(start as int, end as int),
        range@.len() <= 0x1_0000_0000,
{
    if start <= end {
        let range = IpRange { next: start as u64, stop: end as u64 + 1 };
        assert(range@ =~= address_span(start as int, end as int));
        range
    } else {
        let range = IpRange { next: 0, stop: 0 };
        assert(range@ =~= address_span(start as int, end as int));
        range
    }
}

/// How many usable host addresses a range with this prefix length holds: all
/// addresses of the range but its lowest and its highest, and none where the
/// range has no more than those two.
pub open spec fn host_capacity(prefix: u8) -> nat {
    if prefix >= 31 {
        0nat
    } else {
        (pow2((32 - prefix) as nat) - 2) as nat
    }
}

impl NetworkRange {
    /// The usable host addresses of the range: every address strictly between
    /// the network address and the broadcast address, in ascending order.
    pub open spec fn host_addresses(&self) -> Seq<u32> {
        address_span(self.spec_network() + 1, self.spec_broadcast() - 1)
    }

    /// A cursor over the usable host addresses, lowest first.
    pub fn hosts(&self) -> (cursor: IpRange)
        ensures
            cursor@ == self.host_addresses(),
            cursor@.len() <= 0xffff_fffe,
    {
        proof {
            use_type_invariant(self);
            lemma_range_bounds(self.addr, self.prefix);
        }
        let lowest = self.network();
        let highest = self.broadcast();
        if highest - lowest >= 2 {
            ip_range(lowest + 1, highest - 1)
        } else {
            let cursor = ip_range(1, 0);
            assert(cursor@ =~= self.host_addresses());
            cursor
        }
    }

    /// The number of usable host addresses.
    pub fn host_count(&self) -> (count: u32)
        ensures
            count == self.host_addresses().len(),
            count == host_capacity(self.spec_prefix()),
    {
        proof {
            use_type_invariant(self);
            lemma_range_bounds(self.addr, self.prefix);
            lemma_host_count(*self);
        }
        let lowest = self.network();
        let highest = self.broadcast();
        if highest - lowest >= 2 {
            highest - lowest - 1
        } else {
            0
        }
    }

    /// The usable host address at `index`, counting from the lowest; `None`
    /// from [`NetworkRange::host_count`] on.
    pub fn host_at(&self, index: u32) -> (host: Option<u32>)
        ensures
            index < self.host_addresses().len() ==> host == Some(
                self.host_addresses()[index as int],
            ),
            index >= self.host_addresses().len() ==> host.is_none(),
    {
        proof {
            use_type_invariant(self);
            lemma_range_bounds(self.addr, self.prefix);
        }
        let lowest = self.network();
        let highest = self.broadcast();
        if highest - lowest >= 2 && index < highest - lowest - 1 {
            Some(lowest + 1 + index)
        } else {
            None
        }
    }
}

/// The network address is never above the broadcast address, and the two are
/// one less than a power of two apart.
pub proof fn lemma_range_bounds(addr: u32, prefix: u8)
    requires
        prefix <= 32,
    ensures
        (addr & prefix_mask(prefix)) <= (addr | !prefix_mask(prefix)),
        (addr | !prefix_mask(prefix)) - (addr & prefix_mask(prefix)) == pow2((32 - prefix) as nat)
            - 1,
{
    let mask = prefix_mask(prefix);
    let width: u32 = (32 - prefix) as u32;
    assert(mask == if prefix == 0 {
        0u32
    } else {
        0xffff_ffffu32 << width
    });
    assert((addr & mask) <= (addr | !mask) && (addr | !mask) - (addr & mask) == (1u64 << width)
        - 1) by (bit_vector)
        requires
            width <= 32,
            mask == if width == 32 {
                0u32
            } else {
                0xffff_ffffu32 << width
            },
    ;
    assert((1u64 << width) == pow2(width as nat)) by {
        lemma2_to64();
        lemma2_to64_rest();
        vstd::bits::lemma_u64_shl_is_mul(1u64, width as u64);
        assert(1u64 << width == 1u64 << (width as u64)) by (bit_vector);
    }
}

/// A range yields exactly `2^(32 - prefix) - 2` host addresses, and none for a
/// prefix of 31 or 32.
pub proof fn lemma_host_count(range: NetworkRange)
    requires
        range.valid(),
    ensures
        range.host_addresses().len() == host_capacity(range.spec_prefix()),
{
    lemma_range_bounds(range.spec_addr(), range.spec_prefix());
    lemma2_to64();
}

/// The host addresses come in strictly ascending order.
pub proof fn lemma_hosts_ascending(range: NetworkRange)
    requires
        range.valid(),
    ensures
        forall|i: int, j: int|
            0 <= i < j < range.host_addresses().len() ==> range.host_addresses()[i]
                < range.host_addresses()[j],
{
    lemma_range_bounds(range.spec_addr(), range.spec_prefix());
}

/// The host addresses are exactly the addresses strictly between the network
/// address and the broadcast address: neither of the two is among them, and no
/// address between them is left out.
pub proof fn lemma_hosts_exclude_network_and_broadcast(range: NetworkRange)
    requires
        range.valid(),
    ensures
        forall|address: u32|
            range.host_addresses().contains(address) <==> range.spec_network() < address
                < range.spec_broadcast(),
        !range.host_addresses().contains(range.spec_network()),
        !range.host_addresses().contains(range.spec_broadcast()),
{
    lemma_range_bounds(range.spec_addr(), range.spec_prefix());
    let hosts = range.host_addresses();
    assert forall|address: u32|
        range.spec_network() < address < range.spec_broadcast() implies hosts.contains(
        address,
    ) by {
        let at = address - range.spec_network() - 1;
        assert(hosts[at] == address);
    }
}

/// Every host address lies inside the range: it agrees with the range's
/// address on all bits of the netmask.
pub proof fn lemma_hosts_inside_range(range: NetworkRange, index: int)
    requires
        range.valid(),
        0 <= index < range.host_addresses().len(),
    ensures
        range.host_addresses()[index] & prefix_mask(range.spec_prefix()) == range.spec_network(),
{
    lemma_range_bounds(range.spec_addr(), range.spec_prefix());
    let mask = prefix_mask(range.spec_prefix());
    let width: u32 = (32 - range.spec_prefix()) as u32;
    let addr = range.spec_addr();
    let host = range.host_addresses()[index];
    assert(host & mask == addr & mask) by (bit_vector)
        requires
            width <= 32,
            mask == if width == 32 {
                0u32
            } else {
                0xffff_ffffu32 << width
            },
            (addr & mask) <= host <= (addr | !mask),
    ;
}

} // verus!
