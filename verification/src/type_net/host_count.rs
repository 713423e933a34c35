//! A block's prefix and the number of hosts that it leaves room for.

use crate::net::{pow2_u128, Block, Cidr, Family};
use std::cmp::Ordering;
use vstd::arithmetic::power2::*;
use vstd::prelude::*;
use vstd::std_specs::cmp::PartialEqSpec;
use vstd::std_specs::cmp::PartialEqSpecImpl;
use vstd::std_specs::cmp::PartialOrdSpec;
use vstd::std_specs::cmp::PartialOrdSpecImpl;
use vstd::std_specs::convert::FromSpecImpl;
use vstd::std_specs::convert::IntoSpec;

verus! {

/// Whether a prefix leaves room for a bounded or an unbounded number of hosts.
#[derive(Debug, Clone, Copy, PartialEq, Eq, Structural)]
pub enum Type {
    Limited,
    Unlimited,
}

impl Type {
    /// The word for the kind of limit.
    pub open spec fn name(self) -> Seq<char> {
        match self {
            Type::Limited => "Limited"@,
            Type::Unlimited => "Unlimited"@,
        }
    }

    /// The word for the kind of limit.
    pub fn to_string(&self) -> (text: String)
        ensures
            text@ == self.name(),
    {
        match self {
            Type::Limited => "Limited".to_owned(),
            Type::Unlimited => "Unlimited".to_owned(),
        }
    }
}

/// How a prefix splits the bits of an address.
pub struct Parts {
    /// The prefix length: the number of leading bits that name the network.
    pub network_part: nat,
    /// The number of remaining bits, which name a host inside the network.
    pub host_part: nat,
}

impl Parts {
    /// The two parts make up an address of 32 or of 128 bits.
    pub open spec fn wf(self) -> bool {
        self.network_part + self.host_part == 32 || self.network_part + self.host_part == 128
    }

    /// The parts that the prefix of a block has.
    pub open spec fn of(block: Block) -> Parts {
        Parts { network_part: block.prefix_len, host_part: block.host_bits() }
    }
}

/// The prefix of a block: the bits of an address split into a network part
/// and a host part. Prefixes are compared by their network part alone.
pub struct Prefix {
    host_part: u8,
    network_part: u8,
}

impl View for Prefix {
    type V = Parts;

    closed spec fn view(&self) -> Parts {
        Parts { network_part: self.network_part as nat, host_part: self.host_part as nat }
    }
}

impl Prefix {
    /// Every prefix that exists is well formed.
    #[verifier::type_invariant]
    pub open spec fn inv(self) -> bool {
        self@.wf()
    }

    /// The number of host bits.
    pub fn part_host(&self) -> (h: u8)
        ensures
            h == self@.host_part,
    {
        self.host_part
    }

    /// Makes this the prefix of `network`.
    pub fn set(&mut self, network: &Cidr)
        ensures
            final(self)@ == Parts::of(network@),
    {
        *self = Prefix::from(network);
    }

    /// Makes this prefix a copy of `prefix`.
    pub fn set_from_prefix(&mut self, prefix: &Prefix)
        ensures
            final(self)@ == prefix@,
    {
        proof {
            use_type_invariant(prefix);
        }
        *self = Prefix { host_part: prefix.host_part, network_part: prefix.network_part };
    }
}

/// A prefix that no block has.
#[derive(Debug)]
pub struct InvalidPrefix;

impl PartialEq for Prefix {
    fn eq(&self, other: &Self) -> (r: bool) {
        self.network_part == other.network_part
    }
}

impl PartialEqSpecImpl for Prefix {
    open spec fn obeys_eq_spec() -> bool {
        true
    }

    open spec fn eq_spec(&self, other: &Self) -> bool {
        self@.network_part == other@.network_part
    }
}

impl PartialEq<u8> for Prefix {
    fn eq(&self, other: &u8) -> (r: bool) {
        *other == self.network_part
    }
}

impl PartialEqSpecImpl<u8> for Prefix {
    open spec fn obeys_eq_spec() -> bool {
        true
    }

    open spec fn eq_spec(&self, other: &u8) -> bool {
        self@.network_part == *other
    }
}

impl PartialOrd for Prefix {
    fn partial_cmp(&self, other: &Self) -> (r: Option<Ordering>) {
        if self.network_part < other.network_part {
            Some(Ordering::Less)
        } else if self.network_part == other.network_part {
            Some(Ordering::Equal)
        } else {
            Some(Ordering::Greater)
        }
    }
}

impl PartialOrdSpecImpl for Prefix {
    open spec fn obeys_partial_cmp_spec() -> bool {
        true
    }

    open spec fn partial_cmp_spec(&self, other: &Self) -> Option<Ordering> {
        if self@.network_part < other@.network_part {
            Some(Ordering::Less)
        } else if self@.network_part == other@.network_part {
            Some(Ordering::Equal)
        } else {
            Some(Ordering::Greater)
        }
    }
}

impl PartialOrd<u8> for Prefix {
    fn partial_cmp(&self, other: &u8) -> (r: Option<Ordering>) {
        if self.network_part < *other {
            Some(Ordering::Less)
        } else if self.network_part == *other {
            Some(Ordering::Equal)
        } else {
            Some(Ordering::Greater)
        }
    }
}

impl PartialOrdSpecImpl<u8> for Prefix {
    open spec fn obeys_partial_cmp_spec() -> bool {
        true
    }

    open spec fn partial_cmp_spec(&self, other: &u8) -> Option<Ordering> {
        if self@.network_part < *other {
            Some(Ordering::Less)
        } else if self@.network_part == *other {
            Some(Ordering::Equal)
        } else {
            Some(Ordering::Greater)
        }
    }
}

impl From<&Cidr> for Prefix {
    fn from(value: &Cidr) -> (r: Prefix)
        ensures
            r@ == Parts::of(value@),
    {
        Prefix {
            host_part: value.max_prefix_len() - value.prefix_len(),
            network_part: value.prefix_len(),
        }
    }
}

impl FromSpecImpl<&Cidr> for Prefix {
    open spec fn obeys_from_spec() -> bool {
        true
    }

    closed spec fn from_spec(value: &Cidr) -> Prefix {
        Prefix { host_part: value@.host_bits() as u8, network_part: value@.prefix_len as u8 }
    }
}

impl std::ops::Deref for Prefix {
    type Target = u8;

    fn deref(&self) -> (r: &u8)
        ensures
            *r == self@.network_part,
    {
        &self.network_part
    }
}

/// The value that a counter holds when the capacity is not bounded.
pub open spec fn unlimited_count() -> nat {
    0xffff_ffff
}

/// The number of hosts that a prefix leaves room for, as a counter of 32 bits
/// holds it: the addresses that the host part can spell, less the first and
/// the last; none where the host part is shorter than two bits; and not
/// bounded where the network part is longer than 32 bits, or where the number
/// is beyond the counter.
pub open spec fn capacity(parts: Parts) -> nat {
    if parts.network_part > 32 {
        unlimited_count()
    } else if parts.host_part < 2 {
        0
    } else if parts.host_part <= 32 {
        (pow2(parts.host_part) - 2) as nat
    } else {
        unlimited_count()
    }
}

/// A prefix that leaves fewer than two host bits leaves room for no host: the
/// capacity is zero, not a number wrapped around.
pub proof fn lemma_capacity_of_smallest_blocks(parts: Parts)
    requires
        parts.network_part <= 32,
        parts.host_part < 2,
    ensures
        capacity(parts) == 0,
{
}

/// The capacity of an IPv4 block is the number of its assignable addresses,
/// and it is bounded.
pub proof fn lemma_capacity_counts_hosts(block: Block)
    requires
        block.wf(),
        block.family == Family::V4,
    ensures
        capacity(Parts::of(block)) == block.hosts().len(),
        capacity(Parts::of(block)) < unlimited_count(),
{
    crate::net::lemma_hosts_count(block);
    crate::net::lemma_pow2_monotone(block.host_bits(), 32);
    lemma2_to64();
}

/// Prefixes are ordered by their network parts, and by nothing else: two
/// prefixes of one length are equal, and the longer of two is the greater.
pub proof fn lemma_prefix_order(a: Prefix, b: Prefix)
    ensures
        PartialEqSpec::eq_spec(&a, &b) <==> a@.network_part == b@.network_part,
        PartialOrdSpec::partial_cmp_spec(&a, &b) == Some(Ordering::Equal) <==> a@.network_part
            == b@.network_part,
        PartialOrdSpec::partial_cmp_spec(&a, &b) == Some(Ordering::Less) <==> a@.network_part
            < b@.network_part,
        PartialOrdSpec::partial_cmp_spec(&a, &b) == Some(Ordering::Greater) <==> a@.network_part
            > b@.network_part,
{
}

/// A prefix compares with a bare prefix length as it would with a prefix of
/// that length.
pub proof fn lemma_prefix_order_with_length(a: Prefix, b: Prefix, length: u8)
    requires
        b@.network_part == length,
    ensures
        PartialEqSpec::eq_spec(&a, &length) == PartialEqSpec::eq_spec(&a, &b),
        PartialOrdSpec::partial_cmp_spec(&a, &length) == PartialOrdSpec::partial_cmp_spec(&a, &b),
{
}

/// A failed addition or subtraction changes nothing, and a subtraction undoes
/// the addition of the same number.
pub proof fn lemma_counting_is_checked(
    before: nat,
    n: nat,
    between: nat,
    after: nat,
    first: Result<(), CountOfRange>,
    second: Result<(), CountOfRange>,
)
    requires
        HostCount::added(before, n, between, first),
        HostCount::subtracted(between, n, after, second),
    ensures
        first is Err ==> between == before,
        second is Err ==> after == between,
        first is Ok ==> second is Ok && after == before,
{
}

/// A counter of hosts, in 32 bits; the largest value stands for a capacity
/// that is not bounded.
#[derive(Debug, Clone)]
pub struct HostCount(u32);

impl View for HostCount {
    type V = nat;

    closed spec fn view(&self) -> nat {
        self.0 as nat
    }
}

/// A count that would leave the range of the counter.
#[derive(Debug)]
pub struct CountOfRange;

impl HostCount {
    pub const MAX: u32 = 0xffff_ffff;

    /// What a counter holds after `n` was to be added to `before`, and what
    /// the caller was told.
    pub open spec fn added(before: nat, n: nat, after: nat, r: Result<(), CountOfRange>) -> bool {
        if before + n <= 0xffff_ffff {
            r is Ok && after == before + n
        } else {
            r is Err && after == before
        }
    }

    /// What a counter holds after `n` was to be taken from `before`, and what
    /// the caller was told.
    pub open spec fn subtracted(before: nat, n: nat, after: nat, r: Result<(), CountOfRange>) -> bool {
        if n <= before {
            r is Ok && after == before - n
        } else {
            r is Err && after == before
        }
    }

    /// The capacity of a block with the given prefix.
    pub fn new(prefix: Prefix) -> (r: HostCount)
        ensures
            r@ == capacity(prefix@),
    {
        proof {
            use_type_invariant(&prefix);
            lemma2_to64();
        }
        if prefix > 32 {
            HostCount(Self::MAX)
        } else {
            let host_part = prefix.part_host();
            if host_part < 2 {
                HostCount(0)
            } else if host_part <= 32 {
                proof {
                    crate::net::lemma_pow2_monotone(2, host_part as nat);
                    crate::net::lemma_pow2_monotone(host_part as nat, 32);
                }
                let size = pow2_u128(host_part);
                HostCount((size - 2) as u32)
            } else {
                HostCount(Self::MAX)
            }
        }
    }

    /// Whether the counter stands for a capacity that is not bounded.
    pub fn unlimited(&self) -> (r: bool)
        ensures
            r == (self@ == unlimited_count()),
    {
        self.0 == Self::MAX
    }

    /// Whether a prefix leaves room for a bounded number of hosts. The answer
    /// depends on the prefix alone, not on what the counter holds.
    pub fn type_limit(&self, prefix: Prefix) -> (r: Type)
        ensures
            r == if prefix@.network_part > 32 {
                Type::Unlimited
            } else {
                Type::Limited
            },
    {
        if prefix > 32 {
            Type::Unlimited
        } else {
            Type::Limited
        }
    }

    /// Adds `n`, or fails and leaves the counter as it was where the sum is
    /// beyond the counter.
    pub fn increase(&mut self, n: u32) -> (r: Result<(), CountOfRange>)
        ensures
            Self::added(old(self)@, n as nat, final(self)@, r),
    {
        match self.0.checked_add(n) {
            Some(sum) => {
                self.0 = sum;
                Ok(())
            },
            None => Err(CountOfRange),
        }
    }

    /// Takes `n` off, or fails and leaves the counter as it was where it holds
    /// less than `n`.
    pub fn decrease(&mut self, n: u32) -> (r: Result<(), CountOfRange>)
        ensures
            Self::subtracted(old(self)@, n as nat, final(self)@, r),
    {
        match self.0.checked_sub(n) {
            Some(difference) => {
                self.0 = difference;
                Ok(())
            },
            None => Err(CountOfRange),
        }
    }

    /// Adds what `rhs` converts to, or fails and leaves the counter as it was
    /// where the sum is beyond the counter.
    pub fn add<T: Into<u32>>(&mut self, rhs: T) -> (r: Result<(), CountOfRange>)
        ensures
            T::obeys_into_spec() ==> Self::added(
                old(self)@,
                rhs.into_spec() as nat,
                final(self)@,
                r,
            ),
            exists|n: u32| #[trigger] Self::added(old(self)@, n as nat, final(self)@, r),
    {
        self.increase(rhs.into())
    }

    /// Takes off what `rhs` converts to, or fails and leaves the counter as it
    /// was where it holds less.
    pub fn sub<T: Into<u32>>(&mut self, rhs: T) -> (r: Result<(), CountOfRange>)
        ensures
            T::obeys_into_spec() ==> Self::subtracted(
                old(self)@,
                rhs.into_spec() as nat,
                final(self)@,
                r,
            ),
            exists|n: u32| #[trigger] Self::subtracted(old(self)@, n as nat, final(self)@, r),
    {
        self.decrease(rhs.into())
    }
}

impl From<u32> for HostCount {
    fn from(value: u32) -> (r: HostCount)
        ensures
            r@ == value,
    {
        HostCount(value)
    }
}

impl FromSpecImpl<u32> for HostCount {
    open spec fn obeys_from_spec() -> bool {
        true
    }

    closed spec fn from_spec(value: u32) -> HostCount {
        HostCount(value)
    }
}

impl std::ops::Deref for HostCount {
    type Target = u32;

    fn deref(&self) -> (r: &u32)
        ensures
            *r == self@,
    {
        &self.0
    }
}

} // verus!
