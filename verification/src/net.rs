//! CIDR blocks and addresses as plain integers.
//!
//! A block is an address of 32 or 128 bits together with a prefix length.
//! Everything the rest of the crate computes on blocks is stated over
//! [`Block`], the mathematical reading of a [`Cidr`].

use vstd::arithmetic::div_mod::*;
use vstd::arithmetic::mul::*;
use vstd::arithmetic::power2::*;
use vstd::prelude::*;

verus! {

/// The address family of a block or an address.
#[derive(Clone, Copy, Debug, PartialEq, Eq, Structural)]
pub enum Family {
    V4,
    V6,
}

impl Family {
    /// The number of bits in an address of this family.
    pub open spec fn bits(self) -> nat {
        match self {
            Family::V4 => 32,
            Family::V6 => 128,
        }
    }

    /// The number of bits in an address of this family.
    pub fn width(self) -> (w: u8)
        ensures
            w == self.bits(),
    {
        match self {
            Family::V4 => 32,
            Family::V6 => 128,
        }
    }
}

/// The mathematical reading of a CIDR block.
pub struct Block {
    pub family: Family,
    /// The address the block was written with; host bits may be set.
    pub addr: nat,
    pub prefix_len: nat,
}

impl Block {
    /// The prefix fits the family and the address fits its width.
    pub open spec fn wf(self) -> bool {
        &&& self.prefix_len <= self.family.bits()
        &&& self.addr < pow2(self.family.bits())
    }

    /// The number of bits left to identify an address inside the block.
    pub open spec fn host_bits(self) -> nat {
        (self.family.bits() - self.prefix_len) as nat
    }

    /// The number of addresses in the block.
    pub open spec fn size(self) -> nat {
        pow2(self.host_bits())
    }

    /// The first address of the block: the address with its host bits cleared.
    pub open spec fn network(self) -> nat {
        (self.addr - self.addr % self.size()) as nat
    }

    /// The last address of the block: the address with its host bits set.
    pub open spec fn broadcast(self) -> nat {
        (self.network() + self.size() - 1) as nat
    }

    /// The number of addresses strictly between the first and the last.
    pub open spec fn host_count(self) -> nat {
        if self.size() >= 2 {
            (self.size() - 2) as nat
        } else {
            0
        }
    }

    /// The assignable addresses: those strictly between the first and the
    /// last address of the block, in ascending order.
    pub open spec fn hosts(self) -> Seq<nat> {
        Seq::new(self.host_count(), |i: int| (self.network() + 1 + i) as nat)
    }

    /// Whether `prefix_len` is a prefix length of the block's family that is
    /// strictly finer than the block's own.
    pub open spec fn splits_into(self, prefix_len: nat) -> bool {
        self.prefix_len < prefix_len <= self.family.bits()
    }

    /// The number of addresses in a block of prefix length `prefix_len`.
    pub open spec fn child_size(self, prefix_len: nat) -> nat {
        pow2((self.family.bits() - prefix_len) as nat)
    }

    /// The number of blocks of prefix length `prefix_len` that the block
    /// splits into.
    pub open spec fn child_count(self, prefix_len: nat) -> nat {
        pow2((prefix_len - self.prefix_len) as nat)
    }

    /// The `k`-th block of prefix length `prefix_len` inside the block,
    /// counted from its first address.
    pub open spec fn child(self, prefix_len: nat, k: int) -> Block {
        Block {
            family: self.family,
            addr: (self.network() + k * self.child_size(prefix_len)) as nat,
            prefix_len,
        }
    }

    /// The blocks of prefix length `prefix_len` that the block splits into,
    /// in ascending address order.
    pub open spec fn children(self, prefix_len: nat) -> Seq<Block> {
        Seq::new(self.child_count(prefix_len), |k: int| self.child(prefix_len, k))
    }
}

/// What each block of a sequence reads as.
pub open spec fn blocks_of(cidrs: Seq<Cidr>) -> Seq<Block> {
    Seq::new(cidrs.len(), |i: int| cidrs[i]@)
}

/// Two to the 32nd, the 64th and the 128th power, as numbers.
pub proof fn lemma_pow2_widths()
    ensures
        pow2(32) == 0x1_0000_0000,
        pow2(64) == 0x1_0000_0000_0000_0000,
        pow2(128) == 0x1_0000_0000_0000_0000_0000_0000_0000_0000,
{
    lemma2_to64();
    lemma_pow2_adds(64, 64);
    assert(0x1_0000_0000_0000_0000int * 0x1_0000_0000_0000_0000int
        == 0x1_0000_0000_0000_0000_0000_0000_0000_0000int) by (nonlinear_arith);
}

/// Powers of two grow with the exponent.
pub proof fn lemma_pow2_monotone(a: nat, b: nat)
    requires
        a <= b,
    ensures
        pow2(a) <= pow2(b),
{
    if a < b {
        lemma_pow2_strictly_increases(a, b);
    }
}

/// A block's first and last address lie inside its family's address space,
/// the block starts at a multiple of its size, and it holds the address it
/// was written with.
pub proof fn lemma_block_bounds(b: Block)
    requires
        b.wf(),
    ensures
        b.size() > 0,
        b.network() % b.size() == 0,
        b.network() <= b.addr <= b.broadcast(),
        b.broadcast() < pow2(b.family.bits()),
        pow2(b.family.bits()) == pow2(b.prefix_len) * b.size(),
{
    let s = b.size() as int;
    let a = b.addr as int;
    lemma_pow2_pos(b.host_bits());
    lemma_pow2_adds(b.prefix_len, b.host_bits());
    lemma_fundamental_div_mod(a, s);
    lemma_mod_bound(a, s);
    let q = a / s;
    assert(b.network() == s * q);
    lemma_mod_multiples_basic(q, s);
    assert((q * s) % s == 0);
    assert(s * q == q * s) by (nonlinear_arith);
    // q < 2^prefix_len, so the block ends before the address space does
    let p = pow2(b.prefix_len) as int;
    assert(q < p) by (nonlinear_arith)
        requires
            s * q <= a,
            a < p * s,
            s > 0,
    ;
    assert(s * q + s <= p * s) by (nonlinear_arith)
        requires
            q + 1 <= p,
            s > 0,
    ;
}

/// A child block starts at a multiple of its size and ends inside its parent.
proof fn lemma_child_aligned(b: Block, prefix_len: nat, k: int)
    requires
        b.wf(),
        b.splits_into(prefix_len),
        0 <= k < b.child_count(prefix_len),
    ensures
        b.child(prefix_len, k).addr == b.network() + k * b.child_size(prefix_len),
        b.child(prefix_len, k).addr % b.child_size(prefix_len) == 0,
        b.child(prefix_len, k).addr + b.child_size(prefix_len) <= b.network() + b.size(),
        b.child(prefix_len, k).wf(),
        b.child(prefix_len, k).size() == b.child_size(prefix_len),
        b.child(prefix_len, k).network() == b.child(prefix_len, k).addr,
{
    let step = b.child_size(prefix_len) as int;
    let count = b.child_count(prefix_len) as int;
    let size = b.size() as int;
    let n = b.network() as int;
    lemma_block_bounds(b);
    lemma_children_fill_block(b, prefix_len);
    lemma_fundamental_div_mod(n, size);
    let q = n / size;
    assert(n == (q * count + k) * step - k * step) by (nonlinear_arith)
        requires
            n == size * q,
            size == count * step,
    ;
    assert(0 <= q) by (nonlinear_arith)
        requires
            n == size * q,
            n >= 0,
            size > 0,
    ;
    assert(0 <= k * step && (k + 1) * step <= count * step && (k + 1) * step == k * step + step)
        by (nonlinear_arith)
        requires
            0 <= k < count,
            step >= 1,
    ;
    let addr = n + k * step;
    lemma_mod_multiples_basic(q * count + k, step);
    assert(b.child(prefix_len, k).addr == addr);
    assert(addr % step == 0);
}

/// The blocks that a block splits into tile it: each starts where it is
/// written, they are of one size, the first starts where the parent starts,
/// each next one starts right after the one before, and the last ends where the
/// parent ends.
pub proof fn lemma_children_tile(b: Block, prefix_len: nat, k: int)
    requires
        b.wf(),
        b.splits_into(prefix_len),
        0 <= k < b.child_count(prefix_len),
    ensures
        b.child(prefix_len, k).wf(),
        b.child(prefix_len, k).network() == b.child(prefix_len, k).addr,
        b.child(prefix_len, k).size() == b.child_size(prefix_len),
        b.child(prefix_len, k).network() == b.network() + k * b.child_size(prefix_len),
        k == 0 ==> b.child(prefix_len, k).network() == b.network(),
        k + 1 < b.child_count(prefix_len) ==> b.child(prefix_len, k + 1).network() == b.child(
            prefix_len,
            k,
        ).broadcast() + 1,
        k + 1 == b.child_count(prefix_len) ==> b.child(prefix_len, k).broadcast()
            == b.broadcast(),
{
    let step = b.child_size(prefix_len) as int;
    lemma_block_bounds(b);
    lemma_children_fill_block(b, prefix_len);
    lemma_child_aligned(b, prefix_len, k);
    assert((k + 1) * step == k * step + step) by (nonlinear_arith);
    assert(0 * step == 0) by (nonlinear_arith);
    if k + 1 < b.child_count(prefix_len) {
        lemma_child_aligned(b, prefix_len, k + 1);
    }
}

/// The assignable addresses of a block lie strictly between its first and its
/// last address, and each is one more than the one before.
pub proof fn lemma_hosts_between(b: Block, i: int)
    requires
        b.wf(),
        0 <= i < b.hosts().len(),
    ensures
        b.network() < b.hosts()[i] < b.broadcast(),
        b.hosts()[i] < pow2(b.family.bits()),
        i + 1 < b.hosts().len() ==> b.hosts()[i + 1] == b.hosts()[i] + 1,
{
    lemma_block_bounds(b);
}

/// A block has an assignable address exactly where it has two host bits or
/// more, and then it has all its addresses but two.
pub proof fn lemma_hosts_count(b: Block)
    requires
        b.wf(),
    ensures
        b.hosts().len() == b.host_count(),
        b.host_count() > 0 <==> b.host_bits() >= 2,
        b.host_bits() >= 2 ==> b.host_count() == pow2(b.host_bits()) - 2,
{
    lemma2_to64();
    if b.host_bits() >= 2 {
        lemma_pow2_monotone(2, b.host_bits());
    } else {
        lemma_pow2_monotone(b.host_bits(), 1);
    }
}

/// An IP address, as the integer its bits spell.
#[derive(Clone, Copy, Debug, PartialEq, Eq, Structural)]
pub enum IpAddress {
    V4(u32),
    V6(u128),
}

impl IpAddress {
    pub open spec fn family(self) -> Family {
        match self {
            IpAddress::V4(_) => Family::V4,
            IpAddress::V6(_) => Family::V6,
        }
    }

    /// The address as a number.
    pub open spec fn value(self) -> nat {
        match self {
            IpAddress::V4(bits) => bits as nat,
            IpAddress::V6(bits) => bits as nat,
        }
    }

    /// The address of family `family` whose bits spell `bits`.
    pub fn new(family: Family, bits: u128) -> (a: IpAddress)
        requires
            bits < pow2(family.bits()),
        ensures
            a.family() == family,
            a.value() == bits,
    {
        proof {
            lemma_pow2_widths();
        }
        match family {
            Family::V4 => IpAddress::V4(bits as u32),
            Family::V6 => IpAddress::V6(bits),
        }
    }
}

/// A block is as large as all the blocks of a finer prefix length that it
/// splits into, and it splits into at least two.
pub proof fn lemma_children_fill_block(b: Block, prefix_len: nat)
    requires
        b.wf(),
        b.splits_into(prefix_len),
    ensures
        b.size() == b.child_count(prefix_len) * b.child_size(prefix_len),
        b.child_count(prefix_len) >= 2,
        b.child_size(prefix_len) >= 1,
{
    let up = (prefix_len - b.prefix_len) as nat;
    let down = (b.family.bits() - prefix_len) as nat;
    lemma_pow2_adds(up, down);
    lemma_pow2_pos(down);
    lemma_pow2_monotone(1, up);
    lemma2_to64();
}

/// Two to the power `e`, for an exponent whose power fits in 128 bits.
pub fn pow2_u128(e: u8) -> (r: u128)
    requires
        e < 128,
    ensures
        r == pow2(e as nat),
{
    let mut r: u128 = 1;
    let mut i: u8 = 0;
    proof {
        lemma2_to64();
    }
    while i < e
        invariant
            i <= e,
            e < 128,
            r == pow2(i as nat),
        decreases e - i,
    {
        proof {
            lemma_pow2_unfold((i + 1) as nat);
            lemma_pow2_monotone((i + 1) as nat, 127);
            lemma_pow2_unfold(128);
            lemma_pow2_widths();
        }
        r = r * 2;
        i = i + 1;
    }
    r
}

/// A CIDR block: an address of one family and a prefix length that fits it.
#[derive(Clone, Copy, Debug, PartialEq, Eq, Structural)]
pub struct Cidr {
    family: Family,
    addr: u128,
    prefix_len: u8,
}

impl View for Cidr {
    type V = Block;

    closed spec fn view(&self) -> Block {
        Block { family: self.family, addr: self.addr as nat, prefix_len: self.prefix_len as nat }
    }
}

impl Cidr {
    /// Every block that exists is well formed.
    #[verifier::type_invariant]
    pub open spec fn inv(self) -> bool {
        self@.wf()
    }

    /// Whether an address of `addr` bits and a prefix of `prefix_len` bits
    /// make a block of family `family`.
    pub open spec fn fits(family: Family, addr: u128, prefix_len: u8) -> bool {
        Block { family, addr: addr as nat, prefix_len: prefix_len as nat }.wf()
    }

    /// The block of the given family, address and prefix length, if the prefix
    /// length is no more than the family's width and the address fits it.
    pub fn new(family: Family, addr: u128, prefix_len: u8) -> (r: Option<Cidr>)
        ensures
            r is Some <==> Self::fits(family, addr, prefix_len),
            r matches Some(c) ==> c@ == (Block {
                family,
                addr: addr as nat,
                prefix_len: prefix_len as nat,
            }),
    {
        proof {
            lemma_pow2_widths();
        }
        let fits = match family {
            Family::V4 => prefix_len <= 32 && addr <= 0xffff_ffff,
            Family::V6 => prefix_len <= 128,
        };
        if fits {
            Some(Cidr { family, addr, prefix_len })
        } else {
            None
        }
    }

    /// The IPv4 block `addr/prefix_len`, if `prefix_len` is at most 32.
    pub fn v4(addr: u32, prefix_len: u8) -> (r: Option<Cidr>)
        ensures
            r is Some <==> prefix_len <= 32,
            r matches Some(c) ==> c@ == (Block {
                family: Family::V4,
                addr: addr as nat,
                prefix_len: prefix_len as nat,
            }),
    {
        proof {
            lemma_pow2_widths();
        }
        Self::new(Family::V4, addr as u128, prefix_len)
    }

    /// The IPv6 block `addr/prefix_len`, if `prefix_len` is at most 128.
    pub fn v6(addr: u128, prefix_len: u8) -> (r: Option<Cidr>)
        ensures
            r is Some <==> prefix_len <= 128,
            r matches Some(c) ==> c@ == (Block {
                family: Family::V6,
                addr: addr as nat,
                prefix_len: prefix_len as nat,
            }),
    {
        proof {
            lemma_pow2_widths();
        }
        Self::new(Family::V6, addr, prefix_len)
    }

    /// Two blocks that read the same are the same block.
    pub proof fn lemma_view_injective(a: Cidr, b: Cidr)
        requires
            a@ == b@,
        ensures
            a == b,
    {
    }

    /// The block of this block's family with address `addr` and prefix length
    /// `prefix_len`.
    pub fn sibling(&self, addr: u128, prefix_len: u8) -> (c: Cidr)
        requires
            Self::fits(self@.family, addr, prefix_len),
        ensures
            c@ == (Block { family: self@.family, addr: addr as nat, prefix_len: prefix_len as nat }),
    {
        Cidr { family: self.family, addr, prefix_len }
    }

    pub fn family(&self) -> (f: Family)
        ensures
            f == self@.family,
    {
        self.family
    }

    /// The address the block was written with, as an integer.
    pub fn addr(&self) -> (a: u128)
        ensures
            a == self@.addr,
    {
        self.addr
    }

    pub fn prefix_len(&self) -> (p: u8)
        ensures
            p == self@.prefix_len,
            p <= self@.family.bits(),
    {
        proof {
            use_type_invariant(self);
        }
        self.prefix_len
    }

    /// The largest prefix length of the block's family.
    pub fn max_prefix_len(&self) -> (p: u8)
        ensures
            p == self@.family.bits(),
    {
        self.family.width()
    }

    /// The number of host bits.
    pub fn host_bits(&self) -> (h: u8)
        ensures
            h == self@.host_bits(),
    {
        proof {
            use_type_invariant(self);
        }
        self.family.width() - self.prefix_len
    }

    /// The first address of the block.
    pub fn network(&self) -> (n: u128)
        ensures
            n == self@.network(),
    {
        proof {
            use_type_invariant(self);
            lemma_block_bounds(self@);
            lemma_pow2_widths();
        }
        let h = self.host_bits();
        if h == 128 {
            proof {
                lemma_small_mod(self.addr as nat, pow2(128));
            }
            0
        } else {
            let size = pow2_u128(h);
            proof {
                lemma_mod_decreases(self.addr as nat, size as nat);
            }
            self.addr - self.addr % size
        }
    }

    /// The last address of the block.
    pub fn broadcast(&self) -> (n: u128)
        ensures
            n == self@.broadcast(),
    {
        proof {
            use_type_invariant(self);
            lemma_block_bounds(self@);
            lemma_pow2_widths();
        }
        let h = self.host_bits();
        let network = self.network();
        if h == 128 {
            u128::MAX
        } else {
            let size = pow2_u128(h);
            network + (size - 1)
        }
    }
}

/// The text that the `ipnet` crate writes for the IPv4 network of address
/// `addr` and prefix length `prefix_len`.
pub uninterp spec fn ipv4_net_text(addr: u32, prefix_len: u8) -> Seq<char>;

/// The text that the `ipnet` crate writes for the IPv6 network of address
/// `addr` and prefix length `prefix_len`.
pub uninterp spec fn ipv6_net_text(addr: u128, prefix_len: u8) -> Seq<char>;

/// What the `ipnet` crate reads `text` as: the family, address and prefix
/// length of a network, or nothing where it rejects the text.
pub uninterp spec fn parsed_net(text: Seq<char>) -> Option<(Family, u128, u8)>;

/// `Display` of `ipnet::Ipv4Net`. Not verified: the text is taken to depend on
/// the address and the prefix length alone. `Ipv4Net::new_assert` panics on a
/// prefix length above 32, which the precondition leaves out.
#[verifier::external_body]
fn ipv4_net_to_string(addr: u32, prefix_len: u8) -> (text: String)
    requires
        prefix_len <= 32,
    ensures
        text@ == ipv4_net_text(addr, prefix_len),
{
    ipnet::Ipv4Net::new_assert(addr.into(), prefix_len).to_string()
}

/// `Display` of `ipnet::Ipv6Net`. Not verified: the text is taken to depend on
/// the address and the prefix length alone. `Ipv6Net::new_assert` panics on a
/// prefix length above 128, which the precondition leaves out.
#[verifier::external_body]
fn ipv6_net_to_string(addr: u128, prefix_len: u8) -> (text: String)
    requires
        prefix_len <= 128,
    ensures
        text@ == ipv6_net_text(addr, prefix_len),
{
    ipnet::Ipv6Net::new_assert(addr.into(), prefix_len).to_string()
}

/// `FromStr` of `ipnet::IpNet`, its result taken apart into integers. Not
/// verified: what a text reads as is taken to depend on the text alone.
#[verifier::external_body]
fn parse_net(text: &str) -> (r: Option<(Family, u128, u8)>)
    ensures
        r == parsed_net(text@),
{
    match text.parse::<ipnet::IpNet>() {
        Ok(ipnet::IpNet::V4(n)) => Some((Family::V4, u128::from(u32::from(n.addr())), n.prefix_len())),
        Ok(ipnet::IpNet::V6(n)) => Some((Family::V6, u128::from(n.addr()), n.prefix_len())),
        Err(_) => None,
    }
}

/// A text that is not a CIDR block.
#[derive(Clone, Copy, Debug, PartialEq, Eq, Structural)]
pub struct InvalidCidr;

impl Block {
    /// The block in CIDR notation, `address/prefix_len`.
    pub open spec fn text(self) -> Seq<char> {
        match self.family {
            Family::V4 => ipv4_net_text(self.addr as u32, self.prefix_len as u8),
            Family::V6 => ipv6_net_text(self.addr as u128, self.prefix_len as u8),
        }
    }

    /// The block that a text in CIDR notation stands for, if it stands for one.
    pub open spec fn read(text: Seq<char>) -> Option<Block> {
        match parsed_net(text) {
            Some((family, addr, prefix_len)) => {
                let b = Block { family, addr: addr as nat, prefix_len: prefix_len as nat };
                if b.wf() {
                    Some(b)
                } else {
                    None
                }
            },
            None => None,
        }
    }

    /// Writing the block down and reading the text gives the block back.
    pub open spec fn reads_back(self) -> bool {
        Block::read(self.text()) == Some(self)
    }
}

impl Cidr {
    /// The block in CIDR notation.
    pub fn to_text(&self) -> (text: String)
        ensures
            text@ == self@.text(),
    {
        proof {
            use_type_invariant(self);
            lemma_pow2_widths();
        }
        match self.family {
            Family::V4 => ipv4_net_to_string(self.addr as u32, self.prefix_len),
            Family::V6 => ipv6_net_to_string(self.addr, self.prefix_len),
        }
    }

    /// Reads a block in CIDR notation.
    pub fn parse(text: &str) -> (r: Option<Cidr>)
        ensures
            match r {
                Some(c) => Block::read(text@) == Some(c@),
                None => Block::read(text@) is None,
            },
    {
        match parse_net(text) {
            Some((family, addr, prefix_len)) => Cidr::new(family, addr, prefix_len),
            None => None,
        }
    }

    /// Whether the block's text reads back as the block.
    pub fn reads_back(&self) -> (r: bool)
        ensures
            r == self@.reads_back(),
    {
        let text = self.to_text();
        match Cidr::parse(text.as_str()) {
            Some(c) => c.family == self.family && c.addr == self.addr && c.prefix_len
                == self.prefix_len,
            None => false,
        }
    }
}

impl std::str::FromStr for Cidr {
    type Err = InvalidCidr;

    fn from_str(text: &str) -> (r: Result<Cidr, InvalidCidr>)
        ensures
            match r {
                Ok(c) => Block::read(text@) == Some(c@),
                Err(_) => Block::read(text@) is None,
            },
    {
        match Cidr::parse(text) {
            Some(c) => Ok(c),
            None => Err(InvalidCidr),
        }
    }
}

} // verus!
