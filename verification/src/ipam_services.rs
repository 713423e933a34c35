//! Subnetting: a block split into equal blocks of a finer prefix length.

use crate::net::{
    blocks_of, lemma_block_bounds, lemma_children_fill_block, lemma_pow2_widths, pow2_u128, Block,
    Cidr,
};
use vstd::arithmetic::power2::*;
use vstd::prelude::*;
use vstd::string::StringExecFns;

verus! {

/// The blocks of prefix length `prefix` that `ipnet` splits into, in ascending
/// address order; `None` where `prefix` is not strictly finer than the block's
/// own prefix length or exceeds the width of its family.
pub fn child_blocks(ipnet: &Cidr, prefix: u8) -> (r: Option<Vec<Cidr>>)
    ensures
        match r {
            Some(blocks) => ipnet@.splits_into(prefix as nat) && blocks_of(blocks@)
                == ipnet@.children(prefix as nat),
            None => !ipnet@.splits_into(prefix as nat),
        },
{
    proof {
        use_type_invariant(ipnet);
        lemma_block_bounds(ipnet@);
        lemma_pow2_widths();
    }
    let width = ipnet.max_prefix_len();
    if prefix <= ipnet.prefix_len() || prefix > width {
        return None;
    }
    let step = pow2_u128(width - prefix);
    let network = ipnet.network();
    let broadcast = ipnet.broadcast();
    let ghost count = ipnet@.child_count(prefix as nat) as int;
    proof {
        lemma_children_fill_block(ipnet@, prefix as nat);
        assert(step as int <= count * step) by (nonlinear_arith)
            requires
                count >= 1,
                step >= 0,
        ;
    }
    let mut blocks: Vec<Cidr> = Vec::new();
    let mut base = network;
    let ghost mut k: int = 0;
    loop
        invariant_except_break
            blocks@.len() == k,
        invariant
            0 <= k < count,
            step >= 1,
            step == ipnet@.child_size(prefix as nat),
            count == ipnet@.child_count(prefix as nat),
            ipnet@.size() == count * step,
            ipnet@.size() >= 1,
            network == ipnet@.network(),
            broadcast == ipnet@.broadcast(),
            broadcast < pow2(ipnet@.family.bits()),
            prefix <= ipnet@.family.bits(),
            base == network + k * step,
            base + step - 1 <= broadcast,
            forall|i: int|
                0 <= i < blocks@.len() ==> (#[trigger] blocks@[i])@ == ipnet@.child(
                    prefix as nat,
                    i,
                ),
        ensures
            blocks@.len() == count,
            forall|i: int|
                0 <= i < blocks@.len() ==> (#[trigger] blocks@[i])@ == ipnet@.child(
                    prefix as nat,
                    i,
                ),
        decreases broadcast - base,
    {
        blocks.push(ipnet.sibling(base, prefix));
        proof {
            assert((k + 1) * step == k * step + step) by (nonlinear_arith);
        }
        if broadcast - base == step - 1 {
            proof {
                assert(k + 1 == count) by (nonlinear_arith)
                    requires
                        (k + 1) * step == count * step,
                        step >= 1,
                ;
            }
            break;
        }
        proof {
            assert(k + 2 <= count) by (nonlinear_arith)
                requires
                    (k + 1) * step < count * step,
                    step >= 1,
            ;
            assert((k + 2) * step <= count * step) by (nonlinear_arith)
                requires
                    k + 2 <= count,
                    step >= 1,
            ;
            assert((k + 2) * step == k * step + step + step) by (nonlinear_arith);
        }
        base = base + step;
        proof {
            k = k + 1;
        }
    }
    proof {
        assert(blocks_of(blocks@) =~= ipnet@.children(prefix as nat));
    }
    Some(blocks)
}

/// Why a block could not be split; the text names the offending block.
#[derive(Debug)]
pub struct SubnettingError(pub String);

impl SubnettingError {
    /// What the error says of itself, whatever block it names.
    pub fn to_string(&self) -> (text: String)
        ensures
            text@ == "Subnneting can't create"@,
    {
        "Subnneting can't create".to_owned()
    }
}

/// What is said of a block that was to be split at a prefix length that is not
/// strictly finer than its own, or not one of its family.
pub open spec fn not_finer_message(parent: Block) -> Seq<char> {
    "no finer subnet at this prefix length in network "@ + parent.text()
}

/// What is said of a computed block whose text does not read back as the block.
pub open spec fn unreadable_message(child: Block) -> Seq<char> {
    "invalid IP address syntax: "@ + child.text()
}

/// The `k`-th child is the first whose text does not read back as the child.
pub open spec fn first_unreadable(parent: Block, prefix_len: nat, k: int) -> bool {
    &&& 0 <= k < parent.child_count(prefix_len)
    &&& !parent.child(prefix_len, k).reads_back()
    &&& forall|j: int| 0 <= j < k ==> (#[trigger] parent.child(prefix_len, j)).reads_back()
}

/// Splits `ipnet` into the blocks of prefix length `prefix`, in ascending
/// address order. Each block is written down in CIDR notation and read back
/// before it is handed out.
///
/// Fails where `prefix` is not strictly finer than the block's own prefix
/// length or exceeds the width of its family, and where the text of a computed
/// block does not read back as that block.
pub fn subnetting(ipnet: Cidr, prefix: u8) -> (r: Result<Vec<Cidr>, SubnettingError>)
    ensures
        match r {
            Ok(blocks) => {
                &&& ipnet@.splits_into(prefix as nat)
                &&& blocks_of(blocks@) == ipnet@.children(prefix as nat)
                &&& forall|k: int|
                    0 <= k < blocks@.len() ==> (#[trigger] blocks@[k])@.reads_back()
            },
            Err(e) => if ipnet@.splits_into(prefix as nat) {
                exists|k: int|
                    first_unreadable(ipnet@, prefix as nat, k) && e.0@ == unreadable_message(
                        #[trigger] ipnet@.child(prefix as nat, k),
                    )
            } else {
                e.0@ == not_finer_message(ipnet@)
            },
        },
{
    match child_blocks(&ipnet, prefix) {
        None => {
            let text = ipnet.to_text();
            Err(
                SubnettingError(
                    "no finer subnet at this prefix length in network ".to_owned().concat(
                        text.as_str(),
                    ),
                ),
            )
        },
        Some(blocks) => {
            let mut k: usize = 0;
            while k < blocks.len()
                invariant
                    k <= blocks@.len(),
                    ipnet@.splits_into(prefix as nat),
                    blocks_of(blocks@) == ipnet@.children(prefix as nat),
                    forall|j: int| 0 <= j < k ==> (#[trigger] blocks@[j])@.reads_back(),
                decreases blocks@.len() - k,
            {
                proof {
                    let children = ipnet@.children(prefix as nat);
                    assert(blocks_of(blocks@).len() == blocks@.len());
                    assert(children.len() == ipnet@.child_count(prefix as nat));
                    assert(blocks@[k as int]@ == blocks_of(blocks@)[k as int]);
                    assert(children[k as int] == ipnet@.child(prefix as nat, k as int));
                }
                if !blocks[k].reads_back() {
                    let text = blocks[k].to_text();
                    proof {
                        let children = ipnet@.children(prefix as nat);
                        assert forall|j: int| 0 <= j < k implies (#[trigger] ipnet@.child(
                            prefix as nat,
                            j,
                        )).reads_back() by {
                            assert(blocks@[j]@ == blocks_of(blocks@)[j]);
                            assert(children[j] == ipnet@.child(prefix as nat, j));
                        }
                        assert(first_unreadable(ipnet@, prefix as nat, k as int));
                    }
                    let message = "invalid IP address syntax: ".to_owned().concat(text.as_str());
                    proof {
                        let child = ipnet@.child(prefix as nat, k as int);
                        assert(message@ == unreadable_message(child));
                    }
                    return Err(SubnettingError(message));
                }
                k = k + 1;
            }
            Ok(blocks)
        },
    }
}

/// Whether a host answered when it was probed.
#[derive(Debug, Clone, Copy, PartialEq, Eq, Structural, PartialOrd)]
pub enum Ping {
    Pong,
    Fail,
}

impl Ping {
    /// The word for the outcome.
    pub open spec fn name(self) -> Seq<char> {
        match self {
            Ping::Pong => "Pong"@,
            Ping::Fail => "Fail"@,
        }
    }

    /// The word for the outcome.
    pub fn to_string(&self) -> (text: String)
        ensures
            text@ == self.name(),
    {
        match self {
            Ping::Pong => "Pong".to_owned(),
            Ping::Fail => "Fail".to_owned(),
        }
    }

    /// The outcome of a probe that ended with the exit code `code`; `None`
    /// stands for a probe that could not be run or ended without a code. Only
    /// the code zero is an answer.
    pub fn from_exit_code(code: Option<i32>) -> (r: Ping)
        ensures
            r == if code == Some(0i32) {
                Ping::Pong
            } else {
                Ping::Fail
            },
    {
        match code {
            Some(0) => Ping::Pong,
            _ => Ping::Fail,
        }
    }
}

} // verus!
