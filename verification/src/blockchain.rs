//! The chain: an ordered sequence of blocks from a genesis anchor.

use crate::block::block_digest;
use crate::block::block_well_formed;
use crate::block::Block;
use crate::transaction::Transaction;
use vstd::prelude::*;
use vstd::string::StringExecFns;

verus! {

/// An append-only chain of blocks. Index 0 is the genesis block; the
/// difficulty is configuration reserved for proof-of-work and drives no
/// operation here.
#[derive(Debug)]
pub struct Blockchain {
    pub chain: Vec<Block>,
    pub difficulty: u32,
}

/// Chain-wide validity: the chain is non-empty, its genesis block is
/// anchored at the sentinel previous-hash `"0"`, every block's stored
/// hash equals the hash recomputed from its own fields, and every block
/// after the first names its predecessor's hash.
pub open spec fn chain_valid(blocks: Seq<Block>) -> bool {
    &&& blocks.len() > 0
    &&& blocks[0].previous_block_hash@ == "0"@
    &&& forall|i: int|
        0 <= i < blocks.len() ==> block_well_formed(#[trigger] blocks[i])
    &&& forall|i: int|
        1 <= i < blocks.len() ==> (#[trigger] blocks[i]).previous_block_hash@ == blocks[i
            - 1].block_hash@
}

/// Appending a well-formed block that names the tip's hash keeps a valid
/// chain valid.
pub proof fn lemma_chain_valid_push(blocks: Seq<Block>, b: Block)
    requires
        chain_valid(blocks),
        block_well_formed(b),
        b.previous_block_hash@ == blocks.last().block_hash@,
    ensures
        chain_valid(blocks.push(b)),
{
    let grown = blocks.push(b);
    assert(grown[0] == blocks[0]);
    assert forall|i: int| 0 <= i < grown.len() implies block_well_formed(#[trigger] grown[i]) by {
        if i < blocks.len() {
            assert(grown[i] == blocks[i]);
        } else {
            assert(grown[i] == b);
        }
    }
    assert forall|i: int|
        1 <= i < grown.len() implies (#[trigger] grown[i]).previous_block_hash@ == grown[i
        - 1].block_hash@ by {
        if i < blocks.len() {
            assert(grown[i] == blocks[i]);
            assert(grown[i - 1] == blocks[i - 1]);
        } else {
            assert(grown[i] == b);
            assert(grown[i - 1] == blocks.last());
        }
    }
}

/// Rewriting the back link of a block after the genesis block — to
/// anything other than the link it held — leaves the chain invalid: the
/// link no longer names the predecessor's hash.
pub proof fn lemma_tampered_link_invalid(blocks: Seq<Block>, i: int, b: Block)
    requires
        chain_valid(blocks),
        1 <= i < blocks.len(),
        b.previous_block_hash@ != blocks[i].previous_block_hash@,
    ensures
        !chain_valid(blocks.update(i, b)),
{
    let tampered = blocks.update(i, b);
    assert(tampered[i - 1] == blocks[i - 1]);
    assert(blocks[i].previous_block_hash@ == blocks[i - 1].block_hash@);
    assert(tampered[i].previous_block_hash@ != tampered[i - 1].block_hash@);
}

/// Replacing a stored block hash with any other string leaves the chain
/// invalid: the rest of the block still hashes to the original digest,
/// so the stored hash no longer matches the recomputation.
pub proof fn lemma_tampered_hash_invalid(blocks: Seq<Block>, i: int, b: Block)
    requires
        chain_valid(blocks),
        0 <= i < blocks.len(),
        b.previous_block_hash@ == blocks[i].previous_block_hash@,
        b.time_stamp == blocks[i].time_stamp,
        b.nonce == blocks[i].nonce,
        b.transaction@ == blocks[i].transaction@,
        b.block_hash@ != blocks[i].block_hash@,
    ensures
        !chain_valid(blocks.update(i, b)),
{
    let tampered = blocks.update(i, b);
    assert(block_well_formed(blocks[i]));
    assert(block_digest(b.previous_block_hash@, b.time_stamp, b.nonce, b.transaction@)
        == block_digest(
        blocks[i].previous_block_hash@,
        blocks[i].time_stamp,
        blocks[i].nonce,
        blocks[i].transaction@,
    ));
    assert(!block_well_formed(tampered[i]));
}

impl Blockchain {
    /// Starts a chain with a genesis block: no transactions, previous
    /// hash `"0"`, and the default difficulty of 3.
    pub fn new() -> (c: Blockchain)
        ensures
            c.chain@.len() == 1,
            c.chain@[0].transaction@.len() == 0,
            c.chain@[0].previous_block_hash@ == "0"@,
            c.chain@[0].nonce == 0,
            c.difficulty == 3,
            chain_valid(c.chain@),
    {
        let genesis = Block::new(Vec::new(), String::from_str("0"));
        Blockchain { chain: vec![genesis], difficulty: 3 }
    }

    /// The last block of the chain; the precondition rules out the empty
    /// chain, which no public operation can produce.
    pub fn get_latest_block(&self) -> (b: &Block)
        requires
            self.chain@.len() > 0,
        ensures
            *b == self.chain@.last(),
    {
        &self.chain[self.chain.len() - 1]
    }

    /// The hash of the last block.
    pub fn get_latest_hash(&self) -> (h: String)
        requires
            self.chain@.len() > 0,
        ensures
            h == self.chain@.last().block_hash,
    {
        self.get_latest_block().block_hash.clone()
    }

    /// Seals the transactions into a new block linked to the tip and
    /// appends it. The earlier blocks stay as they are, and a valid
    /// chain stays valid.
    pub fn add_block(&mut self, transactions: Vec<Transaction>)
        requires
            old(self).chain@.len() > 0,
        ensures
            final(self).chain@.len() == old(self).chain@.len() + 1,
            final(self).chain@.take(old(self).chain@.len() as int) == old(self).chain@,
            ({
                let b = final(self).chain@.last();
                &&& b.transaction@ == transactions@
                &&& b.previous_block_hash@ == old(self).chain@.last().block_hash@
                &&& b.nonce == 0
                &&& block_well_formed(b)
            }),
            final(self).difficulty == old(self).difficulty,
            chain_valid(old(self).chain@) ==> chain_valid(final(self).chain@),
    {
        let previous_hash = self.get_latest_hash();
        let new_block = Block::new(transactions, previous_hash);
        proof {
            if chain_valid(self.chain@) {
                lemma_chain_valid_push(self.chain@, new_block);
            }
        }
        self.chain.push(new_block);
        proof {
            assert(final(self).chain@.take(old(self).chain@.len() as int) =~= old(self).chain@);
        }
    }

    /// The full linear tamper check: re-derives every block's hash and
    /// re-checks every link and the genesis anchor, and returns whether
    /// the whole chain is valid.
    pub fn is_valid(&self) -> (r: bool)
        ensures
            r == chain_valid(self.chain@),
    {
        if self.chain.len() == 0 {
            return false;
        }
        let genesis = &self.chain[0];
        let zero = String::from_str("0");
        if !(genesis.previous_block_hash == zero) {
            return false;
        }
        let genesis_hash = genesis.calculate_hash();
        if !(genesis.block_hash == genesis_hash) {
            proof {
                assert(!block_well_formed(self.chain@[0]));
            }
            return false;
        }
        let mut i: usize = 1;
        while i < self.chain.len()
            invariant
                1 <= i <= self.chain@.len(),
                self.chain@[0].previous_block_hash@ == "0"@,
                forall|j: int| 0 <= j < i ==> block_well_formed(#[trigger] self.chain@[j]),
                forall|j: int|
                    1 <= j < i ==> (#[trigger] self.chain@[j]).previous_block_hash@ == self.chain@[j
                        - 1].block_hash@,
            decreases self.chain@.len() - i,
        {
            let current = &self.chain[i];
            let current_hash = current.calculate_hash();
            if !(current.block_hash == current_hash) {
                proof {
                    assert(!block_well_formed(self.chain@[i as int]));
                }
                return false;
            }
            let previous = &self.chain[i - 1];
            if !(current.previous_block_hash == previous.block_hash) {
                return false;
            }
            i = i + 1;
        }
        true
    }
}

} // verus!
