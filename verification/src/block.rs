//! Hash-sealed batches of transactions.
//!
//! A block commits to its predecessor's hash, its creation time, a nonce
//! and the ordered transaction records through one digest over a
//! byte-exact payload; `block_payload` pins that payload down.

use crate::clock::get_time;
use crate::digits::dec_str;
use crate::digits::u64_to_string;
use crate::hashing::is_lower_hex_char;
use crate::hashing::sha256_hex;
use crate::hashing::sha256_hex_of;
use crate::transaction::transaction_data;
use crate::transaction::Transaction;
use vstd::prelude::*;
use vstd::string::StringExecFns;

verus! {

/// A sealed batch: the stored hash, the predecessor's hash (`"0"` for a
/// genesis block), the transactions in order, the creation time and the
/// proof-of-work placeholder nonce.
#[derive(Debug)]
pub struct Block {
    pub block_hash: String,
    pub previous_block_hash: String,
    pub transaction: Vec<Transaction>,
    pub time_stamp: u32,
    pub nonce: u32,
}

/// One transaction's contribution to a block's payload: the same four
/// fields, in the same order, as its signable payload.
pub open spec fn transaction_record(t: Transaction) -> Seq<char> {
    transaction_data(t.sender_address@, t.receiver_address@, t.amount, t.timestamp)
}

/// The transactions' records in block order, joined with single commas;
/// empty for an empty batch.
pub open spec fn joined_records(txs: Seq<Transaction>) -> Seq<char>
    decreases txs.len(),
{
    if txs.len() == 0 {
        Seq::empty()
    } else if txs.len() == 1 {
        transaction_record(txs[0])
    } else {
        joined_records(txs.drop_last()) + seq![','] + transaction_record(txs.last())
    }
}

/// The byte-exact payload a block's hash is taken over: previous hash,
/// decimal timestamp, decimal nonce, then the joined records, with no
/// separators between the four parts.
pub open spec fn block_payload(
    previous_hash: Seq<char>,
    time_stamp: u32,
    nonce: u32,
    txs: Seq<Transaction>,
) -> Seq<char> {
    previous_hash + dec_str(time_stamp as nat) + dec_str(nonce as nat) + joined_records(txs)
}

/// The hash a block with these fields must carry.
pub open spec fn block_digest(
    previous_hash: Seq<char>,
    time_stamp: u32,
    nonce: u32,
    txs: Seq<Transaction>,
) -> Seq<char> {
    sha256_hex(block_payload(previous_hash, time_stamp, nonce, txs))
}

/// The stored hash equals the hash recomputed from the block's own
/// fields — the single source of tamper evidence.
pub open spec fn block_well_formed(b: Block) -> bool {
    b.block_hash@ == block_digest(b.previous_block_hash@, b.time_stamp, b.nonce, b.transaction@)
}

impl Block {
    /// Seals a batch: stamps the current time, fixes the nonce at zero,
    /// and stores the hash computed from the block's own fields, so the
    /// new block is well formed by construction.
    pub fn new(transaction: Vec<Transaction>, previous_block_hash: String) -> (b: Block)
        ensures
            b.previous_block_hash == previous_block_hash,
            b.transaction@ == transaction@,
            b.nonce == 0,
            block_well_formed(b),
    {
        let time_stamp = get_time();
        let nonce: u32 = 0;
        let block_hash = Block::hash(previous_block_hash.as_str(), time_stamp, nonce, &transaction);
        Block { block_hash, previous_block_hash, transaction, time_stamp, nonce }
    }

    /// The digest over the payload assembled from the given fields,
    /// rendered as 64 lowercase hexadecimal characters.
    pub fn hash(
        previous_hash: &str,
        time_stamp: u32,
        nonce: u32,
        transaction: &Vec<Transaction>,
    ) -> (r: String)
        ensures
            r@ == block_digest(previous_hash@, time_stamp, nonce, transaction@),
            r@.len() == 64,
            forall|i: int| 0 <= i < r@.len() ==> is_lower_hex_char(#[trigger] r@[i]),
    {
        proof {
            reveal_strlit(",");
        }
        let mut transaction_str = String::new();
        let n: usize = transaction.len();
        let mut i: usize = 0;
        while i < n
            invariant
                i <= n,
                n == transaction@.len(),
                transaction_str@ == joined_records(transaction@.take(i as int)),
            decreases n - i,
        {
            if i > 0 {
                transaction_str.append(",");
            }
            let t = &transaction[i];
            transaction_str.append(t.sender_address.as_str());
            transaction_str.append(t.receiver_address.as_str());
            let amount_text = u64_to_string(t.amount);
            transaction_str.append(amount_text.as_str());
            let time_text = u64_to_string(t.timestamp as u64);
            transaction_str.append(time_text.as_str());
            proof {
                reveal_strlit(",");
                let taken = transaction@.take(i + 1 as int);
                assert(taken.drop_last() =~= transaction@.take(i as int));
                assert(taken.last() == transaction@[i as int]);
                assert(","@ =~= seq![',']);
                assert(transaction_str@ =~= joined_records(taken));
            }
            i = i + 1;
        }
        proof {
            assert(transaction@.take(n as int) =~= transaction@);
        }
        let mut data_to_hash = String::from_str(previous_hash);
        let time_text = u64_to_string(time_stamp as u64);
        data_to_hash.append(time_text.as_str());
        let nonce_text = u64_to_string(nonce as u64);
        data_to_hash.append(nonce_text.as_str());
        data_to_hash.append(transaction_str.as_str());
        proof {
            assert(data_to_hash@ =~= block_payload(
                previous_hash@,
                time_stamp,
                nonce,
                transaction@,
            ));
        }
        sha256_hex_of(data_to_hash.as_str())
    }

    /// Recomputes the hash from this block's stored fields; comparing it
    /// with `block_hash` is the tamper check.
    pub fn calculate_hash(&self) -> (r: String)
        ensures
            r@ == block_digest(
                self.previous_block_hash@,
                self.time_stamp,
                self.nonce,
                self.transaction@,
            ),
            r@.len() == 64,
            forall|i: int| 0 <= i < r@.len() ==> is_lower_hex_char(#[trigger] r@[i]),
    {
        Block::hash(self.previous_block_hash.as_str(), self.time_stamp, self.nonce, &self.transaction)
    }
}

} // verus!
