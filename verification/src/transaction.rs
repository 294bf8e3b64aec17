//! Immutable signed transfer records between two entities.

use crate::clock::get_time;
use crate::digits::dec_str;
use crate::digits::u64_to_string;
use crate::entity::Entity;
use crate::entity::InsufficientBalance;
use crate::hashing::sha256_hex;
use vstd::prelude::*;
use vstd::string::StringExecFns;

verus! {

/// A transfer record. It stores the two entities' addresses, not the
/// entities themselves, together with the amount, the creation time and
/// the sender's signature over the other four fields.
#[derive(Debug)]
pub struct Transaction {
    pub sender_address: String,
    pub receiver_address: String,
    pub amount: u64,
    pub timestamp: u32,
    pub signature: String,
}

/// The signable payload of a transfer: sender address, receiver address,
/// decimal amount and decimal timestamp, concatenated in that order with
/// no separators.
pub open spec fn transaction_data(
    sender_address: Seq<char>,
    receiver_address: Seq<char>,
    amount: u64,
    timestamp: u32,
) -> Seq<char> {
    sender_address + receiver_address + dec_str(amount as nat) + dec_str(timestamp as nat)
}

/// The record carries the signature that `private_key` produces over its
/// own payload.
pub open spec fn signed_with(t: Transaction, private_key: Seq<char>) -> bool {
    t.signature@ == sha256_hex(
        transaction_data(t.sender_address@, t.receiver_address@, t.amount, t.timestamp)
            + private_key,
    )
}

impl Transaction {
    /// Builds a record from its parts, exactly as given.
    fn new(
        sender_address: String,
        receiver_address: String,
        amount_tx: u64,
        signature: String,
        time_stamp: u32,
    ) -> (t: Transaction)
        ensures
            t.sender_address == sender_address,
            t.receiver_address == receiver_address,
            t.amount == amount_tx,
            t.timestamp == time_stamp,
            t.signature == signature,
    {
        Transaction {
            sender_address,
            receiver_address,
            amount: amount_tx,
            timestamp: time_stamp,
            signature,
        }
    }

    /// A field-for-field copy of this record.
    pub fn duplicate(&self) -> (t: Transaction)
        ensures
            t == *self,
    {
        Transaction {
            sender_address: self.sender_address.clone(),
            receiver_address: self.receiver_address.clone(),
            amount: self.amount,
            timestamp: self.timestamp,
            signature: self.signature.clone(),
        }
    }

    /// Builds a record for the transfer, timestamped now and signed by
    /// the sender over the payload that `transaction_data` describes.
    fn create_and_sign(sender: &Entity, receiver: &Entity, amount_tx: u64) -> (t: Transaction)
        ensures
            t.sender_address == sender.address,
            t.receiver_address == receiver.address,
            t.amount == amount_tx,
            signed_with(t, sender.private_key@),
    {
        let time_stamp = get_time();
        let mut data = String::from_str(sender.address.as_str());
        data.append(receiver.address.as_str());
        let amount_text = u64_to_string(amount_tx);
        data.append(amount_text.as_str());
        let time_text = u64_to_string(time_stamp as u64);
        data.append(time_text.as_str());
        let signature = sender.sign(data.as_str());
        Transaction::new(
            sender.address.clone(),
            receiver.address.clone(),
            amount_tx,
            signature,
            time_stamp,
        )
    }

    /// Creates, signs and applies a transfer in one step.
    ///
    /// If the sender's balance does not cover `amount`, the error carries
    /// that balance and the amount, and neither entity changes. Otherwise
    /// the sender is debited, the receiver credited, both histories gain
    /// a copy of the returned record, and nothing else of either entity
    /// changes. The bound on the receiver's balance keeps the credit
    /// within its 64-bit representation; it is asked only where the
    /// transfer goes through and the credit happens.
    pub fn create_and_execute(
        sender: &mut Entity,
        receiver: &mut Entity,
        amount: u64,
    ) -> (r: Result<Transaction, InsufficientBalance>)
        requires
            old(sender).balance >= amount ==> old(receiver).balance + amount <= u64::MAX,
        ensures
            old(sender).balance < amount ==> ({
                &&& r matches Err(e) && e.have == old(sender).balance && e.need == amount
                &&& *final(sender) == *old(sender)
                &&& *final(receiver) == *old(receiver)
            }),
            old(sender).balance >= amount ==> (r matches Ok(t) && ({
                &&& t.sender_address == old(sender).address
                &&& t.receiver_address == old(receiver).address
                &&& t.amount == amount
                &&& signed_with(t, old(sender).private_key@)
                &&& final(sender).balance == old(sender).balance - amount
                &&& final(receiver).balance == old(receiver).balance + amount
                &&& final(sender).history@ == old(sender).history@.push(t)
                &&& final(receiver).history@ == old(receiver).history@.push(t)
                &&& final(sender).address == old(sender).address
                &&& final(receiver).address == old(receiver).address
                &&& final(sender).public_key == old(sender).public_key
                &&& final(sender).private_key == old(sender).private_key
                &&& final(receiver).public_key == old(receiver).public_key
                &&& final(receiver).private_key == old(receiver).private_key
            })),
    {
        if !sender.can_send(amount) {
            return Err(InsufficientBalance { have: sender.balance, need: amount });
        }
        let transaction = Transaction::create_and_sign(sender, receiver, amount);
        match sender.send_amount(amount) {
            Ok(u) => u,
            Err(e) => {
                return Err(e);
            },
        }
        receiver.receive_amount(amount);
        sender.add_to_history(transaction.duplicate());
        receiver.add_to_history(transaction.duplicate());
        Ok(transaction)
    }
}

} // verus!
