//! Named accounts: balance, key material, and transaction history.

use crate::hashing::is_lower_hex_char;
use crate::hashing::sha256_hex;
use crate::hashing::sha256_hex_of;
use crate::transaction::Transaction;
use vstd::prelude::*;
use vstd::string::StringExecFns;

verus! {

/// A spend was attempted against a balance below the requested amount;
/// `have` is the balance at the attempt, `need` the amount asked for.
#[derive(Debug)]
pub struct InsufficientBalance {
    pub have: u64,
    pub need: u64,
}

/// A participant in the ledger: an address, a balance, the transactions
/// it took part in, and the key strings it signs with.
///
/// Balances and amounts are whole units held in `u64`, so the decimal
/// text that hashing and signing commit to is canonical.
#[derive(Debug)]
pub struct Entity {
    pub address: String,
    pub balance: u64,
    pub history: Vec<Transaction>,
    pub public_key: String,
    pub private_key: String,
}

impl Entity {
    /// Builds an entity from its parts, exactly as given.
    pub fn new(
        address: String,
        balance: u64,
        history: Vec<Transaction>,
        public_key: String,
        private_key: String,
    ) -> (e: Entity)
        ensures
            e.address == address,
            e.balance == balance,
            e.history == history,
            e.public_key == public_key,
            e.private_key == private_key,
    {
        Entity { address, balance, history, public_key, private_key }
    }

    /// The current balance.
    pub fn get_balance(&self) -> (b: u64)
        ensures
            b == self.balance,
    {
        self.balance
    }

    /// Whether the balance covers `amount`.
    pub fn can_send(&self, amount: u64) -> (r: bool)
        ensures
            r == (self.balance >= amount),
    {
        self.balance >= amount
    }

    /// Deducts `amount` if and only if the balance covers it; on failure
    /// the entity is left untouched and the error carries the balance it
    /// had and the amount it needed.
    pub fn send_amount(&mut self, amount: u64) -> (r: Result<(), InsufficientBalance>)
        ensures
            old(self).balance >= amount ==> r is Ok && final(self).balance == old(self).balance
                - amount,
            old(self).balance < amount ==> (r matches Err(e) && e.have == old(self).balance
                && e.need == amount) && final(self).balance == old(self).balance,
            final(self).address == old(self).address,
            final(self).history == old(self).history,
            final(self).public_key == old(self).public_key,
            final(self).private_key == old(self).private_key,
    {
        if !self.can_send(amount) {
            return Err(InsufficientBalance { have: self.balance, need: amount });
        }
        self.balance = self.balance - amount;
        Ok(())
    }

    /// Adds `amount` to the balance unconditionally; the bound keeps the
    /// balance within its 64-bit representation.
    pub fn receive_amount(&mut self, amount: u64)
        requires
            old(self).balance + amount <= u64::MAX,
        ensures
            final(self).balance == old(self).balance + amount,
            final(self).address == old(self).address,
            final(self).history == old(self).history,
            final(self).public_key == old(self).public_key,
            final(self).private_key == old(self).private_key,
    {
        self.balance = self.balance + amount;
    }

    /// Appends one transaction to the history; nothing else changes.
    pub fn add_to_history(&mut self, transaction: Transaction)
        ensures
            final(self).history@ == old(self).history@.push(transaction),
            final(self).balance == old(self).balance,
            final(self).address == old(self).address,
            final(self).public_key == old(self).public_key,
            final(self).private_key == old(self).private_key,
    {
        self.history.push(transaction);
    }

    /// Signs `transaction_data`: the hash commitment over the data
    /// followed by this entity's private key string, rendered as 64
    /// lowercase hexadecimal characters.
    pub fn sign(&self, transaction_data: &str) -> (r: String)
        ensures
            r@ == sha256_hex(transaction_data@ + self.private_key@),
            r@.len() == 64,
            forall|i: int| 0 <= i < r@.len() ==> is_lower_hex_char(#[trigger] r@[i]),
    {
        let mut data_to_sign = String::from_str(transaction_data);
        data_to_sign.append(self.private_key.as_str());
        sha256_hex_of(data_to_sign.as_str())
    }
}

} // verus!
