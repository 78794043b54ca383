//! Full transaction records and their light form.
use vstd::prelude::*;

use crate::primitives::{Address, H256, U256};

verus! {

/// A transaction as a chain node reports it.
#[derive(Clone, Debug, Default, PartialEq)]
pub struct Transaction {
    pub hash: H256,
    pub nonce: U256,
    pub block_hash: Option<H256>,
    pub block_number: Option<u64>,
    /// Index within the block; `None` while pending.
    pub transaction_index: Option<u64>,
    pub from: Option<Address>,
    /// Recipient; `None` for a contract creation.
    pub to: Option<Address>,
    pub value: U256,
    pub gas_price: Option<U256>,
    pub gas: U256,
    pub input: Vec<u8>,
    pub v: Option<u64>,
    pub r: Option<U256>,
    pub s: Option<U256>,
    pub raw: Option<Vec<u8>>,
    pub transaction_type: Option<u64>,
    pub max_fee_per_gas: Option<U256>,
    pub max_priority_fee_per_gas: Option<U256>,
}

/// The canonical transaction record kept downstream.
#[derive(Clone, Debug, Default, PartialEq)]
pub struct LightTransaction {
    pub hash: H256,
    pub nonce: U256,
    /// Index within the block; `None` while pending.
    pub transaction_index: Option<u64>,
    pub from: Option<Address>,
    /// Recipient; `None` for a contract creation.
    pub to: Option<Address>,
    pub value: U256,
    pub gas_price: Option<U256>,
    pub gas: U256,
    pub input: Vec<u8>,
}

/// The value of a `LightTransaction`, with its input as a sequence.
pub struct LightTransactionView {
    pub hash: H256,
    pub nonce: U256,
    pub transaction_index: Option<u64>,
    pub from: Option<Address>,
    pub to: Option<Address>,
    pub value: U256,
    pub gas_price: Option<U256>,
    pub gas: U256,
    pub input: Seq<u8>,
}

impl View for LightTransaction {
    type V = LightTransactionView;

    open spec fn view(&self) -> LightTransactionView {
        LightTransactionView {
            hash: self.hash,
            nonce: self.nonce,
            transaction_index: self.transaction_index,
            from: self.from,
            to: self.to,
            value: self.value,
            gas_price: self.gas_price,
            gas: self.gas,
            input: self.input@,
        }
    }
}

impl Transaction {
    /// The light record of this transaction: its own fields, the others dropped.
    pub open spec fn light(self) -> LightTransactionView {
        LightTransactionView {
            hash: self.hash,
            nonce: self.nonce,
            transaction_index: self.transaction_index,
            from: self.from,
            to: self.to,
            value: self.value,
            gas_price: self.gas_price,
            gas: self.gas,
            input: self.input@,
        }
    }
}

/// A copy of a byte string.
pub fn copy_bytes(b: &Vec<u8>) -> (r: Vec<u8>)
    ensures
        r@ == b@,
{
    let mut r: Vec<u8> = Vec::with_capacity(b.len());
    let mut i: usize = 0;
    while i < b.len()
        invariant
            i <= b@.len(),
            r@ == b@.subrange(0, i as int),
        decreases b@.len() - i,
    {
        r.push(b[i]);
        i = i + 1;
    }
    assert(r@ =~= b@);
    r
}

impl From<Transaction> for LightTransaction {
    fn from(tx: Transaction) -> (r: LightTransaction)
        ensures
            r@ == tx.light(),
    {
        LightTransaction {
            hash: tx.hash,
            nonce: tx.nonce,
            transaction_index: tx.transaction_index,
            from: tx.from,
            to: tx.to,
            value: tx.value,
            gas_price: tx.gas_price,
            gas: tx.gas,
            input: tx.input,
        }
    }
}

impl vstd::std_specs::convert::FromSpecImpl<Transaction> for LightTransaction {
    open spec fn obeys_from_spec() -> bool {
        true
    }

    open spec fn from_spec(tx: Transaction) -> LightTransaction {
        LightTransaction {
            hash: tx.hash,
            nonce: tx.nonce,
            transaction_index: tx.transaction_index,
            from: tx.from,
            to: tx.to,
            value: tx.value,
            gas_price: tx.gas_price,
            gas: tx.gas,
            input: tx.input,
        }
    }
}

impl<'a> From<&'a Transaction> for LightTransaction {
    fn from(tx: &'a Transaction) -> (r: LightTransaction)
        ensures
            r@ == tx.light(),
    {
        LightTransaction {
            hash: tx.hash,
            nonce: tx.nonce,
            transaction_index: tx.transaction_index,
            from: tx.from,
            to: tx.to,
            value: tx.value,
            gas_price: tx.gas_price,
            gas: tx.gas,
            input: copy_bytes(&tx.input),
        }
    }
}

impl LightTransaction {
    /// A copy of this record.
    pub fn copy(&self) -> (r: LightTransaction)
        ensures
            r@ == self@,
    {
        LightTransaction {
            hash: self.hash,
            nonce: self.nonce,
            transaction_index: self.transaction_index,
            from: self.from,
            to: self.to,
            value: self.value,
            gas_price: self.gas_price,
            gas: self.gas,
            input: copy_bytes(&self.input),
        }
    }
}

/// A borrowed record's input is copied, so the result equals the record's
/// light form through its view only: the `ensures` of `from` states that.
impl<'a> vstd::std_specs::convert::FromSpecImpl<&'a Transaction> for LightTransaction {
    open spec fn obeys_from_spec() -> bool {
        false
    }

    open spec fn from_spec(tx: &'a Transaction) -> LightTransaction {
        <LightTransaction as vstd::std_specs::convert::FromSpec<Transaction>>::from_spec(*tx)
    }
}

} // verus!
