//! Logs, full transaction receipts, and the receipts kept in store.
use vstd::prelude::*;

use crate::primitives::{Address, Bloom, H256, U256};
use crate::transaction::copy_bytes;

verus! {

/// A log emitted by a transaction.
#[derive(Clone, Debug, Default, PartialEq)]
pub struct Log {
    pub address: Address,
    pub topics: Vec<H256>,
    pub data: Vec<u8>,
    pub block_hash: Option<H256>,
    pub block_number: Option<u64>,
    /// Hash of the transaction that emitted the log, when known.
    pub transaction_hash: Option<H256>,
    pub transaction_index: Option<u64>,
    pub log_index: Option<U256>,
    pub transaction_log_index: Option<U256>,
    pub log_type: Option<String>,
    pub removed: Option<bool>,
}

/// The value of a `Log`, with its collections as sequences.
pub struct LogView {
    pub address: Address,
    pub topics: Seq<H256>,
    pub data: Seq<u8>,
    pub block_hash: Option<H256>,
    pub block_number: Option<u64>,
    pub transaction_hash: Option<H256>,
    pub transaction_index: Option<u64>,
    pub log_index: Option<U256>,
    pub transaction_log_index: Option<U256>,
    pub log_type: Option<Seq<char>>,
    pub removed: Option<bool>,
}

impl View for Log {
    type V = LogView;

    open spec fn view(&self) -> LogView {
        LogView {
            address: self.address,
            topics: self.topics@,
            data: self.data@,
            block_hash: self.block_hash,
            block_number: self.block_number,
            transaction_hash: self.transaction_hash,
            transaction_index: self.transaction_index,
            log_index: self.log_index,
            transaction_log_index: self.transaction_log_index,
            log_type: match self.log_type {
                Some(t) => Some(t@),
                None => None,
            },
            removed: self.removed,
        }
    }
}

/// The views of a sequence of logs.
pub open spec fn logs_view(logs: Seq<Log>) -> Seq<LogView> {
    logs.map_values(|l: Log| l@)
}

/// A transaction receipt as a chain node reports it.
#[derive(Clone, Debug, Default, PartialEq)]
pub struct TransactionReceipt {
    pub transaction_hash: H256,
    pub transaction_index: u64,
    pub block_hash: Option<H256>,
    pub block_number: Option<u64>,
    pub from: Address,
    pub to: Option<Address>,
    pub cumulative_gas_used: U256,
    /// `None` when the node runs as a light client.
    pub gas_used: Option<U256>,
    /// The created contract, or `None` if not a deployment.
    pub contract_address: Option<Address>,
    pub logs: Vec<Log>,
    /// 1 for success, 0 for failure; absent before EIP-658.
    pub status: Option<u64>,
    /// State root, the encoding of the outcome before EIP-658.
    pub root: Option<H256>,
    pub logs_bloom: Bloom,
    pub transaction_type: Option<u64>,
    pub effective_gas_price: Option<U256>,
}

/// The receipt record kept in store.
#[derive(Clone, Debug, Default, PartialEq)]
pub struct StoreTransactionReceipt {
    pub transaction_hash: H256,
    pub transaction_index: u64,
    pub block_hash: Option<H256>,
    pub block_number: Option<u64>,
    pub cumulative_gas_used: U256,
    pub gas_used: Option<U256>,
    pub contract_address: Option<Address>,
    pub logs: Vec<Log>,
    pub status: Option<u64>,
    pub root: Option<H256>,
    pub logs_bloom: Bloom,
}

/// The value of a `StoreTransactionReceipt`.
pub struct StoreReceiptView {
    pub transaction_hash: H256,
    pub transaction_index: u64,
    pub block_hash: Option<H256>,
    pub block_number: Option<u64>,
    pub cumulative_gas_used: U256,
    pub gas_used: Option<U256>,
    pub contract_address: Option<Address>,
    pub logs: Seq<LogView>,
    pub status: Option<u64>,
    pub root: Option<H256>,
    pub logs_bloom: Bloom,
}

impl View for StoreTransactionReceipt {
    type V = StoreReceiptView;

    open spec fn view(&self) -> StoreReceiptView {
        StoreReceiptView {
            transaction_hash: self.transaction_hash,
            transaction_index: self.transaction_index,
            block_hash: self.block_hash,
            block_number: self.block_number,
            cumulative_gas_used: self.cumulative_gas_used,
            gas_used: self.gas_used,
            contract_address: self.contract_address,
            logs: logs_view(self.logs@),
            status: self.status,
            root: self.root,
            logs_bloom: self.logs_bloom,
        }
    }
}

impl TransactionReceipt {
    /// The store record of this receipt: its own fields, the others dropped.
    pub open spec fn store(self) -> StoreReceiptView {
        StoreReceiptView {
            transaction_hash: self.transaction_hash,
            transaction_index: self.transaction_index,
            block_hash: self.block_hash,
            block_number: self.block_number,
            cumulative_gas_used: self.cumulative_gas_used,
            gas_used: self.gas_used,
            contract_address: self.contract_address,
            logs: logs_view(self.logs@),
            status: self.status,
            root: self.root,
            logs_bloom: self.logs_bloom,
        }
    }
}

fn copy_hashes(v: &Vec<H256>) -> (r: Vec<H256>)
    ensures
        r@ == v@,
{
    let mut r: Vec<H256> = Vec::with_capacity(v.len());
    let mut i: usize = 0;
    while i < v.len()
        invariant
            i <= v@.len(),
            r@ == v@.subrange(0, i as int),
        decreases v@.len() - i,
    {
        r.push(v[i]);
        i = i + 1;
    }
    assert(r@ =~= v@);
    r
}

/// A copy of a log.
pub fn copy_log(l: &Log) -> (r: Log)
    ensures
        r@ == l@,
{
    let log_type = match &l.log_type {
        Some(t) => Some(t.clone()),
        None => None,
    };
    Log {
        address: l.address,
        topics: copy_hashes(&l.topics),
        data: copy_bytes(&l.data),
        block_hash: l.block_hash,
        block_number: l.block_number,
        transaction_hash: l.transaction_hash,
        transaction_index: l.transaction_index,
        log_index: l.log_index,
        transaction_log_index: l.transaction_log_index,
        log_type,
        removed: l.removed,
    }
}

/// A copy of a sequence of logs, in order.
pub fn copy_logs(v: &Vec<Log>) -> (r: Vec<Log>)
    ensures
        logs_view(r@) == logs_view(v@),
{
    let mut r: Vec<Log> = Vec::with_capacity(v.len());
    let mut i: usize = 0;
    while i < v.len()
        invariant
            i <= v@.len(),
            r@.len() == i,
            forall|j: int| 0 <= j < i ==> (#[trigger] r@[j])@ == v@[j]@,
        decreases v@.len() - i,
    {
        r.push(copy_log(&v[i]));
        i = i + 1;
    }
    assert(logs_view(r@) =~= logs_view(v@));
    r
}

/// A copy of a receipt, with the same store record.
pub fn copy_receipt(t: &TransactionReceipt) -> (r: TransactionReceipt)
    ensures
        r.store() == t.store(),
{
    TransactionReceipt {
        transaction_hash: t.transaction_hash,
        transaction_index: t.transaction_index,
        block_hash: t.block_hash,
        block_number: t.block_number,
        from: t.from,
        to: t.to,
        cumulative_gas_used: t.cumulative_gas_used,
        gas_used: t.gas_used,
        contract_address: t.contract_address,
        logs: copy_logs(&t.logs),
        status: t.status,
        root: t.root,
        logs_bloom: t.logs_bloom,
        transaction_type: t.transaction_type,
        effective_gas_price: t.effective_gas_price,
    }
}

impl From<TransactionReceipt> for StoreTransactionReceipt {
    fn from(receipt: TransactionReceipt) -> (r: StoreTransactionReceipt)
        ensures
            r@ == receipt.store(),
    {
        StoreTransactionReceipt {
            transaction_hash: receipt.transaction_hash,
            transaction_index: receipt.transaction_index,
            block_hash: receipt.block_hash,
            block_number: receipt.block_number,
            cumulative_gas_used: receipt.cumulative_gas_used,
            gas_used: receipt.gas_used,
            contract_address: receipt.contract_address,
            logs: receipt.logs,
            status: receipt.status,
            root: receipt.root,
            logs_bloom: receipt.logs_bloom,
        }
    }
}

impl vstd::std_specs::convert::FromSpecImpl<TransactionReceipt> for StoreTransactionReceipt {
    open spec fn obeys_from_spec() -> bool {
        true
    }

    open spec fn from_spec(receipt: TransactionReceipt) -> StoreTransactionReceipt {
        StoreTransactionReceipt {
            transaction_hash: receipt.transaction_hash,
            transaction_index: receipt.transaction_index,
            block_hash: receipt.block_hash,
            block_number: receipt.block_number,
            cumulative_gas_used: receipt.cumulative_gas_used,
            gas_used: receipt.gas_used,
            contract_address: receipt.contract_address,
            logs: receipt.logs,
            status: receipt.status,
            root: receipt.root,
            logs_bloom: receipt.logs_bloom,
        }
    }
}

/// Whether a receipt's status tells of success: a nonzero status is success,
/// zero is failure, and a receipt without one (before EIP-658) counts as a
/// success.
pub open spec fn status_succeeded(status: Option<u64>) -> bool {
    match status {
        Some(s) => s != 0,
        None => true,
    }
}

/// Evaluates if a given transaction was successful: `true` on success and
/// `false` on failure. A receipt without a status value (before EIP-658) is
/// taken to be a success.
pub fn evaluate_transaction_status(receipt_status: Option<u64>) -> (r: bool)
    ensures
        r == status_succeeded(receipt_status),
        receipt_status == Some(0u64) ==> !r,
        receipt_status.is_none() ==> r,
{
    match receipt_status {
        Some(status) => status != 0,
        None => true,
    }
}

} // verus!
