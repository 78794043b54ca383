//! Properties that relate the conversions and queries, proved over the
//! spec functions their contracts use.
use vstd::prelude::*;

use std::sync::Arc;

use crate::block::{
    found_transaction, receipts_upgraded, same_header, upgraded, EthereumBlockV1,
    EthereumBlockV2, LightEthereumBlockV1, LightEthereumBlockV2,
};
use crate::call::{call_of_trace, call_outcome, Action, CallSuccessError, Trace};
use crate::primitives::H256;
use crate::receipt::{logs_view, StoreTransactionReceipt};
use crate::transaction::{LightTransaction, LightTransactionView, Transaction};

verus! {

/// Normalizing a transaction by value and normalizing a reference to it give
/// the same light record: both `from` conversions state `r@ == tx.light()`.
pub proof fn lemma_light_by_value_and_by_ref(
    tx: Transaction,
    by_value: LightTransaction,
    by_ref: LightTransaction,
)
    requires
        by_value@ == tx.light(),
        by_ref@ == tx.light(),
    ensures
        by_value@ == by_ref@,
{
}

/// Upgrading a block keeps its transaction count and order, and every field
/// but the transactions; each transaction keeps its hash.
pub proof fn lemma_upgrade_preserves_block(v1: LightEthereumBlockV1, v2: LightEthereumBlockV2)
    requires
        upgraded(v1, v2),
    ensures
        same_header(v1, v2),
        v2.transactions@.len() == v1.transactions@.len(),
        forall|i: int|
            0 <= i < v1.transactions@.len() ==> (#[trigger] v2.transactions@[i]).hash
                == v1.transactions@[i].hash,
{
    assert forall|i: int| 0 <= i < v1.transactions@.len() implies (
    #[trigger] v2.transactions@[i]).hash == v1.transactions@[i].hash by {
        assert(v2.transactions@[i]@ == v1.transactions@[i].light());
    }
}

/// Two legacy blocks whose transactions have the same light forms, element
/// by element, upgrade to the same light transactions.
pub proof fn lemma_upgrade_determined_by_light_forms(
    a1: LightEthereumBlockV1,
    a2: LightEthereumBlockV1,
    b1: LightEthereumBlockV2,
    b2: LightEthereumBlockV2,
)
    requires
        upgraded(a1, b1),
        upgraded(a2, b2),
        a1.transactions@.len() == a2.transactions@.len(),
        forall|i: int|
            0 <= i < a1.transactions@.len() ==> (#[trigger] a1.transactions@[i]).light()
                == a2.transactions@[i].light(),
    ensures
        b1.transactions@.len() == b2.transactions@.len(),
        forall|i: int|
            0 <= i < b1.transactions@.len() ==> (#[trigger] b1.transactions@[i])@
                == b2.transactions@[i]@,
{
    assert forall|i: int| 0 <= i < b1.transactions@.len() implies (
    #[trigger] b1.transactions@[i])@ == b2.transactions@[i]@ by {
        assert(a1.transactions@[i].light() == a2.transactions@[i].light());
        assert(b1.transactions@[i]@ == a1.transactions@[i].light());
        assert(b2.transactions@[i]@ == a2.transactions@[i].light());
    }
}

/// Converting a block's receipts to store receipts keeps their count, their
/// order, and every field of each.
pub proof fn lemma_receipts_upgrade_preserves(v1: EthereumBlockV1, v2: EthereumBlockV2)
    requires
        receipts_upgraded(v1, v2),
    ensures
        v2.transaction_receipts@.len() == v1.transaction_receipts@.len(),
        forall|i: int|
            0 <= i < v1.transaction_receipts@.len() ==> {
                let old_r = v1.transaction_receipts@[i];
                let new_r = #[trigger] v2.transaction_receipts@[i];
                &&& new_r.transaction_hash == old_r.transaction_hash
                &&& new_r.transaction_index == old_r.transaction_index
                &&& new_r.block_hash == old_r.block_hash
                &&& new_r.block_number == old_r.block_number
                &&& new_r.cumulative_gas_used == old_r.cumulative_gas_used
                &&& new_r.gas_used == old_r.gas_used
                &&& new_r.contract_address == old_r.contract_address
                &&& logs_view(new_r.logs@) == logs_view(old_r.logs@)
                &&& new_r.status == old_r.status
                &&& new_r.root == old_r.root
                &&& new_r.logs_bloom == old_r.logs_bloom
            },
{
    assert forall|i: int| 0 <= i < v1.transaction_receipts@.len() implies {
        let old_r = v1.transaction_receipts@[i];
        let new_r = #[trigger] v2.transaction_receipts@[i];
        &&& new_r.transaction_hash == old_r.transaction_hash
        &&& new_r.transaction_index == old_r.transaction_index
        &&& new_r.block_hash == old_r.block_hash
        &&& new_r.block_number == old_r.block_number
        &&& new_r.cumulative_gas_used == old_r.cumulative_gas_used
        &&& new_r.gas_used == old_r.gas_used
        &&& new_r.contract_address == old_r.contract_address
        &&& logs_view(new_r.logs@) == logs_view(old_r.logs@)
        &&& new_r.status == old_r.status
        &&& new_r.root == old_r.root
        &&& new_r.logs_bloom == old_r.logs_bloom
    } by {
        assert(v2.transaction_receipts@[i]@ == v1.transaction_receipts@[i].store());
    }
}

/// A trace that carries an error yields no call, whatever its other fields.
pub proof fn lemma_errored_trace_yields_no_call(trace: Trace)
    requires
        trace.error.is_some(),
    ensures
        call_of_trace(trace) is None,
{
}

/// A call action whose input is shorter than a 4-byte selector yields no call.
pub proof fn lemma_short_input_yields_no_call(trace: Trace)
    requires
        trace.action matches Action::Call(c) && c.input@.len() < 4,
    ensures
        call_of_trace(trace) is None,
{
}

/// A trace without a transaction position yields no call.
pub proof fn lemma_unpositioned_trace_yields_no_call(trace: Trace)
    requires
        trace.transaction_position is None,
    ensures
        call_of_trace(trace) is None,
{
}

/// In a block whose one transaction has hash `h`, the lookup by `h` finds
/// that transaction, and the lookup by a hash no transaction has finds none.
pub proof fn lemma_lookup_in_single_transaction_block(
    txs: Seq<LightTransaction>,
    h: H256,
    other: H256,
    found: Option<LightTransactionView>,
    missing: Option<LightTransactionView>,
)
    requires
        txs.len() == 1,
        txs[0].hash@ == h@,
        other@ != h@,
        found_transaction(txs, Some(h), found),
        found_transaction(txs, Some(other), missing),
    ensures
        found == Some(txs[0]@),
        missing is None,
{
    if found is None {
        assert(txs[0].hash@ != h@);
    }
    if let Some(t) = missing {
        let i = choose|i: int|
            0 <= i < txs.len() && (#[trigger] txs[i]).hash@ == other@ && t == txs[i]@ && forall|
                j: int,
            | 0 <= j < i ==> (#[trigger] txs[j]).hash@ != other@;
        assert(i == 0);
    }
}

/// A call whose transaction's receipt has status 1 succeeded; a call whose
/// transaction has no receipt in the block gets the missing-receipt error.
pub proof fn lemma_call_outcome_by_receipt(
    receipts: Seq<Arc<StoreTransactionReceipt>>,
    h: H256,
)
    ensures
        (exists|i: int| 0 <= i < receipts.len() && (#[trigger] receipts[i]).transaction_hash@ == h@)
            && (forall|i: int|
            0 <= i < receipts.len() && (#[trigger] receipts[i]).transaction_hash@ == h@
                ==> receipts[i].status == Some(1u64)) ==> call_outcome(receipts, Some(h)) == Ok::<
            bool,
            CallSuccessError,
        >(true),
        (forall|i: int| 0 <= i < receipts.len() ==> (#[trigger] receipts[i]).transaction_hash@ != h@)
            ==> call_outcome(receipts, Some(h)) == Err::<bool, CallSuccessError>(
            CallSuccessError::NoReceipt,
        ),
{
    if exists|i: int| 0 <= i < receipts.len() && (#[trigger] receipts[i]).transaction_hash@ == h@ {
        let w = choose|i: int| 0 <= i < receipts.len() && (#[trigger] receipts[i]).transaction_hash@ == h@;
        lemma_first_match_exists(receipts, h, w);
    }
}

/// Where some receipt has hash `h`, a first one does.
proof fn lemma_first_match_exists(receipts: Seq<Arc<StoreTransactionReceipt>>, h: H256, w: int)
    requires
        0 <= w < receipts.len(),
        receipts[w].transaction_hash@ == h@,
    ensures
        exists|i: int|
            0 <= i < receipts.len() && (#[trigger] receipts[i]).transaction_hash@ == h@ && forall|
                j: int,
            | 0 <= j < i ==> (#[trigger] receipts[j]).transaction_hash@ != h@,
    decreases w,
{
    if exists|j: int| 0 <= j < w && (#[trigger] receipts[j]).transaction_hash@ == h@ {
        let j = choose|j: int| 0 <= j < w && (#[trigger] receipts[j]).transaction_hash@ == h@;
        lemma_first_match_exists(receipts, h, j);
    } else {
        assert(0 <= w < receipts.len() && receipts[w].transaction_hash@ == h@ && forall|j: int|
            0 <= j < w ==> (#[trigger] receipts[j]).transaction_hash@ != h@);
    }
}

} // verus!
