use std::sync::Arc;

use graph_ethereum::{
    evaluate_transaction_status, Action, ActionType, Address, Block, BlockPtr, Bloom, Call,
    CallResult, CallSuccessError, CallType, Create, EthereumBlockV1, EthereumBlockV2,
    EthereumBlockWithCalls, EthereumCall, LightEthereumBlock, LightEthereumBlockExt,
    LightEthereumBlockFromV1To, LightEthereumBlockTryFromV1To, LightEthereumBlockV1,
    LightTransaction, Log, Res, StoreTransactionReceipt, Trace, Transaction, TransactionReceipt,
    H256, H64, U256,
};

fn hash(b: u8) -> H256 {
    H256([b; 32])
}

fn addr(b: u8) -> Address {
    Address([b; 20])
}

fn num(n: u64) -> U256 {
    U256([n, 0, 0, 0])
}

fn full_tx(h: u8, input: Vec<u8>) -> Transaction {
    Transaction {
        hash: hash(h),
        nonce: num(7),
        block_hash: Some(hash(0xbb)),
        block_number: Some(12),
        transaction_index: Some(3),
        from: Some(addr(1)),
        to: None,
        value: num(1000),
        gas_price: Some(num(20)),
        gas: num(21000),
        input,
        v: Some(27),
        r: Some(num(5)),
        s: Some(num(6)),
        raw: None,
        transaction_type: Some(2),
        max_fee_per_gas: None,
        max_priority_fee_per_gas: None,
    }
}

fn block<TX>(number: Option<u64>, h: Option<H256>, txs: Vec<TX>) -> Block<TX> {
    Block {
        hash: h,
        parent_hash: hash(0xaa),
        uncles_hash: hash(0x11),
        author: addr(9),
        state_root: hash(0x12),
        transactions_root: hash(0x13),
        receipts_root: hash(0x14),
        number,
        gas_used: num(500),
        gas_limit: num(30_000_000),
        base_fee_per_gas: Some(num(8)),
        extra_data: vec![1, 2, 3],
        logs_bloom: None,
        timestamp: num(1_600_000_000),
        difficulty: num(2),
        total_difficulty: Some(num(99)),
        seal_fields: vec![vec![4, 5]],
        uncles: vec![hash(0x15)],
        transactions: txs,
        size: Some(num(1234)),
        mix_hash: Some(hash(0x16)),
        nonce: Some(H64([7; 8])),
    }
}

fn light_block(number: Option<u64>, txs: Vec<LightTransaction>) -> LightEthereumBlock {
    block(number, Some(hash(0xcc)), txs)
}

fn log_with(tx_hash: Option<H256>) -> Log {
    Log {
        address: addr(4),
        topics: vec![hash(0x21)],
        data: vec![9, 9],
        block_hash: None,
        block_number: None,
        transaction_hash: tx_hash,
        transaction_index: None,
        log_index: None,
        transaction_log_index: None,
        log_type: Some("mined".to_string()),
        removed: Some(false),
    }
}

fn receipt(tx_hash: H256, status: Option<u64>) -> TransactionReceipt {
    TransactionReceipt {
        transaction_hash: tx_hash,
        transaction_index: 0,
        block_hash: Some(hash(0xcc)),
        block_number: Some(12),
        from: addr(1),
        to: Some(addr(2)),
        cumulative_gas_used: num(50_000),
        gas_used: Some(num(21_000)),
        contract_address: None,
        logs: vec![log_with(Some(tx_hash))],
        status,
        root: None,
        logs_bloom: Bloom([0; 256]),
        transaction_type: None,
        effective_gas_price: None,
    }
}

fn store_block(receipts: Vec<TransactionReceipt>) -> EthereumBlockWithCalls {
    let v1 = EthereumBlockV1 {
        block: Arc::new(light_block(Some(12), vec![])),
        transaction_receipts: receipts.into_iter().map(Arc::new).collect(),
    };
    EthereumBlockWithCalls { ethereum_block: EthereumBlockV2::from(v1), calls: None }
}

fn call_trace(input: Vec<u8>) -> Trace {
    Trace {
        action: Action::Call(Call {
            from: addr(1),
            to: addr(2),
            value: num(3),
            gas: num(100_000),
            input,
            call_type: CallType::Call,
        }),
        result: Some(Res::Call(CallResult { gas_used: num(4321), output: vec![0xde, 0xad] })),
        trace_address: vec![],
        subtraces: 0,
        transaction_position: Some(5),
        transaction_hash: Some(hash(0x77)),
        block_number: 12,
        block_hash: hash(0xcc),
        action_type: ActionType::Call,
        error: None,
    }
}

fn call_with_hash(tx_hash: Option<H256>) -> EthereumCall {
    EthereumCall {
        from: addr(1),
        to: addr(2),
        value: num(0),
        gas_used: num(0),
        input: vec![1, 2, 3, 4],
        output: vec![],
        block_number: 12,
        block_hash: hash(0xcc),
        transaction_hash: tx_hash,
        transaction_index: 0,
    }
}

#[test]
fn light_transaction_by_value_and_by_reference_agree() {
    let tx = full_tx(0x42, vec![0xa9, 0x05, 0x9c, 0xbb, 1]);
    let by_ref = LightTransaction::from(&tx);
    let by_value = LightTransaction::from(tx.clone());
    assert_eq!(by_ref, by_value);
    assert!(by_ref.hash == hash(0x42));
    assert_eq!(by_ref.nonce, num(7));
    assert_eq!(by_ref.transaction_index, Some(3));
    assert_eq!(by_ref.from, Some(addr(1)));
    assert_eq!(by_ref.to, None);
    assert_eq!(by_ref.value, num(1000));
    assert_eq!(by_ref.gas_price, Some(num(20)));
    assert_eq!(by_ref.gas, num(21000));
    assert_eq!(by_ref.input, vec![0xa9, 0x05, 0x9c, 0xbb, 1]);
}

#[test]
fn upgrade_keeps_header_and_transaction_order() {
    let v1: LightEthereumBlockV1 =
        block(Some(12), Some(hash(0xcc)), vec![full_tx(1, vec![1]), full_tx(2, vec![]), full_tx(3, vec![3, 3])]);
    let v2 = <LightEthereumBlock as LightEthereumBlockFromV1To<LightEthereumBlock>>::from_v1(v1.clone());
    assert_eq!(v2.transactions.len(), 3);
    for (a, b) in v1.transactions.iter().zip(v2.transactions.iter()) {
        assert_eq!(&LightTransaction::from(a), b);
    }
    assert!(v2.hash == v1.hash);
    assert!(v2.parent_hash == v1.parent_hash);
    assert_eq!(v2.number, Some(12));
    assert_eq!(v2.extra_data, vec![1, 2, 3]);
    assert_eq!(v2.seal_fields, vec![vec![4, 5]]);
    assert_eq!(v2.timestamp, num(1_600_000_000));
    assert_eq!(v2.nonce, Some(H64([7; 8])));
}

#[test]
fn upgrade_of_empty_block_is_empty() {
    let v1: LightEthereumBlockV1 = block(Some(0), None, vec![]);
    let v2 = <LightEthereumBlock as LightEthereumBlockFromV1To<LightEthereumBlock>>::from_v1(v1);
    assert!(v2.transactions.is_empty());
}

#[test]
fn try_from_always_succeeds() {
    let v1: LightEthereumBlockV1 = block(Some(12), None, vec![full_tx(1, vec![1, 2, 3, 4])]);
    let r = <LightEthereumBlock as LightEthereumBlockTryFromV1To<
        Result<LightEthereumBlock, graph_ethereum::ConversionError>,
    >>::try_from(v1);
    let v2 = r.expect("conversion does not fail");
    assert_eq!(v2.transactions.len(), 1);
    assert!(v2.transactions[0].hash == hash(1));
}

#[test]
fn receipts_upgrade_keeps_count_order_and_fields() {
    let receipts = vec![receipt(hash(1), Some(1)), receipt(hash(2), Some(0)), receipt(hash(3), None)];
    let with_calls = store_block(receipts.clone());
    let stored = &with_calls.ethereum_block.transaction_receipts;
    assert_eq!(stored.len(), 3);
    for (old, new) in receipts.iter().zip(stored.iter()) {
        assert!(new.transaction_hash == old.transaction_hash);
        assert_eq!(new.status, old.status);
        assert_eq!(new.cumulative_gas_used, old.cumulative_gas_used);
        assert_eq!(new.gas_used, old.gas_used);
        assert_eq!(new.logs.len(), old.logs.len());
        assert_eq!(new.logs[0].data, old.logs[0].data);
        assert_eq!(new.logs[0].log_type, old.logs[0].log_type);
    }
}

#[test]
fn store_receipt_from_full_receipt() {
    let r = StoreTransactionReceipt::from(receipt(hash(8), Some(1)));
    assert!(r.transaction_hash == hash(8));
    assert_eq!(r.block_number, Some(12));
    assert_eq!(r.status, Some(1));
    assert_eq!(r.logs.len(), 1);
}

#[test]
fn status_evaluation() {
    assert!(!evaluate_transaction_status(Some(0)));
    assert!(evaluate_transaction_status(Some(1)));
    assert!(evaluate_transaction_status(Some(7)));
    assert!(evaluate_transaction_status(None));
}

#[test]
fn call_extracted_from_plain_call_trace() {
    let call = EthereumCall::try_from_trace(&call_trace(vec![0xa9, 0x05, 0x9c, 0xbb])).unwrap();
    assert_eq!(call.from, addr(1));
    assert_eq!(call.to, addr(2));
    assert_eq!(call.value, num(3));
    assert_eq!(call.gas_used, num(4321));
    assert_eq!(call.input, vec![0xa9, 0x05, 0x9c, 0xbb]);
    assert_eq!(call.output, vec![0xde, 0xad]);
    assert_eq!(call.block_number, 12);
    assert!(call.block_hash == hash(0xcc));
    assert!(call.transaction_hash == Some(hash(0x77)));
    assert_eq!(call.transaction_index, 5);
}

#[test]
fn errored_trace_yields_no_call() {
    let mut trace = call_trace(vec![1, 2, 3, 4]);
    trace.error = Some("Reverted".to_string());
    assert!(EthereumCall::try_from_trace(&trace).is_none());
}

#[test]
fn short_input_yields_no_call() {
    assert!(EthereumCall::try_from_trace(&call_trace(vec![1, 2, 3])).is_none());
    assert!(EthereumCall::try_from_trace(&call_trace(vec![])).is_none());
}

#[test]
fn unpositioned_trace_yields_no_call() {
    let mut trace = call_trace(vec![1, 2, 3, 4]);
    trace.transaction_position = None;
    assert!(EthereumCall::try_from_trace(&trace).is_none());
}

#[test]
fn non_call_action_or_result_yields_no_call() {
    let mut trace = call_trace(vec![1, 2, 3, 4]);
    trace.action = Action::Create(Create { from: addr(1), value: num(0), gas: num(1), init: vec![1, 2, 3, 4] });
    assert!(EthereumCall::try_from_trace(&trace).is_none());
    let mut trace = call_trace(vec![1, 2, 3, 4]);
    trace.result = Some(Res::Empty);
    assert!(EthereumCall::try_from_trace(&trace).is_none());
    let mut trace = call_trace(vec![1, 2, 3, 4]);
    trace.result = None;
    assert!(EthereumCall::try_from_trace(&trace).is_none());
}

#[test]
fn transaction_for_log_finds_matching_transaction() {
    let b = light_block(Some(12), vec![LightTransaction::from(full_tx(0x42, vec![5]))]);
    let found = b.transaction_for_log(&log_with(Some(hash(0x42)))).unwrap();
    assert!(found.hash == hash(0x42));
    assert_eq!(found.input, vec![5]);
    assert!(b.transaction_for_log(&log_with(Some(hash(0x43)))).is_none());
    assert!(b.transaction_for_log(&log_with(None)).is_none());
}

#[test]
fn transaction_for_call_finds_matching_transaction() {
    let b = light_block(
        Some(12),
        vec![LightTransaction::from(full_tx(1, vec![])), LightTransaction::from(full_tx(2, vec![2]))],
    );
    let found = b.transaction_for_call(&call_with_hash(Some(hash(2)))).unwrap();
    assert_eq!(found.input, vec![2]);
    assert!(b.transaction_for_call(&call_with_hash(Some(hash(3)))).is_none());
    assert!(b.transaction_for_call(&call_with_hash(None)).is_none());
}

#[test]
fn parent_ptr_of_genesis_and_later_block() {
    assert!(light_block(Some(0), vec![]).parent_ptr().is_none());
    let p = light_block(Some(12), vec![]).parent_ptr().unwrap();
    assert!(p == BlockPtr { hash: hash(0xaa), number: 11 });
    let p1 = light_block(Some(1), vec![]).parent_ptr().unwrap();
    assert_eq!(p1.number, 0);
}

#[test]
fn number_and_block_ptr() {
    let b = light_block(Some(12), vec![]);
    assert_eq!(b.number(), 12);
    assert!(b.block_ptr() == BlockPtr { hash: hash(0xcc), number: 12 });
    assert_eq!(LightEthereumBlockExt::number(&b), 12);
}

#[test]
fn timestamp_in_seconds() {
    let t = light_block(Some(12), vec![]).timestamp();
    assert_eq!(t.secs, 1_600_000_000);
    assert_eq!(t.nanos, 0);
}

#[test]
fn format_with_and_without_fields() {
    let b = light_block(Some(12), vec![]);
    assert_eq!(b.format(), format!("#12 ({})", "cc".repeat(32)));
    let b: LightEthereumBlock = block(None, None, vec![]);
    assert_eq!(b.format(), "none (-)");
    let mut bytes = [0u8; 32];
    bytes[0] = 0x0f;
    bytes[31] = 0xa0;
    let b: LightEthereumBlock = block(Some(0), Some(H256(bytes)), vec![]);
    let expected = format!("#0 (0f{}a0)", "00".repeat(30));
    assert_eq!(b.format(), expected);
}

#[test]
fn call_success_by_receipt_status() {
    let b = store_block(vec![receipt(hash(1), Some(0)), receipt(hash(2), Some(1)), receipt(hash(3), None)]);
    assert_eq!(b.transaction_for_call_succeeded(&call_with_hash(Some(hash(2)))), Ok(true));
    assert_eq!(b.transaction_for_call_succeeded(&call_with_hash(Some(hash(1)))), Ok(false));
    assert_eq!(b.transaction_for_call_succeeded(&call_with_hash(Some(hash(3)))), Ok(true));
}

#[test]
fn call_success_errors() {
    let b = store_block(vec![receipt(hash(1), Some(1))]);
    assert_eq!(
        b.transaction_for_call_succeeded(&call_with_hash(Some(hash(9)))),
        Err(CallSuccessError::NoReceipt)
    );
    assert_eq!(
        b.transaction_for_call_succeeded(&call_with_hash(None)),
        Err(CallSuccessError::NoTransaction)
    );
    assert_eq!(CallSuccessError::NoReceipt.message(), "failed to find the receipt for this transaction");
    assert_eq!(CallSuccessError::NoTransaction.message(), "failed to find a transaction for this call");
}

#[test]
fn calls_unchecked_differs_from_checked_empty() {
    let unchecked = store_block(vec![]);
    let mut checked = unchecked.clone();
    checked.calls = Some(vec![]);
    assert!(unchecked.calls.is_none());
    assert!(checked.calls.as_ref().map_or(false, |c| c.is_empty()));
}

#[test]
fn u256_as_u64() {
    assert_eq!(num(77).as_u64(), 77);
}

#[test]
fn block_ptr_from_block_and_call() {
    let with_calls = store_block(vec![]);
    let by_ref = BlockPtr::from(&with_calls.ethereum_block);
    assert_eq!(by_ref, BlockPtr { hash: hash(0xcc), number: 12 });
    assert_eq!(BlockPtr::from(with_calls.ethereum_block.clone()), by_ref);
    let call = call_with_hash(None);
    assert_eq!(BlockPtr::from(&call), BlockPtr { hash: hash(0xcc), number: 12 });
}

#[test]
fn block_ptr_from_block_without_position() {
    let b = EthereumBlockV2 { block: Arc::new(block(None, None, vec![])), transaction_receipts: vec![] };
    assert_eq!(BlockPtr::from(&b), BlockPtr { hash: H256([0; 32]), number: 0 });
}

#[test]
fn parent_ptr_matches_parent_block_ptr() {
    let parent: LightEthereumBlock = block(Some(11), Some(hash(0xaa)), vec![]);
    let child = light_block(Some(12), vec![]);
    assert_eq!(child.parent_ptr(), Some(parent.block_ptr()));
}

#[test]
fn defaults_are_empty() {
    let t = LightTransaction::default();
    assert!(t.input.is_empty());
    assert_eq!(t.transaction_index, None);
    let r = StoreTransactionReceipt::default();
    assert!(r.logs.is_empty());
    assert_eq!(r.logs_bloom, Bloom([0; 256]));
    let c = EthereumCall::default();
    assert_eq!(c, EthereumCall::default());
    assert_eq!(c.transaction_hash, None);
}

#[test]
fn trait_queries_agree_with_block_methods() {
    let b = light_block(Some(12), vec![LightTransaction::from(full_tx(0x42, vec![5]))]);
    let log = log_with(Some(hash(0x42)));
    assert_eq!(LightEthereumBlockExt::transaction_for_log(&b, &log), b.transaction_for_log(&log));
    assert_eq!(LightEthereumBlockExt::format(&b), b.format());
    assert_eq!(LightEthereumBlockExt::parent_ptr(&b), b.parent_ptr());
    assert_eq!(LightEthereumBlockExt::block_ptr(&b), b.block_ptr());
    assert_eq!(LightEthereumBlockExt::timestamp(&b), b.timestamp());
}
