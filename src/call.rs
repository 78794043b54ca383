//! Execution traces, the contract calls extracted from them, and whether a
//! call's transaction succeeded.
use vstd::prelude::*;

use crate::block::{BlockNumber, EthereumBlock};
use crate::primitives::{Address, H256, U256};
use crate::receipt::{status_succeeded, StoreTransactionReceipt};
use crate::transaction::copy_bytes;

verus! {

/// The kind of a call action.
#[derive(Clone, Copy, Debug, PartialEq, Eq)]
pub enum CallType {
    /// No call type given.
    Unspecified,
    Call,
    CallCode,
    DelegateCall,
    StaticCall,
}

/// A call action of a trace.
#[derive(Clone, Debug)]
pub struct Call {
    pub from: Address,
    pub to: Address,
    pub value: U256,
    pub gas: U256,
    pub input: Vec<u8>,
    pub call_type: CallType,
}

/// A contract creation action of a trace.
#[derive(Clone, Debug)]
pub struct Create {
    pub from: Address,
    pub value: U256,
    pub gas: U256,
    pub init: Vec<u8>,
}

/// A self-destruct action of a trace.
#[derive(Clone, Copy, Debug)]
pub struct Suicide {
    pub address: Address,
    pub refund_address: Address,
    pub balance: U256,
}

/// The kind of a reward.
#[derive(Clone, Copy, Debug, PartialEq, Eq)]
pub enum RewardType {
    Block,
    Uncle,
    EmptyStep,
    External,
}

/// A reward action of a trace.
#[derive(Clone, Copy, Debug)]
pub struct Reward {
    pub author: Address,
    pub value: U256,
    pub reward_type: RewardType,
}

/// What a traced execution step did.
#[derive(Clone, Debug)]
pub enum Action {
    Call(Call),
    Create(Create),
    Suicide(Suicide),
    Reward(Reward),
}

/// The result of a call step.
#[derive(Clone, Debug)]
pub struct CallResult {
    pub gas_used: U256,
    pub output: Vec<u8>,
}

/// The result of a creation step.
#[derive(Clone, Debug)]
pub struct CreateResult {
    pub gas_used: U256,
    pub code: Vec<u8>,
    pub address: Address,
}

/// The result of a traced step.
#[derive(Clone, Debug)]
pub enum Res {
    Call(CallResult),
    Create(CreateResult),
    /// No result.
    Empty,
}

/// The kind of a traced step.
#[derive(Clone, Copy, Debug, PartialEq, Eq)]
pub enum ActionType {
    Call,
    Create,
    Suicide,
    Reward,
}

/// One traced execution step, as a chain node reports it.
#[derive(Clone, Debug)]
pub struct Trace {
    pub action: Action,
    pub result: Option<Res>,
    pub trace_address: Vec<usize>,
    pub subtraces: usize,
    /// Position of the transaction in the block; absent for block rewards.
    pub transaction_position: Option<usize>,
    pub transaction_hash: Option<H256>,
    pub block_number: u64,
    pub block_hash: H256,
    pub action_type: ActionType,
    /// Set when the step failed.
    pub error: Option<String>,
}

/// A contract call extracted from a trace.
#[derive(Clone, Debug, Default, PartialEq, Eq)]
pub struct EthereumCall {
    pub from: Address,
    pub to: Address,
    pub value: U256,
    pub gas_used: U256,
    pub input: Vec<u8>,
    pub output: Vec<u8>,
    pub block_number: BlockNumber,
    pub block_hash: H256,
    /// Absent for steps that belong to no transaction.
    pub transaction_hash: Option<H256>,
    pub transaction_index: u64,
}

/// The value of an `EthereumCall`, with its byte strings as sequences.
pub struct EthereumCallView {
    pub from: Address,
    pub to: Address,
    pub value: U256,
    pub gas_used: U256,
    pub input: Seq<u8>,
    pub output: Seq<u8>,
    pub block_number: BlockNumber,
    pub block_hash: H256,
    pub transaction_hash: Option<H256>,
    pub transaction_index: u64,
}

impl View for EthereumCall {
    type V = EthereumCallView;

    open spec fn view(&self) -> EthereumCallView {
        EthereumCallView {
            from: self.from,
            to: self.to,
            value: self.value,
            gas_used: self.gas_used,
            input: self.input@,
            output: self.output@,
            block_number: self.block_number,
            block_hash: self.block_hash,
            transaction_hash: self.transaction_hash,
            transaction_index: self.transaction_index,
        }
    }
}

/// The call a trace stands for, if any: only a step without an error, whose
/// action is a call with at least a 4-byte selector as input, whose result is
/// a call result, and which has a transaction position.
pub open spec fn call_of_trace(trace: Trace) -> Option<EthereumCallView> {
    if trace.error.is_some() {
        None
    } else {
        match trace.action {
            Action::Call(c) => if c.input@.len() < 4 {
                None
            } else {
                match trace.result {
                    Some(Res::Call(res)) => match trace.transaction_position {
                        Some(p) => Some(
                            EthereumCallView {
                                from: c.from,
                                to: c.to,
                                value: c.value,
                                gas_used: res.gas_used,
                                input: c.input@,
                                output: res.output@,
                                block_number: trace.block_number as i32,
                                block_hash: trace.block_hash,
                                transaction_hash: trace.transaction_hash,
                                transaction_index: p as u64,
                            },
                        ),
                        None => None,
                    },
                    _ => None,
                }
            },
            _ => None,
        }
    }
}

impl EthereumCall {
    /// The call that a trace stands for, or `None` where the trace is
    /// filtered out. The trace's block height is cast to a `BlockNumber`
    /// as it is: a height above `i32::MAX` wraps to a negative number.
    pub fn try_from_trace(trace: &Trace) -> (r: Option<EthereumCall>)
        ensures
            r matches Some(c) ==> call_of_trace(*trace) == Some(c@),
            r is None ==> call_of_trace(*trace) is None,
    {
        if trace.error.is_some() {
            return None;
        }
        let call = match &trace.action {
            Action::Call(call) => {
                if call.input.len() < 4 {
                    return None;
                }
                call
            },
            _ => return None,
        };
        let (output, gas_used) = match &trace.result {
            Some(Res::Call(result)) => (copy_bytes(&result.output), result.gas_used),
            _ => return None,
        };
        let transaction_index = match trace.transaction_position {
            Some(p) => p as u64,
            None => return None,
        };
        Some(
            EthereumCall {
                from: call.from,
                to: call.to,
                value: call.value,
                gas_used,
                input: copy_bytes(&call.input),
                output,
                block_number: trace.block_number as BlockNumber,
                block_hash: trace.block_hash,
                transaction_hash: trace.transaction_hash,
                transaction_index,
            },
        )
    }
}

/// A block with the calls found in it.
#[derive(Clone, Debug)]
pub struct EthereumBlockWithCalls {
    pub ethereum_block: EthereumBlock,
    /// The calls in this block; `None` means not checked yet, `Some` of an
    /// empty vector means checked and none found.
    pub calls: Option<Vec<EthereumCall>>,
}

/// A call's position: its block's hash and height.
impl<'a> From<&'a EthereumCall> for crate::block::BlockPtr {
    fn from(call: &'a EthereumCall) -> (r: crate::block::BlockPtr)
        ensures
            r.hash == call.block_hash,
            r.number == call.block_number,
    {
        crate::block::BlockPtr { hash: call.block_hash, number: call.block_number }
    }
}

impl<'a> vstd::std_specs::convert::FromSpecImpl<&'a EthereumCall> for crate::block::BlockPtr {
    open spec fn obeys_from_spec() -> bool {
        true
    }

    open spec fn from_spec(call: &'a EthereumCall) -> crate::block::BlockPtr {
        crate::block::BlockPtr { hash: call.block_hash, number: call.block_number }
    }
}

/// Why a call's success could not be told.
#[derive(Clone, Copy, Debug, PartialEq, Eq)]
pub enum CallSuccessError {
    /// The call belongs to no transaction.
    NoTransaction,
    /// The block has no receipt for the call's transaction.
    NoReceipt,
}

impl CallSuccessError {
    /// A description of the error.
    pub fn message(&self) -> (r: String)
        ensures
            *self == CallSuccessError::NoTransaction ==> r@
                == "failed to find a transaction for this call"@,
            *self == CallSuccessError::NoReceipt ==> r@
                == "failed to find the receipt for this transaction"@,
    {
        proof {
            reveal_strlit("failed to find a transaction for this call");
            reveal_strlit("failed to find the receipt for this transaction");
        }
        match self {
            CallSuccessError::NoTransaction => "failed to find a transaction for this call".to_owned(),
            CallSuccessError::NoReceipt => "failed to find the receipt for this transaction".to_owned(),
        }
    }
}

/// The outcome of `transaction_for_call_succeeded`: the status rule applied
/// to the first receipt for the call's transaction.
pub open spec fn call_outcome(
    receipts: Seq<std::sync::Arc<StoreTransactionReceipt>>,
    hash: Option<H256>,
) -> Result<bool, CallSuccessError> {
    match hash {
        None => Err(CallSuccessError::NoTransaction),
        Some(h) => if exists|i: int| 0 <= i < receipts.len() && (#[trigger] receipts[i]).transaction_hash@ == h@ {
            let i = choose|i: int|
                0 <= i < receipts.len() && (#[trigger] receipts[i]).transaction_hash@ == h@ && forall|j: int|
                    0 <= j < i ==> (#[trigger] receipts[j]).transaction_hash@ != h@;
            Ok(status_succeeded(receipts[i].status))
        } else {
            Err(CallSuccessError::NoReceipt)
        },
    }
}

impl EthereumBlockWithCalls {
    /// Whether the transaction of `call` succeeded, by the receipt for it.
    pub fn transaction_for_call_succeeded(&self, call: &EthereumCall) -> (r: Result<
        bool,
        CallSuccessError,
    >)
        ensures
            r == call_outcome(self.ethereum_block.transaction_receipts@, call.transaction_hash),
    {
        let h = match call.transaction_hash {
            Some(h) => h,
            None => return Err(CallSuccessError::NoTransaction),
        };
        let receipts = &self.ethereum_block.transaction_receipts;
        let mut i: usize = 0;
        while i < receipts.len()
            invariant
                receipts == &self.ethereum_block.transaction_receipts,
                call.transaction_hash == Some(h),
                i <= receipts@.len(),
                forall|j: int| 0 <= j < i ==> (#[trigger] receipts@[j]).transaction_hash@ != h@,
            decreases receipts@.len() - i,
        {
            if receipts[i].transaction_hash == h {
                let ok = crate::receipt::evaluate_transaction_status(receipts[i].status);
                proof {
                    let rs = self.ethereum_block.transaction_receipts@;
                    assert(rs[i as int].transaction_hash@ == h@);
                    assert(0 <= i < rs.len() && rs[i as int].transaction_hash@ == h@ && forall|j: int|
                        0 <= j < i ==> (#[trigger] rs[j]).transaction_hash@ != h@);
                    let k = choose|k: int|
                        0 <= k < rs.len() && (#[trigger] rs[k]).transaction_hash@ == h@ && forall|
                            j: int,
                        | 0 <= j < k ==> (#[trigger] rs[j]).transaction_hash@ != h@;
                    if k < i {
                        assert(rs[k].transaction_hash@ != h@);
                    } else if k > i {
                        assert(rs[i as int].transaction_hash@ != h@);
                    }
                }
                return Ok(ok);
            }
            i = i + 1;
        }
        Err(CallSuccessError::NoReceipt)
    }
}

} // verus!
