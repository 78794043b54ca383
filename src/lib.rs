//! Normalized chain data: light transactions, store receipts, versioned
//! blocks, queries against a block, and call extraction from traces.

pub mod block;
pub mod call;
pub mod laws;
pub mod primitives;
pub mod receipt;
pub mod transaction;

pub use block::{
    Block, BlockNumber, BlockPtr, BlockTime, ConversionError, EthereumBlock, EthereumBlockV1,
    EthereumBlockV2, LightEthereumBlock, LightEthereumBlockExt, LightEthereumBlockFromV1To,
    LightEthereumBlockTryFromV1To, LightEthereumBlockV1, LightEthereumBlockV2,
};
pub use call::{
    Action, ActionType, Call, CallResult, CallSuccessError, CallType, Create, CreateResult,
    EthereumBlockWithCalls, EthereumCall, EthereumCallView, Res, Reward, RewardType, Suicide,
    Trace,
};
pub use primitives::{Address, Bloom, H256, H64, U256};
pub use receipt::{
    evaluate_transaction_status, Log, LogView, StoreReceiptView, StoreTransactionReceipt,
    TransactionReceipt,
};
pub use transaction::{LightTransaction, LightTransactionView, Transaction};
