//! Blocks in their two schema versions, the upgrade between them, and the
//! queries answered against one block.
use vstd::prelude::*;

use std::sync::Arc;

use crate::call::EthereumCall;
use crate::primitives::{lower_hex, Address, Bloom, H256, H64, U256};
use crate::receipt::{copy_receipt, Log, StoreTransactionReceipt, TransactionReceipt};
use crate::transaction::{LightTransaction, LightTransactionView, Transaction};

verus! {

/// A block's height in the chain.
pub type BlockNumber = i32;

/// A block header and body, generic over how its transactions are held.
#[derive(Clone, Debug, Default, PartialEq)]
pub struct Block<TX> {
    pub hash: Option<H256>,
    pub parent_hash: H256,
    pub uncles_hash: H256,
    pub author: Address,
    pub state_root: H256,
    pub transactions_root: H256,
    pub receipts_root: H256,
    pub number: Option<u64>,
    pub gas_used: U256,
    pub gas_limit: U256,
    pub base_fee_per_gas: Option<U256>,
    pub extra_data: Vec<u8>,
    pub logs_bloom: Option<Bloom>,
    /// Seconds since the epoch.
    pub timestamp: U256,
    pub difficulty: U256,
    pub total_difficulty: Option<U256>,
    pub seal_fields: Vec<Vec<u8>>,
    pub uncles: Vec<H256>,
    pub transactions: Vec<TX>,
    pub size: Option<U256>,
    pub mix_hash: Option<H256>,
    pub nonce: Option<H64>,
}

/// A block with full transaction records: the legacy form.
pub type LightEthereumBlockV1 = Block<Transaction>;

/// A block with light transaction records: the canonical form.
pub type LightEthereumBlockV2 = Block<LightTransaction>;

pub type LightEthereumBlock = LightEthereumBlockV2;

/// Whether two blocks agree on every field but their transactions.
pub open spec fn same_header<A, B>(a: Block<A>, b: Block<B>) -> bool {
    &&& a.hash == b.hash
    &&& a.parent_hash == b.parent_hash
    &&& a.uncles_hash == b.uncles_hash
    &&& a.author == b.author
    &&& a.state_root == b.state_root
    &&& a.transactions_root == b.transactions_root
    &&& a.receipts_root == b.receipts_root
    &&& a.number == b.number
    &&& a.gas_used == b.gas_used
    &&& a.gas_limit == b.gas_limit
    &&& a.base_fee_per_gas == b.base_fee_per_gas
    &&& a.extra_data == b.extra_data
    &&& a.logs_bloom == b.logs_bloom
    &&& a.timestamp == b.timestamp
    &&& a.difficulty == b.difficulty
    &&& a.total_difficulty == b.total_difficulty
    &&& a.seal_fields == b.seal_fields
    &&& a.uncles == b.uncles
    &&& a.size == b.size
    &&& a.mix_hash == b.mix_hash
    &&& a.nonce == b.nonce
}

/// Whether `v2` is the upgrade of `v1`: the same header, and the light form
/// of each transaction, in the same order.
pub open spec fn upgraded(v1: LightEthereumBlockV1, v2: LightEthereumBlockV2) -> bool {
    &&& same_header(v1, v2)
    &&& v2.transactions@.len() == v1.transactions@.len()
    &&& forall|i: int|
        0 <= i < v1.transactions@.len() ==> (#[trigger] v2.transactions@[i])@
            == v1.transactions@[i].light()
}

/// Conversion of a legacy block into another form.
pub trait LightEthereumBlockFromV1To<T>: Sized {
    fn from_v1(block: LightEthereumBlockV1) -> T;
}

impl LightEthereumBlockFromV1To<LightEthereumBlock> for LightEthereumBlock {
    fn from_v1(block: LightEthereumBlockV1) -> (r: LightEthereumBlock)
        ensures
            upgraded(block, r),
    {
        let mut transactions: Vec<LightTransaction> = Vec::with_capacity(block.transactions.len());
        let mut i: usize = 0;
        while i < block.transactions.len()
            invariant
                i <= block.transactions@.len(),
                transactions@.len() == i,
                forall|j: int|
                    0 <= j < i ==> (#[trigger] transactions@[j])@ == block.transactions@[j].light(),
            decreases block.transactions@.len() - i,
        {
            transactions.push(LightTransaction::from(&block.transactions[i]));
            i = i + 1;
        }
        Block {
            hash: block.hash,
            parent_hash: block.parent_hash,
            uncles_hash: block.uncles_hash,
            author: block.author,
            state_root: block.state_root,
            transactions_root: block.transactions_root,
            receipts_root: block.receipts_root,
            number: block.number,
            gas_used: block.gas_used,
            gas_limit: block.gas_limit,
            base_fee_per_gas: block.base_fee_per_gas,
            extra_data: block.extra_data,
            logs_bloom: block.logs_bloom,
            timestamp: block.timestamp,
            difficulty: block.difficulty,
            total_difficulty: block.total_difficulty,
            seal_fields: block.seal_fields,
            uncles: block.uncles,
            transactions,
            size: block.size,
            mix_hash: block.mix_hash,
            nonce: block.nonce,
        }
    }
}

/// The error of a block conversion that cannot fail.
#[derive(Debug)]
pub struct ConversionError;

/// Conversion of a legacy block, with a recoverable result.
pub trait LightEthereumBlockTryFromV1To<T>: Sized {
    /// Whether `r` is the result of converting `block`.
    spec fn converts_to(block: LightEthereumBlockV1, r: T) -> bool;

    fn try_from(block: LightEthereumBlockV1) -> (r: T)
        ensures
            Self::converts_to(block, r),
    ;
}

impl LightEthereumBlockTryFromV1To<Result<LightEthereumBlock, ConversionError>> for LightEthereumBlock {
    /// The conversion never fails: the result is `Ok` of the upgrade.
    open spec fn converts_to(
        block: LightEthereumBlockV1,
        r: Result<LightEthereumBlock, ConversionError>,
    ) -> bool {
        r matches Ok(v) && upgraded(block, v)
    }

    fn try_from(block: LightEthereumBlockV1) -> (r: Result<LightEthereumBlock, ConversionError>) {
        Ok(<LightEthereumBlock as LightEthereumBlockFromV1To<LightEthereumBlock>>::from_v1(block))
    }
}

/// A block's position in the chain: its hash and height.
#[derive(Clone, Copy, Debug, PartialEq, Eq)]
pub struct BlockPtr {
    pub hash: H256,
    pub number: BlockNumber,
}

impl BlockPtr {
    /// The pointer at a hash and a height that must fit a `BlockNumber`.
    pub fn from_hash_and_height(hash: H256, number: u64) -> (r: BlockPtr)
        requires
            number <= i32::MAX,
        ensures
            r.hash == hash,
            r.number as int == number as int,
    {
        BlockPtr { hash, number: number as i32 }
    }
}

/// A block's time: whole seconds and nanoseconds since the epoch.
#[derive(Clone, Copy, Debug, PartialEq, Eq)]
pub struct BlockTime {
    pub secs: i64,
    pub nanos: u32,
}

impl BlockTime {
    pub fn since_epoch(secs: i64, nanos: u32) -> (r: BlockTime)
        ensures
            r.secs == secs,
            r.nanos == nanos,
    {
        BlockTime { secs, nanos }
    }
}

/// The digits of `n` in base ten.
pub open spec fn decimal(n: nat) -> Seq<char>
    decreases n,
{
    if n < 10 {
        seq![(n + 48) as char]
    } else {
        decimal(n / 10).push(((n % 10) + 48) as char)
    }
}

/// The decimal digits of `n`.
///
/// Relies on std's `Display` for `u64`, which writes the decimal digits with
/// no sign and no leading zeros.
#[verifier::external_body]
fn decimal_string(n: u64) -> (r: String)
    ensures
        r@ == decimal(n as nat),
{
    n.to_string()
}

/// The text of `format`: the height as `#n` or `none`, then the hash in hex
/// or `-` in parentheses.
pub open spec fn block_label(number: Option<u64>, hash: Option<H256>) -> Seq<char> {
    let n = match number {
        Some(n) => seq!['#'] + decimal(n as nat),
        None => seq!['n', 'o', 'n', 'e'],
    };
    let h = match hash {
        Some(h) => lower_hex(h@),
        None => seq!['-'],
    };
    n + seq![' ', '('] + h + seq![')']
}

/// Whether `r` is the first transaction of `txs` whose hash is `hash`, or
/// nothing where no hash is given or none matches.
pub open spec fn found_transaction(
    txs: Seq<LightTransaction>,
    hash: Option<H256>,
    r: Option<LightTransactionView>,
) -> bool {
    match hash {
        None => r.is_none(),
        Some(h) => match r {
            None => forall|i: int| 0 <= i < txs.len() ==> (#[trigger] txs[i]).hash@ != h@,
            Some(t) => exists|i: int|
                0 <= i < txs.len() && (#[trigger] txs[i]).hash@ == h@ && t == txs[i]@ && forall|
                    j: int,
                | 0 <= j < i ==> (#[trigger] txs[j]).hash@ != h@,
        },
    }
}

/// The view of an optional light transaction.
pub open spec fn opt_view(t: Option<LightTransaction>) -> Option<LightTransactionView> {
    match t {
        Some(t) => Some(t@),
        None => None,
    }
}

/// The first transaction of `txs` whose hash is `hash`, copied.
fn find_transaction(txs: &Vec<LightTransaction>, hash: Option<H256>) -> (r: Option<
    LightTransaction,
>)
    ensures
        found_transaction(txs@, hash, opt_view(r)),
{
    match hash {
        None => None,
        Some(h) => {
            let mut i: usize = 0;
            while i < txs.len()
                invariant
                    hash == Some(h),
                    i <= txs@.len(),
                    forall|j: int| 0 <= j < i ==> (#[trigger] txs@[j]).hash@ != h@,
                decreases txs@.len() - i,
            {
                if txs[i].hash == h {
                    let t = txs[i].copy();
                    assert(0 <= i < txs@.len() && txs@[i as int].hash@ == h@ && t@ == txs@[i as int]@
                        && forall|j: int| 0 <= j < i ==> (#[trigger] txs@[j]).hash@ != h@);
                    return Some(t);
                }
                i = i + 1;
            }
            None
        },
    }
}

/// Read-only queries against a block. `LightEthereumBlock` has inherent
/// methods of the same names and contracts; its impl of this trait forwards
/// to them.
pub trait LightEthereumBlockExt: Sized {
    /// Whether the block carries a height that fits a `BlockNumber`.
    spec fn has_number(&self) -> bool;

    /// Whether the block carries its hash and a height that fits a `BlockNumber`.
    spec fn has_position(&self) -> bool;

    /// Whether the block's timestamp fits an `i64`.
    spec fn has_timestamp(&self) -> bool;

    fn number(&self) -> BlockNumber
        requires
            self.has_number(),
    ;

    fn transaction_for_log(&self, log: &Log) -> Option<LightTransaction>;

    fn transaction_for_call(&self, call: &EthereumCall) -> Option<LightTransaction>;

    fn parent_ptr(&self) -> Option<BlockPtr>
        requires
            self.has_number(),
    ;

    fn format(&self) -> String;

    fn block_ptr(&self) -> BlockPtr
        requires
            self.has_position(),
    ;

    fn timestamp(&self) -> BlockTime
        requires
            self.has_timestamp(),
    ;
}

impl LightEthereumBlock {
    /// The block's height.
    pub fn number(&self) -> (r: BlockNumber)
        requires
            self.number matches Some(n) && n <= i32::MAX,
        ensures
            r as int == self.number.unwrap() as int,
    {
        match self.number {
            Some(n) => n as i32,
            None => 0,
        }
    }

    /// The transaction that emitted `log`, if the block holds it.
    pub fn transaction_for_log(&self, log: &Log) -> (r: Option<LightTransaction>)
        ensures
            found_transaction(self.transactions@, log.transaction_hash, opt_view(r)),
    {
        find_transaction(&self.transactions, log.transaction_hash)
    }

    /// The transaction of `call`, if the block holds it.
    pub fn transaction_for_call(&self, call: &EthereumCall) -> (r: Option<LightTransaction>)
        ensures
            found_transaction(self.transactions@, call.transaction_hash, opt_view(r)),
    {
        find_transaction(&self.transactions, call.transaction_hash)
    }

    /// The parent's position, or `None` for the genesis block.
    pub fn parent_ptr(&self) -> (r: Option<BlockPtr>)
        requires
            self.number matches Some(n) && n <= i32::MAX,
        ensures
            self.number == Some(0u64) ==> r.is_none(),
            self.number != Some(0u64) ==> r == Some(
                BlockPtr { hash: self.parent_hash, number: (self.number.unwrap() - 1) as i32 },
            ),
    {
        let n = self.number();
        if n == 0 {
            None
        } else {
            Some(BlockPtr { hash: self.parent_hash, number: n - 1 })
        }
    }

    /// A label for diagnostics: `#height (hash)`, with `none` or `-` for a
    /// missing field.
    pub fn format(&self) -> (r: String)
        ensures
            r@ == block_label(self.number, self.hash),
    {
        proof {
            reveal_strlit("#");
            reveal_strlit("none");
            reveal_strlit("-");
            reveal_strlit(" (");
            reveal_strlit(")");
        }
        let mut r = match self.number {
            Some(n) => {
                let mut label = "#".to_owned();
                label.append(decimal_string(n).as_str());
                label
            },
            None => "none".to_owned(),
        };
        r.append(" (");
        match self.hash {
            Some(h) => r.append(h.to_lower_hex().as_str()),
            None => r.append("-"),
        }
        r.append(")");
        assert(r@ =~= block_label(self.number, self.hash));
        r
    }

    /// The block's own position.
    pub fn block_ptr(&self) -> (r: BlockPtr)
        requires
            self.hash.is_some(),
            self.number matches Some(n) && n <= i32::MAX,
        ensures
            Some(r.hash) == self.hash,
            r.number as int == self.number.unwrap() as int,
    {
        match (self.hash, self.number) {
            (Some(h), Some(n)) => BlockPtr::from_hash_and_height(h, n),
            _ => BlockPtr::from_hash_and_height(self.parent_hash, 0),
        }
    }

    /// The block's time, with no sub-second part.
    pub fn timestamp(&self) -> (r: BlockTime)
        requires
            self.timestamp.fits_u64(),
            self.timestamp.value() <= i64::MAX,
        ensures
            r.secs as int == self.timestamp.value(),
            r.nanos == 0,
    {
        let ts = self.timestamp.as_u64() as i64;
        BlockTime::since_epoch(ts, 0)
    }
}

impl LightEthereumBlockExt for LightEthereumBlock {
    open spec fn has_number(&self) -> bool {
        self.number matches Some(n) && n <= i32::MAX
    }

    open spec fn has_position(&self) -> bool {
        self.hash.is_some() && self.has_number()
    }

    open spec fn has_timestamp(&self) -> bool {
        self.timestamp.fits_u64() && self.timestamp.value() <= i64::MAX
    }

    fn number(&self) -> (r: BlockNumber)
        ensures
            r as int == self.number.unwrap() as int,
    {
        LightEthereumBlock::number(self)
    }

    fn transaction_for_log(&self, log: &Log) -> (r: Option<LightTransaction>)
        ensures
            found_transaction(self.transactions@, log.transaction_hash, opt_view(r)),
    {
        LightEthereumBlock::transaction_for_log(self, log)
    }

    fn transaction_for_call(&self, call: &EthereumCall) -> (r: Option<LightTransaction>)
        ensures
            found_transaction(self.transactions@, call.transaction_hash, opt_view(r)),
    {
        LightEthereumBlock::transaction_for_call(self, call)
    }

    fn parent_ptr(&self) -> (r: Option<BlockPtr>)
        ensures
            self.number == Some(0u64) ==> r.is_none(),
            self.number != Some(0u64) ==> r == Some(
                BlockPtr { hash: self.parent_hash, number: (self.number.unwrap() - 1) as i32 },
            ),
    {
        LightEthereumBlock::parent_ptr(self)
    }

    fn format(&self) -> (r: String)
        ensures
            r@ == block_label(self.number, self.hash),
    {
        LightEthereumBlock::format(self)
    }

    fn block_ptr(&self) -> (r: BlockPtr)
        ensures
            Some(r.hash) == self.hash,
            r.number as int == self.number.unwrap() as int,
    {
        LightEthereumBlock::block_ptr(self)
    }

    fn timestamp(&self) -> (r: BlockTime)
        ensures
            r.secs as int == self.timestamp.value(),
            r.nanos == 0,
    {
        LightEthereumBlock::timestamp(self)
    }
}

/// A block with its receipts, in the legacy form.
#[derive(Clone, Debug, Default, PartialEq)]
pub struct EthereumBlockV1 {
    pub block: Arc<LightEthereumBlock>,
    /// One receipt per transaction, in no guaranteed order.
    pub transaction_receipts: Vec<Arc<TransactionReceipt>>,
}

/// A block with its receipts, in the canonical form.
#[derive(Clone, Debug, Default, PartialEq)]
pub struct EthereumBlockV2 {
    pub block: Arc<LightEthereumBlock>,
    /// One receipt per transaction, in no guaranteed order.
    pub transaction_receipts: Vec<Arc<StoreTransactionReceipt>>,
}

pub type EthereumBlock = EthereumBlockV2;

/// Whether `v2` holds the block of `v1` and the store record of each of its
/// receipts, in the same order.
pub open spec fn receipts_upgraded(v1: EthereumBlockV1, v2: EthereumBlockV2) -> bool {
    &&& v2.block == v1.block
    &&& v2.transaction_receipts@.len() == v1.transaction_receipts@.len()
    &&& forall|i: int|
        0 <= i < v1.transaction_receipts@.len() ==> (#[trigger] v2.transaction_receipts@[i])@
            == v1.transaction_receipts@[i].store()
}

impl From<EthereumBlockV1> for EthereumBlockV2 {
    fn from(b: EthereumBlockV1) -> (r: EthereumBlockV2)
        ensures
            receipts_upgraded(b, r),
    {
        let mut receipts: Vec<Arc<StoreTransactionReceipt>> = Vec::with_capacity(
            b.transaction_receipts.len(),
        );
        let mut i: usize = 0;
        while i < b.transaction_receipts.len()
            invariant
                i <= b.transaction_receipts@.len(),
                receipts@.len() == i,
                forall|j: int|
                    0 <= j < i ==> (#[trigger] receipts@[j])@ == b.transaction_receipts@[j].store(),
            decreases b.transaction_receipts@.len() - i,
        {
            let receipt = copy_receipt(&b.transaction_receipts[i]);
            receipts.push(Arc::new(StoreTransactionReceipt::from(receipt)));
            i = i + 1;
        }
        EthereumBlockV2 { block: b.block, transaction_receipts: receipts }
    }
}

/// Receipts are copied out of their shared pointers, so the result is the
/// store form through its view only: the `ensures` of `from` states that.
impl vstd::std_specs::convert::FromSpecImpl<EthereumBlockV1> for EthereumBlockV2 {
    open spec fn obeys_from_spec() -> bool {
        false
    }

    open spec fn from_spec(b: EthereumBlockV1) -> EthereumBlockV2 {
        arbitrary()
    }
}

/// Whether a block carries its hash and a height that fits a `BlockNumber`.
pub open spec fn has_position(b: LightEthereumBlock) -> bool {
    b.hash.is_some() && (b.number matches Some(n) && n <= i32::MAX)
}

/// The position of a block that carries its hash and height. A block that
/// lacks either, or whose height does not fit a `BlockNumber`, has no position:
/// for it the result is the all-zero hash at height 0.
fn position_of(b: &LightEthereumBlock) -> (r: BlockPtr)
    ensures
        has_position(*b) ==> Some(r.hash) == b.hash && r.number as int == b.number.unwrap() as int,
        !has_position(*b) ==> r.hash@ == Seq::new(32, |_i: int| 0u8) && r.number == 0,
{
    match (b.hash, b.number) {
        (Some(h), Some(n)) => {
            if n <= i32::MAX as u64 {
                return BlockPtr::from_hash_and_height(h, n);
            }
        },
        _ => {},
    }
    let zero = H256([0u8; 32]);
    assert(zero@ =~= Seq::new(32, |_i: int| 0u8));
    BlockPtr { hash: zero, number: 0 }
}

impl From<EthereumBlock> for BlockPtr {
    fn from(b: EthereumBlock) -> (r: BlockPtr)
        ensures
            has_position(*b.block) ==> Some(r.hash) == b.block.hash && r.number as int
                == b.block.number.unwrap() as int,
            !has_position(*b.block) ==> r.hash@ == Seq::new(32, |_i: int| 0u8) && r.number == 0,
    {
        position_of(&b.block)
    }
}

/// The position is stated by the `ensures` of `from`.
impl vstd::std_specs::convert::FromSpecImpl<EthereumBlock> for BlockPtr {
    open spec fn obeys_from_spec() -> bool {
        false
    }

    open spec fn from_spec(b: EthereumBlock) -> BlockPtr {
        arbitrary()
    }
}

impl<'a> From<&'a EthereumBlock> for BlockPtr {
    fn from(b: &'a EthereumBlock) -> (r: BlockPtr)
        ensures
            has_position(*b.block) ==> Some(r.hash) == b.block.hash && r.number as int
                == b.block.number.unwrap() as int,
            !has_position(*b.block) ==> r.hash@ == Seq::new(32, |_i: int| 0u8) && r.number == 0,
    {
        position_of(&b.block)
    }
}

/// The position is stated by the `ensures` of `from`.
impl<'a> vstd::std_specs::convert::FromSpecImpl<&'a EthereumBlock> for BlockPtr {
    open spec fn obeys_from_spec() -> bool {
        false
    }

    open spec fn from_spec(b: &'a EthereumBlock) -> BlockPtr {
        arbitrary()
    }
}

} // verus!
