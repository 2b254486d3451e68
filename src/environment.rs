use vstd::prelude::*;
use crate::types::{Address, Word};

verus! {

/// The fields of a fetched block header that the replay reads.
#[derive(Clone, Copy, Debug, PartialEq, Eq, Structural)]
pub struct BlockHeader {
    pub timestamp: Word,
    pub miner: Address,
    pub difficulty: Word,
    pub mix_hash: Option<Word>,
    pub base_fee_per_gas: Option<Word>,
    pub gas_limit: Word,
    pub excess_blob_gas: Option<u64>,
}

/// Block-level execution parameters shared by every replayed transaction.
#[derive(Clone, Copy, Debug, PartialEq, Eq, Structural)]
pub struct BlockContext {
    pub number: Word,
    pub timestamp: Word,
    pub coinbase: Address,
    pub difficulty: Word,
    pub prevrandao: Option<Word>,
    pub basefee: Word,
    pub gas_limit: Word,
}

/// The block whose state the run forks from: the parent of the target's block.
pub fn fork_block_number(block: u64) -> (r: Option<u64>)
    ensures
        block >= 1 ==> r == Some((block - 1) as u64),
        block == 0 ==> r.is_none(),
{
    if block >= 1 {
        Some(block - 1)
    } else {
        None
    }
}

pub open spec fn block_context_spec(
    template: BlockContext,
    block: u64,
    header: Option<BlockHeader>,
) -> BlockContext {
    match header {
        None => BlockContext { number: Word { hi: 0, lo: block as u128 }, ..template },
        Some(h) => BlockContext {
            number: Word { hi: 0, lo: block as u128 },
            timestamp: h.timestamp,
            coinbase: h.miner,
            difficulty: h.difficulty,
            prevrandao: Some(
                match h.mix_hash {
                    Some(m) => m,
                    None => Word { hi: 0, lo: 0 },
                },
            ),
            basefee: match h.base_fee_per_gas {
                Some(f) => f,
                None => Word { hi: 0, lo: 0 },
            },
            gas_limit: h.gas_limit,
        },
    }
}

/// Sets the block number of the forked environment to the target's block and,
/// where the block was fetched, copies its header in: a missing randao value
/// and a missing base fee become zero.
pub fn build_block_context(template: BlockContext, block: u64, header: Option<BlockHeader>) -> (r:
    BlockContext)
    ensures
        r == block_context_spec(template, block, header),
        r.number.value() == block as nat,
{
    let mut ctx = template;
    ctx.number = Word::from_u64(block);
    match header {
        None => {},
        Some(h) => {
            ctx.timestamp = h.timestamp;
            ctx.coinbase = h.miner;
            ctx.difficulty = h.difficulty;
            ctx.prevrandao = Some(
                match h.mix_hash {
                    Some(m) => m,
                    None => Word::zero(),
                },
            );
            ctx.basefee = match h.base_fee_per_gas {
                Some(f) => f,
                None => Word::zero(),
            };
            ctx.gas_limit = h.gas_limit;
        },
    }
    ctx
}

pub open spec fn evm_version_spec<V>(
    explicit: Option<V>,
    header: Option<BlockHeader>,
    blob_version: V,
) -> Option<V> {
    if explicit.is_some() {
        explicit
    } else if header.is_some() && header.unwrap().excess_blob_gas.is_some() {
        Some(blob_version)
    } else {
        None
    }
}

/// The protocol version to execute with. A version that the caller pinned is
/// kept. Otherwise a header that carries an excess-blob-gas field is taken as
/// a block of the blob-carrying version; this is a heuristic that holds for
/// one protocol transition only. With neither, no version is chosen.
pub fn select_evm_version<V>(explicit: Option<V>, header: &Option<BlockHeader>, blob_version: V) -> (r:
    Option<V>)
    ensures
        r == evm_version_spec(explicit, *header, blob_version),
{
    match explicit {
        Some(v) => Some(v),
        None => match header {
            Some(h) => match h.excess_blob_gas {
                Some(_) => Some(blob_version),
                None => None,
            },
            None => None,
        },
    }
}

/// The compute units per second given to the provider: unlimited where rate
/// limiting is switched off, else what the caller asked for.
pub fn compute_units_per_second(no_rate_limit: bool, requested: Option<u64>) -> (r: Option<u64>)
    ensures
        no_rate_limit ==> r == Some(u64::MAX),
        !no_rate_limit ==> r == requested,
{
    if no_rate_limit {
        Some(u64::MAX)
    } else {
        requested
    }
}

} // verus!
