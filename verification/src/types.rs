use vstd::prelude::*;

verus! {

/// Column identifier of the key-value database.
pub type Col = u32;

/// Height of a block.
pub type BlockNumber = u64;

/// Index of an epoch.
pub type EpochNumber = u64;

/// Capacity in shannons.
pub type Capacity = u64;

/// The out point of a cell: the transaction that created it and the output index.
#[derive(Clone, Copy, Debug, PartialEq, Eq)]
pub struct CellOutPoint {
    pub tx_hash: [u8; 32],
    pub index: u32,
}

/// The block in which a cell was committed.
#[derive(Clone, Copy, Debug, PartialEq, Eq)]
pub struct BlockInfo {
    pub number: BlockNumber,
    pub epoch: EpochNumber,
}

/// Metadata of a live or resolved cell.
#[derive(Clone, Copy, Debug, PartialEq, Eq)]
pub struct CellMeta {
    pub out_point: CellOutPoint,
    pub block_info: Option<BlockInfo>,
    pub cellbase: bool,
    pub capacity: Capacity,
    pub data_bytes: u64,
    pub data_hash: Option<[u8; 32]>,
}

/// Where a committed transaction sits in the chain.
#[derive(Clone, Copy, Debug, PartialEq, Eq)]
pub struct TransactionInfo {
    pub block_hash: [u8; 32],
    pub block_number: BlockNumber,
    pub block_epoch: EpochNumber,
    pub index: usize,
}

} // verus!
