use vstd::prelude::*;

use vstd::bytes::{spec_u64_from_le_bytes, spec_u64_to_le_bytes, u64_from_le_bytes, u64_to_le_bytes};

use crate::hash::h256_from_slice;
use crate::records::{
    computed_transaction_hash, decode_block_ext, decode_cell_entry, decode_epoch_ext,
    decode_header_view, decode_proposal_ids, decode_transaction_info, decode_transaction_outputs,
    decode_transactions, decode_uncles, decoded_block_ext, decoded_cell_entry, decoded_epoch_ext,
    decoded_header_view, decoded_proposal_ids, decoded_transaction_info,
    decoded_transaction_outputs, decoded_transactions, decoded_uncles, transaction_hash, vecs_view,
};
use crate::types::{
    BlockInfo, BlockNumber, Capacity, CellMeta, CellOutPoint, Col, EpochNumber, TransactionInfo,
};

verus! {

/// Block number <-> block hash index.
pub const COLUMN_INDEX: Col = 0;
/// Block hash -> stored header.
pub const COLUMN_BLOCK_HEADER: Col = 1;
/// Block hash -> stored block body (its transactions).
pub const COLUMN_BLOCK_BODY: Col = 2;
/// Block hash -> stored uncle blocks.
pub const COLUMN_BLOCK_UNCLE: Col = 3;
/// Meta keys (tip, current epoch).
pub const COLUMN_META: Col = 4;
/// Transaction hash -> stored transaction info.
pub const COLUMN_TRANSACTION_INFO: Col = 5;
/// Block hash -> stored block ext.
pub const COLUMN_BLOCK_EXT: Col = 6;
/// Block hash -> stored proposal short ids.
pub const COLUMN_BLOCK_PROPOSAL_IDS: Col = 7;
/// Block hash -> epoch index.
pub const COLUMN_BLOCK_EPOCH: Col = 8;
/// Epoch index -> stored epoch ext; epoch number -> epoch index.
pub const COLUMN_EPOCH: Col = 9;
/// Transaction hash -> stored transaction meta.
pub const COLUMN_CELL_SET: Col = 10;
/// Uncle block hashes.
pub const COLUMN_UNCLES: Col = 11;
/// Cell key -> stored cell meta.
pub const COLUMN_CELL_META: Col = 12;

/// The key of the tip header in `COLUMN_META`: the ASCII bytes `TIP_HEADER`.
pub open spec fn spec_meta_tip_header_key() -> Seq<u8> {
    seq![84u8, 73u8, 80u8, 95u8, 72u8, 69u8, 65u8, 68u8, 69u8, 82u8]
}

/// The key of the current epoch in `COLUMN_META`: the ASCII bytes `CURRENT_EPOCH`.
pub open spec fn spec_meta_current_epoch_key() -> Seq<u8> {
    seq![67u8, 85u8, 82u8, 82u8, 69u8, 78u8, 84u8, 95u8, 69u8, 80u8, 79u8, 67u8, 72u8]
}

/// The bytes of `TIP_HEADER`.
pub fn meta_tip_header_key() -> (r: Vec<u8>)
    ensures
        r@ == spec_meta_tip_header_key(),
{
    let r: Vec<u8> = vec![84u8, 73u8, 80u8, 95u8, 72u8, 69u8, 65u8, 68u8, 69u8, 82u8];
    assert(r@ =~= spec_meta_tip_header_key());
    r
}

/// The bytes of `CURRENT_EPOCH`.
pub fn meta_current_epoch_key() -> (r: Vec<u8>)
    ensures
        r@ == spec_meta_current_epoch_key(),
{
    let r: Vec<u8> = vec![67u8, 85u8, 82u8, 82u8, 69u8, 78u8, 84u8, 95u8, 69u8, 80u8, 79u8, 67u8, 72u8];
    assert(r@ =~= spec_meta_current_epoch_key());
    r
}

/// Big-endian bytes of a `u32`.
pub open spec fn spec_u32_to_be_bytes(x: u32) -> Seq<u8> {
    seq![
        ((x >> 24) & 0xff) as u8,
        ((x >> 16) & 0xff) as u8,
        ((x >> 8) & 0xff) as u8,
        (x & 0xff) as u8,
    ]
}

/// The key of a cell in `COLUMN_CELL_META`: the transaction hash followed by
/// the big-endian output index, so that the cells of a transaction sort by
/// index.
pub open spec fn spec_cell_key(tx_hash: Seq<u8>, index: u32) -> Seq<u8> {
    tx_hash + spec_u32_to_be_bytes(index)
}

/// Builds the key of a cell in `COLUMN_CELL_META`.
pub fn cell_key(tx_hash: &[u8; 32], index: u32) -> (r: Vec<u8>)
    ensures
        r@ == spec_cell_key(tx_hash@, index),
        r@.len() == 36,
{
    let mut key: Vec<u8> = Vec::new();
    let mut i: usize = 0;
    while i < 32
        invariant
            0 <= i <= 32,
            tx_hash@.len() == 32,
            key@ == tx_hash@.subrange(0, i as int),
        decreases 32 - i,
    {
        key.push(tx_hash[i]);
        i = i + 1;
        assert(key@ =~= tx_hash@.subrange(0, i as int));
    }
    key.push(((index >> 24) & 0xff) as u8);
    key.push(((index >> 16) & 0xff) as u8);
    key.push(((index >> 8) & 0xff) as u8);
    key.push((index & 0xff) as u8);
    assert(key@ =~= spec_cell_key(tx_hash@, index));
    key
}

/// Distinct cells have distinct keys.
pub proof fn lemma_cell_key_injective(h1: Seq<u8>, i1: u32, h2: Seq<u8>, i2: u32)
    requires
        h1.len() == 32,
        h2.len() == 32,
        spec_cell_key(h1, i1) == spec_cell_key(h2, i2),
    ensures
        h1 == h2,
        i1 == i2,
{
    let k1 = spec_cell_key(h1, i1);
    let k2 = spec_cell_key(h2, i2);
    let b1 = spec_u32_to_be_bytes(i1);
    let b2 = spec_u32_to_be_bytes(i2);
    assert(h1 =~= k1.subrange(0, 32));
    assert(h2 =~= k2.subrange(0, 32));
    assert(b1 =~= k1.subrange(32, 36));
    assert(b2 =~= k2.subrange(32, 36));
    assert(b1 == b2);
    assert(b1[0] == b2[0] && b1[1] == b2[1] && b1[2] == b2[2] && b1[3] == b2[3]);
    assert((((i1 >> 24) & 0xff) as u8 == ((i2 >> 24) & 0xff) as u8 && ((i1 >> 16) & 0xff) as u8
        == ((i2 >> 16) & 0xff) as u8 && ((i1 >> 8) & 0xff) as u8 == ((i2 >> 8) & 0xff) as u8 && (i1
        & 0xff) as u8 == (i2 & 0xff) as u8) ==> i1 == i2) by (bit_vector);
}

/// The bytes of an optional stored value.
pub open spec fn opt_bytes(r: Option<Vec<u8>>) -> Option<Seq<u8>> {
    match r {
        Some(v) => Some(v@),
        None => None,
    }
}

/// The bytes of each item of an optional list.
pub open spec fn opt_vecs(r: Option<Vec<Vec<u8>>>) -> Option<Seq<Seq<u8>>> {
    match r {
        Some(v) => Some(vecs_view(v)),
        None => None,
    }
}

/// The bytes of an optional hash.
pub open spec fn opt_hash(r: Option<[u8; 32]>) -> Option<Seq<u8>> {
    match r {
        Some(h) => Some(h@),
        None => None,
    }
}

/// A stored value is absent or exactly one hash long.
pub open spec fn absent_or_hash(v: Option<Seq<u8>>) -> bool {
    v matches Some(b) ==> b.len() == 32
}

/// A record that the database may hold is stored in a form that does not
/// decode.
#[derive(Clone, Copy, Debug, PartialEq, Eq)]
pub struct CorruptRecord;

/// The decoded records a block is made of: its header view, its
/// transactions, its uncles and its proposal short ids, each by its bytes.
#[derive(Debug, PartialEq, Eq)]
pub struct BlockRecords {
    pub header: Vec<u8>,
    pub transactions: Vec<Vec<u8>>,
    pub uncles: Vec<Vec<u8>>,
    pub proposals: Vec<Vec<u8>>,
}

/// The contents of the chain database: the value stored under each column
/// and key.
pub type DbView = Map<(Col, Seq<u8>), Seq<u8>>;

/// The value stored under `key` in column `col`.
pub open spec fn db_get(db: DbView, col: Col, key: Seq<u8>) -> Option<Seq<u8>> {
    if db.contains_key((col, key)) {
        Some(db[(col, key)])
    } else {
        None
    }
}

/// The stored header record of a block.
pub open spec fn stored_block_header(db: DbView, hash: Seq<u8>) -> Option<Seq<u8>> {
    db_get(db, COLUMN_BLOCK_HEADER, hash)
}

/// The stored body record of a block.
pub open spec fn stored_block_body(db: DbView, hash: Seq<u8>) -> Option<Seq<u8>> {
    db_get(db, COLUMN_BLOCK_BODY, hash)
}

/// The stored proposal short id record of a block.
pub open spec fn stored_block_proposal_ids(db: DbView, hash: Seq<u8>) -> Option<Seq<u8>> {
    db_get(db, COLUMN_BLOCK_PROPOSAL_IDS, hash)
}

/// The stored uncle record of a block.
pub open spec fn stored_block_uncles(db: DbView, hash: Seq<u8>) -> Option<Seq<u8>> {
    db_get(db, COLUMN_BLOCK_UNCLE, hash)
}

/// The stored ext record of a block.
pub open spec fn stored_block_ext(db: DbView, hash: Seq<u8>) -> Option<Seq<u8>> {
    db_get(db, COLUMN_BLOCK_EXT, hash)
}

/// The stored tip record.
pub open spec fn stored_tip(db: DbView) -> Option<Seq<u8>> {
    db_get(db, COLUMN_META, spec_meta_tip_header_key())
}

/// The stored info record of a committed transaction.
pub open spec fn stored_transaction_info(db: DbView, hash: Seq<u8>) -> Option<Seq<u8>> {
    db_get(db, COLUMN_TRANSACTION_INFO, hash)
}

/// The stored meta record of a cell.
pub open spec fn stored_cell_meta(db: DbView, tx_hash: Seq<u8>, index: u32) -> Option<Seq<u8>> {
    db_get(db, COLUMN_CELL_META, spec_cell_key(tx_hash, index))
}

/// The stored ext record of the current epoch.
pub open spec fn stored_current_epoch_ext(db: DbView) -> Option<Seq<u8>> {
    db_get(db, COLUMN_META, spec_meta_current_epoch_key())
}

/// The stored ext record of an epoch, by epoch index.
pub open spec fn stored_epoch_ext(db: DbView, index: Seq<u8>) -> Option<Seq<u8>> {
    db_get(db, COLUMN_EPOCH, index)
}

/// The header view of a block, decoded from its stored record.
pub open spec fn spec_block_header(db: DbView, hash: Seq<u8>) -> Option<Seq<u8>> {
    match stored_block_header(db, hash) {
        Some(b) => decoded_header_view(b),
        None => None,
    }
}

/// The header record of a block, if stored, decodes.
pub open spec fn header_decodable(db: DbView, hash: Seq<u8>) -> bool {
    stored_block_header(db, hash) matches Some(b) ==> decoded_header_view(b) is Some
}

/// The transactions of a block, decoded from its stored body.
pub open spec fn spec_block_body(db: DbView, hash: Seq<u8>) -> Option<Seq<Seq<u8>>> {
    match stored_block_body(db, hash) {
        Some(b) => decoded_transactions(b),
        None => None,
    }
}

/// The body record of a block, if stored, decodes.
pub open spec fn body_decodable(db: DbView, hash: Seq<u8>) -> bool {
    stored_block_body(db, hash) matches Some(b) ==> decoded_transactions(b) is Some
}

/// The proposal short ids of a block, decoded from their stored record.
pub open spec fn spec_block_proposal_ids(db: DbView, hash: Seq<u8>) -> Option<Seq<Seq<u8>>> {
    match stored_block_proposal_ids(db, hash) {
        Some(b) => decoded_proposal_ids(b),
        None => None,
    }
}

/// The proposal short id record of a block, if stored, decodes.
pub open spec fn proposal_ids_decodable(db: DbView, hash: Seq<u8>) -> bool {
    stored_block_proposal_ids(db, hash) matches Some(b) ==> decoded_proposal_ids(b) is Some
}

/// The uncles of a block, decoded from their stored record.
pub open spec fn spec_block_uncles(db: DbView, hash: Seq<u8>) -> Option<Seq<Seq<u8>>> {
    match stored_block_uncles(db, hash) {
        Some(b) => decoded_uncles(b),
        None => None,
    }
}

/// The uncle record of a block, if stored, decodes.
pub open spec fn uncles_decodable(db: DbView, hash: Seq<u8>) -> bool {
    stored_block_uncles(db, hash) matches Some(b) ==> decoded_uncles(b) is Some
}

/// The ext of a block, decoded from its stored record.
pub open spec fn spec_block_ext(db: DbView, hash: Seq<u8>) -> Option<Seq<u8>> {
    match stored_block_ext(db, hash) {
        Some(b) => decoded_block_ext(b),
        None => None,
    }
}

/// The ext record of a block, if stored, decodes.
pub open spec fn block_ext_decodable(db: DbView, hash: Seq<u8>) -> bool {
    stored_block_ext(db, hash) matches Some(b) ==> decoded_block_ext(b) is Some
}

/// A block can be read: its header decodes, and a stored header comes with a
/// body, uncles and proposals that decode.
pub open spec fn block_readable(db: DbView, hash: Seq<u8>) -> bool {
    &&& header_decodable(db, hash)
    &&& stored_block_header(db, hash) is Some ==> {
        &&& spec_block_body(db, hash) is Some
        &&& spec_block_uncles(db, hash) is Some
        &&& spec_block_proposal_ids(db, hash) is Some
    }
}

/// A block: its header view, transactions, uncles and proposal short ids,
/// present when its header is.
pub open spec fn spec_block(db: DbView, hash: Seq<u8>) -> Option<
    (Seq<u8>, Seq<Seq<u8>>, Seq<Seq<u8>>, Seq<Seq<u8>>),
> {
    match spec_block_header(db, hash) {
        Some(header) => Some(
            (
                header,
                spec_block_body(db, hash).unwrap(),
                spec_block_uncles(db, hash).unwrap(),
                spec_block_proposal_ids(db, hash).unwrap(),
            ),
        ),
        None => None,
    }
}

/// The hashes of the transactions of a block, in order.
pub open spec fn spec_block_txs_hashes(db: DbView, hash: Seq<u8>) -> Option<Seq<[u8; 32]>> {
    match spec_block_body(db, hash) {
        Some(txs) => Some(txs.map_values(|tx: Seq<u8>| computed_transaction_hash(tx).unwrap())),
        None => None,
    }
}

/// The body of a block decodes, and so does each of its transactions.
pub open spec fn txs_hashes_readable(db: DbView, hash: Seq<u8>) -> bool {
    &&& body_decodable(db, hash)
    &&& spec_block_body(db, hash) matches Some(txs) ==> forall|i: int|
        0 <= i < txs.len() ==> (#[trigger] computed_transaction_hash(txs[i])) is Some
}

/// The first transaction of a block, its cellbase, when the block has one.
pub open spec fn spec_cellbase(db: DbView, hash: Seq<u8>) -> Option<Seq<u8>> {
    match spec_block_body(db, hash) {
        Some(txs) => if txs.len() > 0 {
            Some(txs[0])
        } else {
            None
        },
        None => None,
    }
}

/// The hash that the index stores for a height.
pub open spec fn spec_block_hash(db: DbView, number: BlockNumber) -> Option<Seq<u8>> {
    db_get(db, COLUMN_INDEX, spec_u64_to_le_bytes(number))
}

/// The height that the index stores for a block hash.
pub open spec fn spec_block_number(db: DbView, hash: Seq<u8>) -> Option<BlockNumber> {
    match db_get(db, COLUMN_INDEX, hash) {
        Some(v) => Some(spec_u64_from_le_bytes(v)),
        None => None,
    }
}

/// The tip header view, decoded from its stored record.
pub open spec fn spec_tip(db: DbView) -> Option<Seq<u8>> {
    match stored_tip(db) {
        Some(b) => decoded_header_view(b),
        None => None,
    }
}

/// The tip record, if stored, decodes.
pub open spec fn tip_decodable(db: DbView) -> bool {
    stored_tip(db) matches Some(b) ==> decoded_header_view(b) is Some
}

/// The info of a committed transaction, decoded from its stored record.
pub open spec fn spec_transaction_info(db: DbView, hash: Seq<u8>) -> Option<TransactionInfo> {
    match stored_transaction_info(db, hash) {
        Some(b) => decoded_transaction_info(b),
        None => None,
    }
}

/// The info record of a transaction, if stored, decodes.
pub open spec fn transaction_info_decodable(db: DbView, hash: Seq<u8>) -> bool {
    stored_transaction_info(db, hash) matches Some(b) ==> decoded_transaction_info(b) is Some
}

/// A committed transaction and the hash of the block that commits it: the
/// transaction at the info's index of that block's body.
pub open spec fn spec_transaction(db: DbView, hash: Seq<u8>) -> Option<(Seq<u8>, [u8; 32])> {
    match spec_transaction_info(db, hash) {
        Some(info) => match spec_block_body(db, info.block_hash@) {
            Some(txs) => if info.index < txs.len() {
                Some((txs[info.index as int], info.block_hash))
            } else {
                None
            },
            None => None,
        },
        None => None,
    }
}

/// The info of a transaction decodes, and so does the body it points to.
pub open spec fn transaction_readable(db: DbView, hash: Seq<u8>) -> bool {
    &&& transaction_info_decodable(db, hash)
    &&& spec_transaction_info(db, hash) matches Some(info) ==> body_decodable(
        db,
        info.block_hash@,
    )
}

/// Output `index` of a committed transaction, by its bytes.
pub open spec fn spec_cell_output(db: DbView, tx_hash: Seq<u8>, index: u32) -> Option<Seq<u8>> {
    match spec_transaction(db, tx_hash) {
        Some((tx, _)) => match decoded_transaction_outputs(tx) {
            Some(outputs) => if index < outputs.len() {
                Some(outputs[index as int])
            } else {
                None
            },
            None => None,
        },
        None => None,
    }
}

/// The transaction of a cell output can be read and its outputs decode.
pub open spec fn cell_output_readable(db: DbView, tx_hash: Seq<u8>) -> bool {
    &&& transaction_readable(db, tx_hash)
    &&& spec_transaction(db, tx_hash) matches Some((tx, _)) ==> decoded_transaction_outputs(
        tx,
    ) is Some
}

/// The meta of a cell, assembled from its stored cell entry and the info of
/// the transaction that created it.
pub open spec fn spec_cell_meta(db: DbView, tx_hash: [u8; 32], index: u32) -> Option<CellMeta> {
    match stored_cell_meta(db, tx_hash@, index) {
        Some(b) => match decoded_cell_entry(b) {
            Some((capacity, data_bytes)) => match spec_transaction_info(db, tx_hash@) {
                Some(info) => Some(
                    spec_cell_meta_from(tx_hash, index, info, capacity, data_bytes, None),
                ),
                None => None,
            },
            None => None,
        },
        None => None,
    }
}

/// The cell entry of a cell decodes, and so does the info of its transaction.
pub open spec fn cell_meta_readable(db: DbView, tx_hash: Seq<u8>, index: u32) -> bool {
    stored_cell_meta(db, tx_hash, index) matches Some(b) ==> {
        &&& decoded_cell_entry(b) is Some
        &&& transaction_info_decodable(db, tx_hash)
    }
}

/// The ext of the current epoch, decoded from its stored record.
pub open spec fn spec_current_epoch_ext(db: DbView) -> Option<Seq<u8>> {
    match stored_current_epoch_ext(db) {
        Some(b) => decoded_epoch_ext(b),
        None => None,
    }
}

/// The current epoch ext record, if stored, decodes.
pub open spec fn current_epoch_ext_decodable(db: DbView) -> bool {
    stored_current_epoch_ext(db) matches Some(b) ==> decoded_epoch_ext(b) is Some
}

/// The ext of an epoch, decoded from its stored record.
pub open spec fn spec_epoch_ext(db: DbView, index: Seq<u8>) -> Option<Seq<u8>> {
    match stored_epoch_ext(db, index) {
        Some(b) => decoded_epoch_ext(b),
        None => None,
    }
}

/// The ext record of an epoch, if stored, decodes.
pub open spec fn epoch_ext_decodable(db: DbView, index: Seq<u8>) -> bool {
    stored_epoch_ext(db, index) matches Some(b) ==> decoded_epoch_ext(b) is Some
}

/// The index of an epoch, by epoch number.
pub open spec fn spec_epoch_index(db: DbView, number: EpochNumber) -> Option<Seq<u8>> {
    db_get(db, COLUMN_EPOCH, spec_u64_to_le_bytes(number))
}

/// The index of the epoch a block belongs to.
pub open spec fn spec_block_epoch_index(db: DbView, hash: Seq<u8>) -> Option<Seq<u8>> {
    db_get(db, COLUMN_BLOCK_EPOCH, hash)
}

/// The ext of the epoch a block belongs to.
pub open spec fn spec_block_epoch(db: DbView, hash: Seq<u8>) -> Option<Seq<u8>> {
    match spec_block_epoch_index(db, hash) {
        Some(index) => spec_epoch_ext(db, index),
        None => None,
    }
}

/// The epoch index of a block is a hash, and the ext it points to decodes.
pub open spec fn block_epoch_readable(db: DbView, hash: Seq<u8>) -> bool {
    &&& absent_or_hash(spec_block_epoch_index(db, hash))
    &&& spec_block_epoch_index(db, hash) matches Some(index) ==> epoch_ext_decodable(db, index)
}

/// The stored meta record of a transaction's outputs.
pub open spec fn spec_tx_meta(db: DbView, hash: Seq<u8>) -> Option<Seq<u8>> {
    db_get(db, COLUMN_CELL_SET, hash)
}

/// Whether a block is recorded as an uncle.
pub open spec fn spec_is_uncle(db: DbView, hash: Seq<u8>) -> bool {
    db_get(db, COLUMN_UNCLES, hash) is Some
}

/// Whether the header of a block is stored.
pub open spec fn spec_block_exists(db: DbView, hash: Seq<u8>) -> bool {
    db_get(db, COLUMN_BLOCK_HEADER, hash) is Some
}

/// The meta of output `index` of transaction `tx_hash`.
pub open spec fn spec_cell_meta_from(
    tx_hash: [u8; 32],
    index: u32,
    tx_info: TransactionInfo,
    capacity: Capacity,
    data_bytes: u64,
    data_hash: Option<[u8; 32]>,
) -> CellMeta {
    CellMeta {
        out_point: CellOutPoint { tx_hash, index },
        block_info: Some(BlockInfo { number: tx_info.block_number, epoch: tx_info.block_epoch }),
        cellbase: tx_info.index == 0,
        capacity,
        data_bytes,
        data_hash,
    }
}

/// Read access to the chain database, by column and key.
///
/// An implementation supplies `get`; every other method says which column and
/// key it reads, decodes the records it reads with the molecule decoders of
/// ckb-types, and combines them. A record that is stored but does not decode
/// is outside what a getter accepts; the `try_` methods answer
/// `Err(CorruptRecord)` for it instead.
pub trait ChainStore: Sized {
    /// The contents of the database.
    spec fn spec_db(&self) -> DbView;

    /// Reads the value stored under `key` in column `col`.
    fn get(&self, col: Col, key: &[u8]) -> (r: Option<Vec<u8>>)
        ensures
            opt_bytes(r) == db_get(self.spec_db(), col, key@),
    ;

    /// The header view of a block.
    fn get_block_header(&self, hash: &[u8; 32]) -> (r: Option<Vec<u8>>)
        requires
            header_decodable(self.spec_db(), hash@),
        ensures
            opt_bytes(r) == spec_block_header(self.spec_db(), hash@),
            opt_bytes(r) == stored_block_header(self.spec_db(), hash@),
    {
        match self.get(COLUMN_BLOCK_HEADER, hash.as_slice()) {
            None => None,
            Some(raw) => Some(decode_header_view(raw.as_slice()).unwrap()),
        }
    }

    /// The transactions of a block, in order.
    fn get_block_body(&self, hash: &[u8; 32]) -> (r: Option<Vec<Vec<u8>>>)
        requires
            body_decodable(self.spec_db(), hash@),
        ensures
            opt_vecs(r) == spec_block_body(self.spec_db(), hash@),
    {
        match self.get(COLUMN_BLOCK_BODY, hash.as_slice()) {
            None => None,
            Some(raw) => Some(decode_transactions(raw.as_slice()).unwrap()),
        }
    }

    /// The hashes of the transactions of a block, in order.
    fn get_block_txs_hashes(&self, hash: &[u8; 32]) -> (r: Option<Vec<[u8; 32]>>)
        requires
            txs_hashes_readable(self.spec_db(), hash@),
        ensures
            match r {
                Some(v) => spec_block_txs_hashes(self.spec_db(), hash@) == Some(v@),
                None => spec_block_txs_hashes(self.spec_db(), hash@) is None,
            },
    {
        let txs = match self.get_block_body(hash) {
            None => {
                return None;
            },
            Some(txs) => txs,
        };
        let ghost txs_view = vecs_view(txs);
        let mut hashes: Vec<[u8; 32]> = Vec::new();
        let mut i: usize = 0;
        while i < txs.len()
            invariant
                0 <= i <= txs@.len(),
                txs_view == vecs_view(txs),
                txs_view.len() == txs@.len(),
                forall|j: int|
                    0 <= j < txs_view.len() ==> (#[trigger] computed_transaction_hash(
                        txs_view[j],
                    )) is Some,
                hashes@ == txs_view.subrange(0, i as int).map_values(
                    |tx: Seq<u8>| computed_transaction_hash(tx).unwrap(),
                ),
            decreases txs@.len() - i,
        {
            assert(txs_view[i as int] == txs@[i as int]@);
            let h = transaction_hash(txs[i].as_slice());
            assert(computed_transaction_hash(txs_view[i as int]) is Some);
            hashes.push(h.unwrap());
            i = i + 1;
            assert(hashes@ =~= txs_view.subrange(0, i as int).map_values(
                |tx: Seq<u8>| computed_transaction_hash(tx).unwrap(),
            ));
        }
        assert(txs_view.subrange(0, i as int) =~= txs_view);
        Some(hashes)
    }

    /// The proposal short ids of a block, in order.
    fn get_block_proposal_txs_ids(&self, hash: &[u8; 32]) -> (r: Option<Vec<Vec<u8>>>)
        requires
            proposal_ids_decodable(self.spec_db(), hash@),
        ensures
            opt_vecs(r) == spec_block_proposal_ids(self.spec_db(), hash@),
    {
        match self.get(COLUMN_BLOCK_PROPOSAL_IDS, hash.as_slice()) {
            None => None,
            Some(raw) => Some(decode_proposal_ids(raw.as_slice()).unwrap()),
        }
    }

    /// The uncles of a block, in order.
    fn get_block_uncles(&self, hash: &[u8; 32]) -> (r: Option<Vec<Vec<u8>>>)
        requires
            uncles_decodable(self.spec_db(), hash@),
        ensures
            opt_vecs(r) == spec_block_uncles(self.spec_db(), hash@),
    {
        match self.get(COLUMN_BLOCK_UNCLE, hash.as_slice()) {
            None => None,
            Some(raw) => Some(decode_uncles(raw.as_slice()).unwrap()),
        }
    }

    /// The ext of a block.
    fn get_block_ext(&self, block_hash: &[u8; 32]) -> (r: Option<Vec<u8>>)
        requires
            block_ext_decodable(self.spec_db(), block_hash@),
        ensures
            opt_bytes(r) == spec_block_ext(self.spec_db(), block_hash@),
            opt_bytes(r) == stored_block_ext(self.spec_db(), block_hash@),
    {
        match self.get(COLUMN_BLOCK_EXT, block_hash.as_slice()) {
            None => None,
            Some(raw) => Some(decode_block_ext(raw.as_slice()).unwrap()),
        }
    }

    /// A block: present exactly when its header is; a stored header comes
    /// with its body, uncles and proposals.
    fn get_block(&self, h: &[u8; 32]) -> (r: Option<BlockRecords>)
        requires
            block_readable(self.spec_db(), h@),
        ensures
            match r {
                Some(b) => spec_block(self.spec_db(), h@) == Some(
                    (b.header@, vecs_view(b.transactions), vecs_view(b.uncles), vecs_view(b.proposals)),
                ),
                None => spec_block(self.spec_db(), h@) is None,
            },
    {
        match self.get_block_header(h) {
            None => None,
            Some(header) => {
                let transactions = self.get_block_body(h).unwrap();
                let uncles = self.get_block_uncles(h).unwrap();
                let proposals = self.get_block_proposal_txs_ids(h).unwrap();
                Some(BlockRecords { header, transactions, uncles, proposals })
            },
        }
    }

    /// The hash of the main-chain block at a height.
    fn get_block_hash(&self, number: BlockNumber) -> (r: Option<[u8; 32]>)
        requires
            absent_or_hash(spec_block_hash(self.spec_db(), number)),
        ensures
            opt_hash(r) == spec_block_hash(self.spec_db(), number),
    {
        let key = u64_to_le_bytes(number);
        match self.get(COLUMN_INDEX, key.as_slice()) {
            None => None,
            Some(raw) => {
                let h = h256_from_slice(raw.as_slice());
                Some(h.unwrap())
            },
        }
    }

    /// The height of a main-chain block.
    fn get_block_number(&self, hash: &[u8; 32]) -> (r: Option<BlockNumber>)
        requires
            db_get(self.spec_db(), COLUMN_INDEX, hash@) matches Some(v) ==> v.len() == 8,
        ensures
            r == spec_block_number(self.spec_db(), hash@),
    {
        match self.get(COLUMN_INDEX, hash.as_slice()) {
            None => None,
            Some(raw) => Some(u64_from_le_bytes(raw.as_slice())),
        }
    }

    /// The header view of the tip.
    fn get_tip(&self) -> (r: Option<Vec<u8>>)
        requires
            tip_decodable(self.spec_db()),
        ensures
            opt_bytes(r) == spec_tip(self.spec_db()),
            opt_bytes(r) == stored_tip(self.spec_db()),
    {
        let key = meta_tip_header_key();
        match self.get(COLUMN_META, key.as_slice()) {
            None => None,
            Some(raw) => Some(decode_header_view(raw.as_slice()).unwrap()),
        }
    }

    /// A committed transaction, by its hash, with the hash of the block that
    /// commits it.
    fn get_transaction(&self, hash: &[u8; 32]) -> (r: Option<(Vec<u8>, [u8; 32])>)
        requires
            transaction_readable(self.spec_db(), hash@),
        ensures
            match r {
                Some((tx, block_hash)) => spec_transaction(self.spec_db(), hash@) == Some(
                    (tx@, block_hash),
                ),
                None => spec_transaction(self.spec_db(), hash@) is None,
            },
    {
        let info = match self.get_transaction_info(hash) {
            None => {
                return None;
            },
            Some(info) => info,
        };
        let mut txs = match self.get_block_body(&info.block_hash) {
            None => {
                return None;
            },
            Some(txs) => txs,
        };
        if info.index < txs.len() {
            let ghost before = vecs_view(txs);
            let tx = txs.remove(info.index);
            assert(tx@ == before[info.index as int]);
            Some((tx, info.block_hash))
        } else {
            None
        }
    }

    /// The info of a committed transaction.
    fn get_transaction_info(&self, hash: &[u8; 32]) -> (r: Option<TransactionInfo>)
        requires
            transaction_info_decodable(self.spec_db(), hash@),
        ensures
            r == spec_transaction_info(self.spec_db(), hash@),
    {
        match self.get(COLUMN_TRANSACTION_INFO, hash.as_slice()) {
            None => None,
            Some(raw) => decode_transaction_info(raw.as_slice()),
        }
    }

    /// The stored meta record of a transaction's outputs.
    fn get_tx_meta(&self, tx_hash: &[u8; 32]) -> (r: Option<Vec<u8>>)
        ensures
            opt_bytes(r) == spec_tx_meta(self.spec_db(), tx_hash@),
    {
        self.get(COLUMN_CELL_SET, tx_hash.as_slice())
    }

    /// The meta of output `index` of transaction `tx_hash`: present when its
    /// cell entry and the info of the transaction are stored.
    fn get_cell_meta(&self, tx_hash: &[u8; 32], index: u32) -> (r: Option<CellMeta>)
        requires
            cell_meta_readable(self.spec_db(), tx_hash@, index),
        ensures
            r == spec_cell_meta(self.spec_db(), *tx_hash, index),
    {
        let key = cell_key(tx_hash, index);
        let raw = match self.get(COLUMN_CELL_META, key.as_slice()) {
            None => {
                return None;
            },
            Some(raw) => raw,
        };
        let (capacity, data_bytes) = decode_cell_entry(raw.as_slice()).unwrap();
        match self.get_transaction_info(tx_hash) {
            None => None,
            Some(info) => Some(
                cell_meta_from_records(tx_hash, index, &info, capacity, data_bytes, None),
            ),
        }
    }

    /// Output `index` of the committed transaction `tx_hash`.
    fn get_cell_output(&self, tx_hash: &[u8; 32], index: u32) -> (r: Option<Vec<u8>>)
        requires
            cell_output_readable(self.spec_db(), tx_hash@),
        ensures
            opt_bytes(r) == spec_cell_output(self.spec_db(), tx_hash@, index),
    {
        let (tx, _block_hash) = match self.get_transaction(tx_hash) {
            None => {
                return None;
            },
            Some(found) => found,
        };
        let mut outputs = decode_transaction_outputs(tx.as_slice()).unwrap();
        if (index as usize) < outputs.len() {
            let ghost before = vecs_view(outputs);
            let output = outputs.remove(index as usize);
            assert(output@ == before[index as int]);
            Some(output)
        } else {
            None
        }
    }

    /// The ext of the current epoch.
    fn get_current_epoch_ext(&self) -> (r: Option<Vec<u8>>)
        requires
            current_epoch_ext_decodable(self.spec_db()),
        ensures
            opt_bytes(r) == spec_current_epoch_ext(self.spec_db()),
            opt_bytes(r) == stored_current_epoch_ext(self.spec_db()),
    {
        let key = meta_current_epoch_key();
        match self.get(COLUMN_META, key.as_slice()) {
            None => None,
            Some(raw) => Some(decode_epoch_ext(raw.as_slice()).unwrap()),
        }
    }

    /// The ext of an epoch, by epoch index.
    fn get_epoch_ext(&self, hash: &[u8; 32]) -> (r: Option<Vec<u8>>)
        requires
            epoch_ext_decodable(self.spec_db(), hash@),
        ensures
            opt_bytes(r) == spec_epoch_ext(self.spec_db(), hash@),
            opt_bytes(r) == stored_epoch_ext(self.spec_db(), hash@),
    {
        match self.get(COLUMN_EPOCH, hash.as_slice()) {
            None => None,
            Some(raw) => Some(decode_epoch_ext(raw.as_slice()).unwrap()),
        }
    }

    /// The index of an epoch, by epoch number.
    fn get_epoch_index(&self, number: EpochNumber) -> (r: Option<[u8; 32]>)
        requires
            absent_or_hash(spec_epoch_index(self.spec_db(), number)),
        ensures
            opt_hash(r) == spec_epoch_index(self.spec_db(), number),
    {
        let key = u64_to_le_bytes(number);
        match self.get(COLUMN_EPOCH, key.as_slice()) {
            None => None,
            Some(raw) => {
                let h = h256_from_slice(raw.as_slice());
                Some(h.unwrap())
            },
        }
    }

    /// The index of the epoch a block belongs to.
    fn get_block_epoch_index(&self, block_hash: &[u8; 32]) -> (r: Option<[u8; 32]>)
        requires
            absent_or_hash(spec_block_epoch_index(self.spec_db(), block_hash@)),
        ensures
            opt_hash(r) == spec_block_epoch_index(self.spec_db(), block_hash@),
    {
        match self.get(COLUMN_BLOCK_EPOCH, block_hash.as_slice()) {
            None => None,
            Some(raw) => {
                let h = h256_from_slice(raw.as_slice());
                Some(h.unwrap())
            },
        }
    }

    /// The ext of the epoch a block belongs to.
    fn get_block_epoch(&self, hash: &[u8; 32]) -> (r: Option<Vec<u8>>)
        requires
            block_epoch_readable(self.spec_db(), hash@),
        ensures
            opt_bytes(r) == spec_block_epoch(self.spec_db(), hash@),
    {
        match self.get_block_epoch_index(hash) {
            None => None,
            Some(index) => self.get_epoch_ext(&index),
        }
    }

    /// Whether a block is recorded as an uncle.
    fn is_uncle(&self, hash: &[u8; 32]) -> (r: bool)
        ensures
            r == spec_is_uncle(self.spec_db(), hash@),
    {
        self.get(COLUMN_UNCLES, hash.as_slice()).is_some()
    }

    /// Whether the header of a block is stored.
    fn block_exists(&self, hash: &[u8; 32]) -> (r: bool)
        ensures
            r == spec_block_exists(self.spec_db(), hash@),
    {
        self.get(COLUMN_BLOCK_HEADER, hash.as_slice()).is_some()
    }

    /// The cellbase of a block: its first transaction.
    fn get_cellbase(&self, hash: &[u8; 32]) -> (r: Option<Vec<u8>>)
        requires
            body_decodable(self.spec_db(), hash@),
        ensures
            opt_bytes(r) == spec_cellbase(self.spec_db(), hash@),
    {
        let mut txs = match self.get_block_body(hash) {
            None => {
                return None;
            },
            Some(txs) => txs,
        };
        if txs.len() > 0 {
            let ghost before = vecs_view(txs);
            let tx = txs.remove(0);
            assert(tx@ == before[0]);
            Some(tx)
        } else {
            None
        }
    }

    /// Reads a block, or answers `Err(CorruptRecord)` when its header, or a
    /// part that a stored header needs, is missing or does not decode.
    fn try_get_block(&self, h: &[u8; 32]) -> (r: Result<Option<BlockRecords>, CorruptRecord>)
        ensures
            r is Err <==> !block_readable(self.spec_db(), h@),
            r matches Ok(Some(b)) ==> spec_block(self.spec_db(), h@) == Some(
                (b.header@, vecs_view(b.transactions), vecs_view(b.uncles), vecs_view(b.proposals)),
            ),
            r matches Ok(None) ==> spec_block(self.spec_db(), h@) is None,
    {
        if let Some(raw) = self.get(COLUMN_BLOCK_HEADER, h.as_slice()) {
            if decode_header_view(raw.as_slice()).is_none() {
                return Err(CorruptRecord);
            }
            match self.get(COLUMN_BLOCK_BODY, h.as_slice()) {
                None => {
                    return Err(CorruptRecord);
                },
                Some(body) => if decode_transactions(body.as_slice()).is_none() {
                    return Err(CorruptRecord);
                },
            }
            match self.get(COLUMN_BLOCK_UNCLE, h.as_slice()) {
                None => {
                    return Err(CorruptRecord);
                },
                Some(uncles) => if decode_uncles(uncles.as_slice()).is_none() {
                    return Err(CorruptRecord);
                },
            }
            match self.get(COLUMN_BLOCK_PROPOSAL_IDS, h.as_slice()) {
                None => {
                    return Err(CorruptRecord);
                },
                Some(ids) => if decode_proposal_ids(ids.as_slice()).is_none() {
                    return Err(CorruptRecord);
                },
            }
        }
        Ok(self.get_block(h))
    }

    /// Reads the hashes of a block's transactions, or answers
    /// `Err(CorruptRecord)` when its body or a transaction does not decode.
    fn try_get_block_txs_hashes(&self, hash: &[u8; 32]) -> (r: Result<
        Option<Vec<[u8; 32]>>,
        CorruptRecord,
    >)
        ensures
            r is Err <==> !txs_hashes_readable(self.spec_db(), hash@),
            r matches Ok(Some(v)) ==> spec_block_txs_hashes(self.spec_db(), hash@) == Some(v@),
            r matches Ok(None) ==> spec_block_txs_hashes(self.spec_db(), hash@) is None,
    {
        if let Some(raw) = self.get(COLUMN_BLOCK_BODY, hash.as_slice()) {
            let txs = match decode_transactions(raw.as_slice()) {
                None => {
                    return Err(CorruptRecord);
                },
                Some(txs) => txs,
            };
            let ghost txs_view = vecs_view(txs);
            let mut i: usize = 0;
            while i < txs.len()
                invariant
                    0 <= i <= txs@.len(),
                    txs_view == vecs_view(txs),
                    txs_view.len() == txs@.len(),
                    spec_block_body(self.spec_db(), hash@) == Some(txs_view),
                    forall|j: int|
                        0 <= j < i ==> (#[trigger] computed_transaction_hash(txs_view[j])) is Some,
                decreases txs@.len() - i,
            {
                assert(txs_view[i as int] == txs@[i as int]@);
                if transaction_hash(txs[i].as_slice()).is_none() {
                    assert(spec_block_body(self.spec_db(), hash@) == Some(txs_view));
                    assert(computed_transaction_hash(txs_view[i as int]) is None);
                    return Err(CorruptRecord);
                }
                i = i + 1;
            }
        }
        Ok(self.get_block_txs_hashes(hash))
    }

    /// Reads the ext of a block, or answers `Err(CorruptRecord)` when it is
    /// stored but does not decode.
    fn try_get_block_ext(&self, block_hash: &[u8; 32]) -> (r: Result<Option<Vec<u8>>, CorruptRecord>)
        ensures
            r is Err <==> !block_ext_decodable(self.spec_db(), block_hash@),
            r matches Ok(v) ==> opt_bytes(v) == spec_block_ext(self.spec_db(), block_hash@),
    {
        if let Some(raw) = self.get(COLUMN_BLOCK_EXT, block_hash.as_slice()) {
            if decode_block_ext(raw.as_slice()).is_none() {
                return Err(CorruptRecord);
            }
        }
        Ok(self.get_block_ext(block_hash))
    }

    /// Reads the tip header view, or answers `Err(CorruptRecord)` when it is
    /// stored but does not decode.
    fn try_get_tip(&self) -> (r: Result<Option<Vec<u8>>, CorruptRecord>)
        ensures
            r is Err <==> !tip_decodable(self.spec_db()),
            r matches Ok(v) ==> opt_bytes(v) == spec_tip(self.spec_db()),
    {
        let key = meta_tip_header_key();
        if let Some(raw) = self.get(COLUMN_META, key.as_slice()) {
            if decode_header_view(raw.as_slice()).is_none() {
                return Err(CorruptRecord);
            }
        }
        Ok(self.get_tip())
    }

    /// Reads a committed transaction, or answers `Err(CorruptRecord)` when its
    /// info or the body it points to does not decode.
    fn try_get_transaction(&self, hash: &[u8; 32]) -> (r: Result<
        Option<(Vec<u8>, [u8; 32])>,
        CorruptRecord,
    >)
        ensures
            r is Err <==> !transaction_readable(self.spec_db(), hash@),
            r matches Ok(Some((tx, block_hash))) ==> spec_transaction(self.spec_db(), hash@)
                == Some((tx@, block_hash)),
            r matches Ok(None) ==> spec_transaction(self.spec_db(), hash@) is None,
    {
        if let Some(raw) = self.get(COLUMN_TRANSACTION_INFO, hash.as_slice()) {
            let info = match decode_transaction_info(raw.as_slice()) {
                None => {
                    return Err(CorruptRecord);
                },
                Some(info) => info,
            };
            if let Some(body) = self.get(COLUMN_BLOCK_BODY, info.block_hash.as_slice()) {
                if decode_transactions(body.as_slice()).is_none() {
                    return Err(CorruptRecord);
                }
            }
        }
        Ok(self.get_transaction(hash))
    }

    /// Reads the meta of a cell, or answers `Err(CorruptRecord)` when its cell
    /// entry or the info of its transaction does not decode.
    fn try_get_cell_meta(&self, tx_hash: &[u8; 32], index: u32) -> (r: Result<
        Option<CellMeta>,
        CorruptRecord,
    >)
        ensures
            r is Err <==> !cell_meta_readable(self.spec_db(), tx_hash@, index),
            r matches Ok(v) ==> v == spec_cell_meta(self.spec_db(), *tx_hash, index),
    {
        let key = cell_key(tx_hash, index);
        if let Some(raw) = self.get(COLUMN_CELL_META, key.as_slice()) {
            if decode_cell_entry(raw.as_slice()).is_none() {
                return Err(CorruptRecord);
            }
            if let Some(info) = self.get(COLUMN_TRANSACTION_INFO, tx_hash.as_slice()) {
                if decode_transaction_info(info.as_slice()).is_none() {
                    return Err(CorruptRecord);
                }
            }
        }
        Ok(self.get_cell_meta(tx_hash, index))
    }

    /// Reads an output of a committed transaction, or answers
    /// `Err(CorruptRecord)` when the info, the body or the transaction does
    /// not decode.
    fn try_get_cell_output(&self, tx_hash: &[u8; 32], index: u32) -> (r: Result<
        Option<Vec<u8>>,
        CorruptRecord,
    >)
        ensures
            r is Err <==> !cell_output_readable(self.spec_db(), tx_hash@),
            r matches Ok(v) ==> opt_bytes(v) == spec_cell_output(self.spec_db(), tx_hash@, index),
    {
        match self.try_get_transaction(tx_hash) {
            Err(e) => {
                return Err(e);
            },
            Ok(None) => {},
            Ok(Some((tx, _block_hash))) => {
                if decode_transaction_outputs(tx.as_slice()).is_none() {
                    return Err(CorruptRecord);
                }
            },
        }
        Ok(self.get_cell_output(tx_hash, index))
    }

    /// Reads the ext of the current epoch, or answers `Err(CorruptRecord)`
    /// when it is stored but does not decode.
    fn try_get_current_epoch_ext(&self) -> (r: Result<Option<Vec<u8>>, CorruptRecord>)
        ensures
            r is Err <==> !current_epoch_ext_decodable(self.spec_db()),
            r matches Ok(v) ==> opt_bytes(v) == spec_current_epoch_ext(self.spec_db()),
    {
        let key = meta_current_epoch_key();
        if let Some(raw) = self.get(COLUMN_META, key.as_slice()) {
            if decode_epoch_ext(raw.as_slice()).is_none() {
                return Err(CorruptRecord);
            }
        }
        Ok(self.get_current_epoch_ext())
    }

    /// Reads the ext of the epoch a block belongs to, or answers
    /// `Err(CorruptRecord)` when the epoch index is no hash or the ext does
    /// not decode.
    fn try_get_block_epoch(&self, hash: &[u8; 32]) -> (r: Result<Option<Vec<u8>>, CorruptRecord>)
        ensures
            r is Err <==> !block_epoch_readable(self.spec_db(), hash@),
            r matches Ok(v) ==> opt_bytes(v) == spec_block_epoch(self.spec_db(), hash@),
    {
        if let Some(index) = self.get(COLUMN_BLOCK_EPOCH, hash.as_slice()) {
            if index.len() != 32 {
                return Err(CorruptRecord);
            }
            if let Some(raw) = self.get(COLUMN_EPOCH, index.as_slice()) {
                if decode_epoch_ext(raw.as_slice()).is_none() {
                    return Err(CorruptRecord);
                }
            }
        }
        Ok(self.get_block_epoch(hash))
    }

    /// Reads the cellbase of a block, or answers `Err(CorruptRecord)` when its
    /// body is stored but does not decode.
    fn try_get_cellbase(&self, hash: &[u8; 32]) -> (r: Result<Option<Vec<u8>>, CorruptRecord>)
        ensures
            r is Err <==> !body_decodable(self.spec_db(), hash@),
            r matches Ok(v) ==> opt_bytes(v) == spec_cellbase(self.spec_db(), hash@),
    {
        if let Some(raw) = self.get(COLUMN_BLOCK_BODY, hash.as_slice()) {
            if decode_transactions(raw.as_slice()).is_none() {
                return Err(CorruptRecord);
            }
        }
        Ok(self.get_cellbase(hash))
    }
}

/// Assembles the meta of output `index` of transaction `tx_hash` from what is
/// stored of the cell (capacity, data size, and data hash where one is kept)
/// and from the info of the transaction: the cell is a cellbase exactly when
/// the transaction is the first of its block.
pub fn cell_meta_from_records(
    tx_hash: &[u8; 32],
    index: u32,
    tx_info: &TransactionInfo,
    capacity: Capacity,
    data_bytes: u64,
    data_hash: Option<[u8; 32]>,
) -> (r: CellMeta)
    ensures
        r == spec_cell_meta_from(*tx_hash, index, *tx_info, capacity, data_bytes, data_hash),
{
    let out_point = CellOutPoint { tx_hash: *tx_hash, index };
    let cellbase = tx_info.index == 0;
    let block_info = BlockInfo { number: tx_info.block_number, epoch: tx_info.block_epoch };
    CellMeta { out_point, block_info: Some(block_info), cellbase, capacity, data_bytes, data_hash }
}

/// When the index maps a height to a hash and that hash back to the
/// height, the height read for the hash is the one that was written.
pub proof fn lemma_index_roundtrip(db: DbView, number: BlockNumber, hash: Seq<u8>)
    requires
        db_get(db, COLUMN_INDEX, spec_u64_to_le_bytes(number)) == Some(hash),
        db_get(db, COLUMN_INDEX, hash) == Some(spec_u64_to_le_bytes(number)),
    ensures
        spec_block_hash(db, number) == Some(hash),
        spec_block_number(db, hash) == Some(number),
{
    vstd::bytes::lemma_auto_spec_u64_to_from_le_bytes();
}

/// A block exists exactly when its header is stored, and then, when it can be
/// read, the block is read.
pub proof fn lemma_block_exists_iff_header(db: DbView, hash: Seq<u8>)
    ensures
        spec_block_exists(db, hash) == stored_block_header(db, hash) is Some,
        block_readable(db, hash) ==> (spec_block(db, hash) is Some == spec_block_exists(db, hash)),
{
}

/// The epoch of a block is the epoch stored under the block's epoch index.
pub proof fn lemma_block_epoch_through_index(db: DbView, hash: Seq<u8>)
    ensures
        spec_block_epoch_index(db, hash) is None ==> spec_block_epoch(db, hash) is None,
        spec_block_epoch_index(db, hash) matches Some(index) ==> spec_block_epoch(db, hash)
            == spec_epoch_ext(db, index),
{
}

/// A committed transaction is read from the body of the block its info
/// names, at the index its info gives, and comes with that block's hash.
pub proof fn lemma_transaction_from_its_block(db: DbView, hash: Seq<u8>)
    ensures
        spec_transaction(db, hash) matches Some((tx, block_hash)) ==> {
            &&& spec_transaction_info(db, hash) matches Some(info)
            &&& block_hash == info.block_hash
            &&& spec_block_body(db, block_hash@) matches Some(txs)
            &&& info.index < txs.len()
            &&& txs[info.index as int] == tx
        },
        spec_transaction_info(db, hash) is None ==> spec_transaction(db, hash) is None,
{
}

/// A cell meta can only be read for a transaction whose info is stored; it
/// names the cell, carries the block of the transaction, and marks a
/// cellbase exactly when the transaction is the first of its block.
pub proof fn lemma_cell_meta_from_transaction_info(db: DbView, tx_hash: [u8; 32], index: u32)
    ensures
        spec_cell_meta(db, tx_hash, index) matches Some(meta) ==> {
            &&& spec_transaction_info(db, tx_hash@) matches Some(info)
            &&& meta.out_point == CellOutPoint { tx_hash, index }
            &&& meta.block_info == Some(
                BlockInfo { number: info.block_number, epoch: info.block_epoch },
            )
            &&& meta.cellbase == (info.index == 0)
        },
        spec_transaction_info(db, tx_hash@) is None ==> spec_cell_meta(db, tx_hash, index) is None,
{
}

/// The cellbase of a block is the first transaction of its decoded body:
/// every block whose body holds at least one transaction, the cellbase alone
/// included, has one; a block without a stored body, or with an empty one,
/// has none.
pub proof fn lemma_cellbase_is_first_transaction(db: DbView, hash: Seq<u8>)
    ensures
        db_get(db, COLUMN_BLOCK_BODY, hash) is None ==> spec_cellbase(db, hash) is None,
        db_get(db, COLUMN_BLOCK_BODY, hash) matches Some(record) ==> (
        decoded_transactions(record) matches Some(txs) ==> {
            &&& txs.len() > 0 ==> spec_cellbase(db, hash) == Some(txs[0])
            &&& txs.len() == 0 ==> spec_cellbase(db, hash) is None
        }),
{
}

/// A committed transaction is found: when its info is stored and names a
/// block whose body holds a transaction at the info's index, that
/// transaction is read, with the block's hash, and each of its outputs is
/// read by its index.
pub proof fn lemma_committed_transaction_is_found(
    db: DbView,
    hash: Seq<u8>,
    info_record: Seq<u8>,
    info: TransactionInfo,
    body_record: Seq<u8>,
    txs: Seq<Seq<u8>>,
)
    requires
        db_get(db, COLUMN_TRANSACTION_INFO, hash) == Some(info_record),
        decoded_transaction_info(info_record) == Some(info),
        db_get(db, COLUMN_BLOCK_BODY, info.block_hash@) == Some(body_record),
        decoded_transactions(body_record) == Some(txs),
        info.index < txs.len(),
    ensures
        spec_transaction(db, hash) == Some((txs[info.index as int], info.block_hash)),
        decoded_transaction_outputs(txs[info.index as int]) matches Some(outputs) ==> forall|
            i: u32,
        |
            #![trigger spec_cell_output(db, hash, i)]
            i < outputs.len() ==> spec_cell_output(db, hash, i) == Some(outputs[i as int]),
{
}

/// A block is read whole: when its header, body, uncle and proposal records
/// are stored and decode, the block holds the decoded header, the decoded
/// transactions, the decoded uncles and the decoded proposal ids.
pub proof fn lemma_block_is_its_records(
    db: DbView,
    hash: Seq<u8>,
    header: Seq<u8>,
    body_record: Seq<u8>,
    txs: Seq<Seq<u8>>,
    uncle_record: Seq<u8>,
    uncles: Seq<Seq<u8>>,
    proposal_record: Seq<u8>,
    proposals: Seq<Seq<u8>>,
)
    requires
        db_get(db, COLUMN_BLOCK_HEADER, hash) matches Some(r) && decoded_header_view(r) == Some(
            header,
        ),
        db_get(db, COLUMN_BLOCK_BODY, hash) == Some(body_record),
        decoded_transactions(body_record) == Some(txs),
        db_get(db, COLUMN_BLOCK_UNCLE, hash) == Some(uncle_record),
        decoded_uncles(uncle_record) == Some(uncles),
        db_get(db, COLUMN_BLOCK_PROPOSAL_IDS, hash) == Some(proposal_record),
        decoded_proposal_ids(proposal_record) == Some(proposals),
    ensures
        spec_block(db, hash) == Some((header, txs, uncles, proposals)),
{
}

/// The meta of a cell is read from its stored cell entry and the info of its
/// transaction: it names the cell, carries the capacity and data size of the
/// entry and the block of the transaction, and is a cellbase exactly when the
/// transaction comes first in its block.
pub proof fn lemma_cell_meta_is_its_records(
    db: DbView,
    tx_hash: [u8; 32],
    index: u32,
    entry_record: Seq<u8>,
    capacity: Capacity,
    data_bytes: u64,
    info_record: Seq<u8>,
    info: TransactionInfo,
)
    requires
        db_get(db, COLUMN_CELL_META, tx_hash@ + spec_u32_to_be_bytes(index)) == Some(entry_record),
        decoded_cell_entry(entry_record) == Some((capacity, data_bytes)),
        db_get(db, COLUMN_TRANSACTION_INFO, tx_hash@) == Some(info_record),
        decoded_transaction_info(info_record) == Some(info),
    ensures
        spec_cell_meta(db, tx_hash, index) == Some(
            CellMeta {
                out_point: CellOutPoint { tx_hash, index },
                block_info: Some(BlockInfo { number: info.block_number, epoch: info.block_epoch }),
                cellbase: info.index == 0,
                capacity,
                data_bytes,
                data_hash: None,
            },
        ),
{
}

/// The hashes of a block's transactions follow its decoded body: one hash per
/// transaction, in the body's order, each the hash of that transaction.
pub proof fn lemma_txs_hashes_follow_the_body(db: DbView, hash: Seq<u8>)
    ensures
        db_get(db, COLUMN_BLOCK_BODY, hash) is None ==> spec_block_txs_hashes(db, hash) is None,
        db_get(db, COLUMN_BLOCK_BODY, hash) matches Some(record) ==> (
        decoded_transactions(record) matches Some(txs) ==> {
            &&& spec_block_txs_hashes(db, hash) matches Some(hashes)
            &&& hashes.len() == txs.len()
            &&& forall|i: int|
                0 <= i < txs.len() ==> #[trigger] hashes[i] == computed_transaction_hash(
                    txs[i],
                ).unwrap()
        }),
{
}

/// Each single-record getter reads its own column and key and hands out what
/// the decoder makes of the stored record, and nothing when none is stored:
/// the header and ext of a block, the tip, the current epoch ext, an epoch
/// ext, the proposal ids and uncles of a block, and a transaction's info.
pub proof fn lemma_single_records_are_decoded(db: DbView, hash: Seq<u8>)
    ensures
        spec_block_header(db, hash) == (match db_get(db, COLUMN_BLOCK_HEADER, hash) {
            Some(r) => decoded_header_view(r),
            None => None,
        }),
        spec_block_ext(db, hash) == (match db_get(db, COLUMN_BLOCK_EXT, hash) {
            Some(r) => decoded_block_ext(r),
            None => None,
        }),
        spec_tip(db) == (match db_get(
            db,
            COLUMN_META,
            seq![84u8, 73u8, 80u8, 95u8, 72u8, 69u8, 65u8, 68u8, 69u8, 82u8],
        ) {
            Some(r) => decoded_header_view(r),
            None => None,
        }),
        spec_current_epoch_ext(db) == (match db_get(
            db,
            COLUMN_META,
            seq![67u8, 85u8, 82u8, 82u8, 69u8, 78u8, 84u8, 95u8, 69u8, 80u8, 79u8, 67u8, 72u8],
        ) {
            Some(r) => decoded_epoch_ext(r),
            None => None,
        }),
        spec_epoch_ext(db, hash) == (match db_get(db, COLUMN_EPOCH, hash) {
            Some(r) => decoded_epoch_ext(r),
            None => None,
        }),
        spec_block_proposal_ids(db, hash) == (match db_get(db, COLUMN_BLOCK_PROPOSAL_IDS, hash) {
            Some(r) => decoded_proposal_ids(r),
            None => None,
        }),
        spec_block_uncles(db, hash) == (match db_get(db, COLUMN_BLOCK_UNCLE, hash) {
            Some(r) => decoded_uncles(r),
            None => None,
        }),
        spec_transaction_info(db, hash) == (match db_get(db, COLUMN_TRANSACTION_INFO, hash) {
            Some(r) => decoded_transaction_info(r),
            None => None,
        }),
{
}

/// The database that a list of writes leaves: later writes win.
pub open spec fn db_of_writes(writes: Seq<(Col, Seq<u8>, Seq<u8>)>) -> DbView
    decreases writes.len(),
{
    if writes.len() == 0 {
        Map::empty()
    } else {
        let w = writes.last();
        db_of_writes(writes.drop_last()).insert((w.0, w.1), w.2)
    }
}

/// Whether two byte strings are equal.
fn bytes_eq(a: &[u8], b: &[u8]) -> (r: bool)
    ensures
        r == (a@ == b@),
{
    if a.len() != b.len() {
        return false;
    }
    let mut i: usize = 0;
    while i < a.len()
        invariant
            a@.len() == b@.len(),
            0 <= i <= a@.len(),
            forall|j: int| 0 <= j < i ==> a@[j] == b@[j],
        decreases a@.len() - i,
    {
        if a[i] != b[i] {
            return false;
        }
        i = i + 1;
    }
    assert(a@ =~= b@);
    true
}

/// A chain database held in memory, as the list of writes made to it.
pub struct MemoryStore {
    writes: Vec<(Col, Vec<u8>, Vec<u8>)>,
}

impl MemoryStore {
    /// The writes made so far, oldest first.
    pub closed spec fn spec_writes(&self) -> Seq<(Col, Seq<u8>, Seq<u8>)> {
        self.writes@.map_values(|w: (Col, Vec<u8>, Vec<u8>)| (w.0, w.1@, w.2@))
    }

    /// An empty database.
    pub fn new() -> (r: MemoryStore)
        ensures
            r.spec_db() == Map::<(Col, Seq<u8>), Seq<u8>>::empty(),
    {
        let r = MemoryStore { writes: Vec::new() };
        assert(r.spec_writes() =~= Seq::<(Col, Seq<u8>, Seq<u8>)>::empty());
        r
    }

    /// Stores `value` under `key` in column `col`, replacing what was there.
    pub fn insert(&mut self, col: Col, key: &[u8], value: &[u8])
        ensures
            final(self).spec_db() == old(self).spec_db().insert((col, key@), value@),
    {
        let ghost before = self.spec_writes();
        self.writes.push((col, vstd::slice::slice_to_vec(key), vstd::slice::slice_to_vec(value)));
        assert(self.spec_writes().drop_last() =~= before);
    }
}

impl ChainStore for MemoryStore {
    closed spec fn spec_db(&self) -> DbView {
        db_of_writes(self.spec_writes())
    }

    fn get(&self, col: Col, key: &[u8]) -> (r: Option<Vec<u8>>) {
        let ghost writes = self.spec_writes();
        let mut i: usize = self.writes.len();
        assert(writes.subrange(0, i as int) =~= writes);
        while i > 0
            invariant
                0 <= i <= self.writes@.len(),
                writes == self.spec_writes(),
                writes.len() == self.writes@.len(),
                db_get(db_of_writes(writes), col, key@) == db_get(
                    db_of_writes(writes.subrange(0, i as int)),
                    col,
                    key@,
                ),
            decreases i,
        {
            let w = &self.writes[i - 1];
            assert(writes.subrange(0, i as int).drop_last() =~= writes.subrange(0, i - 1));
            assert(writes[i - 1] == (w.0, w.1@, w.2@));
            if w.0 == col && bytes_eq(w.1.as_slice(), key) {
                return Some(w.2.clone());
            }
            i = i - 1;
        }
        assert(writes.subrange(0, 0) =~= Seq::<(Col, Seq<u8>, Seq<u8>)>::empty());
        None
    }
}

/// Reading a key of the in-memory database after a write gives back the
/// value written, and the write leaves every other key as it was.
pub proof fn lemma_memory_store_read_after_write(
    before: &MemoryStore,
    after: &MemoryStore,
    col: Col,
    key: Seq<u8>,
    value: Seq<u8>,
    other_col: Col,
    other_key: Seq<u8>,
)
    requires
        after.spec_db() == before.spec_db().insert((col, key), value),
    ensures
        db_get(after.spec_db(), col, key) == Some(value),
        (other_col, other_key) != (col, key) ==> db_get(after.spec_db(), other_col, other_key)
            == db_get(before.spec_db(), other_col, other_key),
{
}

} // verus!
