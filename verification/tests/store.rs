use ckb_store::store::{
    cell_key, cell_meta_from_records, meta_current_epoch_key, meta_tip_header_key, BlockRecords,
    ChainStore, CorruptRecord, MemoryStore, COLUMN_BLOCK_BODY, COLUMN_BLOCK_EPOCH,
    COLUMN_BLOCK_EXT, COLUMN_BLOCK_HEADER, COLUMN_BLOCK_PROPOSAL_IDS, COLUMN_BLOCK_UNCLE,
    COLUMN_CELL_META, COLUMN_CELL_SET, COLUMN_EPOCH, COLUMN_INDEX, COLUMN_META,
    COLUMN_TRANSACTION_INFO, COLUMN_UNCLES,
};
use ckb_store::types::{BlockInfo, CellMeta, CellOutPoint, TransactionInfo};
use ckb_types::packed;
use ckb_types::prelude::{Builder, Entity, Pack, Unpack};
use ckb_types::H256;

fn h(tag: u8) -> [u8; 32] {
    [tag; 32]
}

fn header_bytes(number: u64) -> Vec<u8> {
    let header = packed::Header::new_builder()
        .raw(packed::RawHeader::new_builder().number(number.pack()).build())
        .build();
    packed::HeaderView::new_builder().data(header).build().as_slice().to_vec()
}

fn output(capacity: u64) -> packed::CellOutput {
    packed::CellOutput::new_builder().capacity(capacity.pack()).build()
}

fn tx(version: u32, capacities: &[u64]) -> packed::Transaction {
    let outputs = packed::CellOutputVec::new_builder()
        .extend(capacities.iter().map(|c| output(*c)))
        .build();
    let raw = packed::RawTransaction::new_builder()
        .version(version.pack())
        .outputs(outputs)
        .build();
    packed::Transaction::new_builder().raw(raw).build()
}

fn body_bytes(txs: &[packed::Transaction]) -> Vec<u8> {
    packed::TransactionVec::new_builder()
        .extend(txs.iter().cloned())
        .build()
        .as_slice()
        .to_vec()
}

fn info_bytes(block_hash: [u8; 32], number: u64, epoch: u64, index: u32) -> Vec<u8> {
    let key = packed::TransactionKey::new_builder()
        .block_hash(block_hash.pack())
        .index(index.pack())
        .build();
    packed::TransactionInfo::new_builder()
        .key(key)
        .block_number(number.pack())
        .block_epoch(epoch.pack())
        .build()
        .as_slice()
        .to_vec()
}

fn cell_entry_bytes(capacity: u64, data_size: u64) -> Vec<u8> {
    packed::CellEntry::new_builder()
        .output(output(capacity))
        .data_size(data_size.pack())
        .build()
        .as_slice()
        .to_vec()
}

fn proposals_bytes(n: usize) -> Vec<u8> {
    let mut ids = packed::ProposalShortIdVec::new_builder();
    for i in 0..n {
        ids = ids.push(packed::ProposalShortId::new_unchecked(vec![i as u8; 10].into()));
    }
    ids.build().as_slice().to_vec()
}

fn uncles_bytes() -> Vec<u8> {
    packed::UncleBlockVec::new_builder().build().as_slice().to_vec()
}

fn epoch_ext_bytes(number: u64) -> Vec<u8> {
    packed::EpochExt::new_builder().number(number.pack()).build().as_slice().to_vec()
}

fn tx_hash(t: &packed::Transaction) -> [u8; 32] {
    let hash: H256 = t.calc_tx_hash().unpack();
    hash.0
}

#[test]
fn meta_keys_are_ascii_names() {
    assert_eq!(meta_tip_header_key(), b"TIP_HEADER".to_vec());
    assert_eq!(meta_current_epoch_key(), b"CURRENT_EPOCH".to_vec());
}

#[test]
fn cell_key_is_hash_then_big_endian_index() {
    let key = cell_key(&h(7), 0x0102_0304);
    assert_eq!(key.len(), 36);
    assert_eq!(&key[..32], &h(7)[..]);
    assert_eq!(&key[32..], &[1u8, 2, 3, 4][..]);
    assert_ne!(cell_key(&h(7), 1), cell_key(&h(7), 256));
    assert_ne!(cell_key(&h(7), 1), cell_key(&h(8), 1));
}

#[test]
fn header_and_exts_decode_from_their_columns() {
    let mut s = MemoryStore::new();
    s.insert(COLUMN_BLOCK_HEADER, &h(1), &header_bytes(5));
    s.insert(COLUMN_BLOCK_EXT, &h(1), &packed::BlockExt::new_builder().build().as_slice().to_vec());
    s.insert(COLUMN_META, b"TIP_HEADER", &header_bytes(9));
    s.insert(COLUMN_META, b"CURRENT_EPOCH", &epoch_ext_bytes(3));
    s.insert(COLUMN_EPOCH, &h(9), &epoch_ext_bytes(2));
    let header = s.get_block_header(&h(1)).unwrap();
    let view: ckb_types::core::HeaderView = packed::HeaderView::from_slice(&header).unwrap().unpack();
    assert_eq!(view.number(), 5);
    assert_eq!(s.get_block_ext(&h(1)), Some(packed::BlockExt::new_builder().build().as_slice().to_vec()));
    let tip: ckb_types::core::HeaderView =
        packed::HeaderView::from_slice(&s.get_tip().unwrap()).unwrap().unpack();
    assert_eq!(tip.number(), 9);
    let current: ckb_types::core::EpochExt =
        packed::EpochExt::from_slice(&s.get_current_epoch_ext().unwrap()).unwrap().unpack();
    assert_eq!(current.number(), 3);
    assert_eq!(s.get_epoch_ext(&h(9)), Some(epoch_ext_bytes(2)));
    assert_eq!(s.get_block_header(&h(2)), None);
    assert_eq!(s.get_block_ext(&h(2)), None);
}

#[test]
fn block_parts_decode_in_order() {
    let mut s = MemoryStore::new();
    let txs = [tx(0, &[10]), tx(1, &[20, 30])];
    s.insert(COLUMN_BLOCK_BODY, &h(1), &body_bytes(&txs));
    s.insert(COLUMN_BLOCK_PROPOSAL_IDS, &h(1), &proposals_bytes(2));
    s.insert(COLUMN_BLOCK_UNCLE, &h(1), &uncles_bytes());
    assert_eq!(
        s.get_block_body(&h(1)),
        Some(vec![txs[0].as_slice().to_vec(), txs[1].as_slice().to_vec()])
    );
    assert_eq!(
        s.get_block_proposal_txs_ids(&h(1)),
        Some(vec![vec![0u8; 10], vec![1u8; 10]])
    );
    assert_eq!(s.get_block_uncles(&h(1)), Some(vec![]));
    assert_eq!(s.get_block_txs_hashes(&h(1)), Some(vec![tx_hash(&txs[0]), tx_hash(&txs[1])]));
    assert_eq!(s.get_cellbase(&h(1)), Some(txs[0].as_slice().to_vec()));
    assert_eq!(s.get_block_txs_hashes(&h(2)), None);
    s.insert(COLUMN_BLOCK_BODY, &h(3), &body_bytes(&[]));
    assert_eq!(s.get_cellbase(&h(3)), None);
    assert_eq!(s.get_block_txs_hashes(&h(3)), Some(vec![]));
}

#[test]
fn block_is_read_when_its_header_is() {
    let mut s = MemoryStore::new();
    assert_eq!(s.get_block(&h(1)), None);
    assert!(!s.block_exists(&h(1)));
    let txs = [tx(0, &[10])];
    s.insert(COLUMN_BLOCK_HEADER, &h(1), &header_bytes(1));
    s.insert(COLUMN_BLOCK_BODY, &h(1), &body_bytes(&txs));
    s.insert(COLUMN_BLOCK_UNCLE, &h(1), &uncles_bytes());
    s.insert(COLUMN_BLOCK_PROPOSAL_IDS, &h(1), &proposals_bytes(1));
    assert!(s.block_exists(&h(1)));
    assert_eq!(
        s.get_block(&h(1)),
        Some(BlockRecords {
            header: header_bytes(1),
            transactions: vec![txs[0].as_slice().to_vec()],
            uncles: vec![],
            proposals: vec![vec![0u8; 10]],
        })
    );
}

#[test]
fn corrupt_or_incomplete_blocks_are_refused_by_the_checked_reader() {
    let mut s = MemoryStore::new();
    assert_eq!(s.try_get_block(&h(1)), Ok(None));
    s.insert(COLUMN_BLOCK_HEADER, &h(1), &header_bytes(1));
    assert_eq!(s.try_get_block(&h(1)), Err(CorruptRecord));
    s.insert(COLUMN_BLOCK_BODY, &h(1), &body_bytes(&[]));
    s.insert(COLUMN_BLOCK_UNCLE, &h(1), &uncles_bytes());
    s.insert(COLUMN_BLOCK_PROPOSAL_IDS, &h(1), &proposals_bytes(0));
    assert!(matches!(s.try_get_block(&h(1)), Ok(Some(_))));
    s.insert(COLUMN_BLOCK_HEADER, &h(2), b"not a header");
    assert_eq!(s.try_get_block(&h(2)), Err(CorruptRecord));
    s.insert(COLUMN_BLOCK_BODY, &h(3), b"xx");
    assert_eq!(s.try_get_cellbase(&h(3)), Err(CorruptRecord));
    assert_eq!(s.try_get_block_txs_hashes(&h(3)), Err(CorruptRecord));
    s.insert(COLUMN_BLOCK_EXT, &h(3), b"xx");
    assert_eq!(s.try_get_block_ext(&h(3)), Err(CorruptRecord));
    s.insert(COLUMN_META, b"TIP_HEADER", b"xx");
    assert_eq!(s.try_get_tip(), Err(CorruptRecord));
    s.insert(COLUMN_META, b"CURRENT_EPOCH", b"xx");
    assert_eq!(s.try_get_current_epoch_ext(), Err(CorruptRecord));
}

#[test]
fn uncles_are_marked() {
    let mut s = MemoryStore::new();
    assert!(!s.is_uncle(&h(3)));
    s.insert(COLUMN_UNCLES, &h(3), b"");
    assert!(s.is_uncle(&h(3)));
}

#[test]
fn index_maps_numbers_and_hashes_both_ways() {
    let mut s = MemoryStore::new();
    let number: u64 = 0x0102_0304_0506_0708;
    s.insert(COLUMN_INDEX, &number.to_le_bytes(), &h(5));
    s.insert(COLUMN_INDEX, &h(5), &number.to_le_bytes());
    assert_eq!(s.get_block_hash(number), Some(h(5)));
    assert_eq!(s.get_block_number(&h(5)), Some(number));
    assert_eq!(s.get_block_number(&s.get_block_hash(number).unwrap()), Some(number));
    assert_eq!(s.get_block_hash(7), None);
    assert_eq!(s.get_block_number(&h(6)), None);
}

#[test]
fn block_epoch_goes_through_the_epoch_index() {
    let mut s = MemoryStore::new();
    s.insert(COLUMN_BLOCK_EPOCH, &h(1), &h(9));
    s.insert(COLUMN_EPOCH, &h(9), &epoch_ext_bytes(4));
    s.insert(COLUMN_EPOCH, &4u64.to_le_bytes(), &h(9));
    assert_eq!(s.get_block_epoch_index(&h(1)), Some(h(9)));
    assert_eq!(s.get_epoch_index(4), Some(h(9)));
    assert_eq!(s.get_block_epoch(&h(1)), Some(epoch_ext_bytes(4)));
    assert_eq!(s.try_get_block_epoch(&h(1)), Ok(Some(epoch_ext_bytes(4))));
    assert_eq!(s.get_block_epoch(&h(2)), None);
    s.insert(COLUMN_BLOCK_EPOCH, &h(2), &h(10));
    assert_eq!(s.get_block_epoch(&h(2)), None);
    s.insert(COLUMN_BLOCK_EPOCH, &h(3), &[1u8, 2, 3]);
    assert_eq!(s.try_get_block_epoch(&h(3)), Err(CorruptRecord));
    s.insert(COLUMN_EPOCH, &h(10), b"xx");
    assert_eq!(s.try_get_block_epoch(&h(2)), Err(CorruptRecord));
}

#[test]
fn transactions_are_found_by_hash_in_their_block() {
    let mut s = MemoryStore::new();
    let txs = [tx(0, &[10]), tx(1, &[20, 30]), tx(2, &[40])];
    s.insert(COLUMN_BLOCK_BODY, &h(1), &body_bytes(&txs));
    s.insert(COLUMN_TRANSACTION_INFO, &h(7), &info_bytes(h(1), 3, 1, 1));
    assert_eq!(
        s.get_transaction_info(&h(7)),
        Some(TransactionInfo { block_hash: h(1), block_number: 3, block_epoch: 1, index: 1 })
    );
    assert_eq!(s.get_transaction(&h(7)), Some((txs[1].as_slice().to_vec(), h(1))));
    assert_eq!(s.try_get_transaction(&h(7)), Ok(Some((txs[1].as_slice().to_vec(), h(1)))));
    assert_eq!(s.get_cell_output(&h(7), 1), Some(output(30).as_slice().to_vec()));
    assert_eq!(s.get_cell_output(&h(7), 2), None);
    assert_eq!(s.try_get_cell_output(&h(7), 0), Ok(Some(output(20).as_slice().to_vec())));
    assert_eq!(s.get_transaction(&h(8)), None);
    // an index past the block's transactions finds nothing
    s.insert(COLUMN_TRANSACTION_INFO, &h(9), &info_bytes(h(1), 3, 1, 5));
    assert_eq!(s.get_transaction(&h(9)), None);
    // a block whose body is not stored finds nothing
    s.insert(COLUMN_TRANSACTION_INFO, &h(10), &info_bytes(h(2), 3, 1, 0));
    assert_eq!(s.get_transaction(&h(10)), None);
    s.insert(COLUMN_TRANSACTION_INFO, &h(11), b"xx");
    assert_eq!(s.try_get_transaction(&h(11)), Err(CorruptRecord));
    assert_eq!(s.try_get_cell_output(&h(11), 0), Err(CorruptRecord));
}

#[test]
fn cell_meta_needs_cell_entry_and_transaction_info() {
    let mut s = MemoryStore::new();
    s.insert(COLUMN_CELL_META, &cell_key(&h(2), 1), &cell_entry_bytes(500, 42));
    assert_eq!(s.get_cell_meta(&h(2), 1), None);
    s.insert(COLUMN_TRANSACTION_INFO, &h(2), &info_bytes(h(1), 10, 2, 0));
    assert_eq!(
        s.get_cell_meta(&h(2), 1),
        Some(CellMeta {
            out_point: CellOutPoint { tx_hash: h(2), index: 1 },
            block_info: Some(BlockInfo { number: 10, epoch: 2 }),
            cellbase: true,
            capacity: 500,
            data_bytes: 42,
            data_hash: None,
        })
    );
    assert_eq!(s.get_cell_meta(&h(2), 0), None);
    s.insert(COLUMN_CELL_META, &cell_key(&h(2), 3), b"xx");
    assert_eq!(s.try_get_cell_meta(&h(2), 3), Err(CorruptRecord));
    assert!(matches!(s.try_get_cell_meta(&h(2), 1), Ok(Some(_))));
}

#[test]
fn tx_meta_is_read_as_stored() {
    let mut s = MemoryStore::new();
    s.insert(COLUMN_CELL_SET, &h(2), b"txmeta");
    assert_eq!(s.get_tx_meta(&h(2)), Some(b"txmeta".to_vec()));
}

#[test]
fn cell_meta_marks_cellbase_outputs() {
    let info = TransactionInfo { block_hash: h(1), block_number: 10, block_epoch: 2, index: 0 };
    let meta = cell_meta_from_records(&h(2), 3, &info, 500, 42, Some(h(4)));
    assert_eq!(meta.out_point, CellOutPoint { tx_hash: h(2), index: 3 });
    assert_eq!(meta.block_info, Some(BlockInfo { number: 10, epoch: 2 }));
    assert!(meta.cellbase);
    assert_eq!(meta.capacity, 500);
    assert_eq!(meta.data_bytes, 42);
    assert_eq!(meta.data_hash, Some(h(4)));
    let info = TransactionInfo { index: 1, ..info };
    assert!(!cell_meta_from_records(&h(2), 3, &info, 500, 42, None).cellbase);
}

#[test]
fn memory_store_reads_back_the_last_write() {
    let mut s = MemoryStore::new();
    assert_eq!(s.get(COLUMN_META, b"k"), None);
    s.insert(COLUMN_META, b"k", b"one");
    s.insert(COLUMN_META, b"other", b"x");
    s.insert(COLUMN_EPOCH, b"k", b"y");
    assert_eq!(s.get(COLUMN_META, b"k"), Some(b"one".to_vec()));
    s.insert(COLUMN_META, b"k", b"two");
    assert_eq!(s.get(COLUMN_META, b"k"), Some(b"two".to_vec()));
    assert_eq!(s.get(COLUMN_META, b"other"), Some(b"x".to_vec()));
    assert_eq!(s.get(COLUMN_EPOCH, b"k"), Some(b"y".to_vec()));
    assert_eq!(s.get(COLUMN_EPOCH, b"kk"), None);
}
