use vstd::prelude::*;

use ckb_types::packed;
use ckb_types::prelude::{Entity, Unpack};
use ckb_types::H256;

use crate::types::{Capacity, TransactionInfo};

verus! {

/// The bytes of each vector in a list.
pub open spec fn vecs_view(v: Vec<Vec<u8>>) -> Seq<Seq<u8>> {
    v@.map_values(|x: Vec<u8>| x@)
}

/// The header view that `packed::HeaderView::from_slice` of ckb-types reads
/// from `bytes`, given by its bytes; `None` when `bytes` is no such encoding.
pub uninterp spec fn decoded_header_view(bytes: Seq<u8>) -> Option<Seq<u8>>;

/// The transactions that `packed::TransactionVec::from_slice` reads from
/// `bytes`, each given by its bytes, in order.
pub uninterp spec fn decoded_transactions(bytes: Seq<u8>) -> Option<Seq<Seq<u8>>>;

/// The proposal short ids that `packed::ProposalShortIdVec::from_slice` reads
/// from `bytes`, each given by its bytes, in order.
pub uninterp spec fn decoded_proposal_ids(bytes: Seq<u8>) -> Option<Seq<Seq<u8>>>;

/// The uncle blocks that `packed::UncleBlockVec::from_slice` reads from
/// `bytes`, each given by its bytes, in order.
pub uninterp spec fn decoded_uncles(bytes: Seq<u8>) -> Option<Seq<Seq<u8>>>;

/// The block ext that `packed::BlockExt::from_slice` reads from `bytes`, given
/// by its bytes.
pub uninterp spec fn decoded_block_ext(bytes: Seq<u8>) -> Option<Seq<u8>>;

/// The epoch ext that `packed::EpochExt::from_slice` reads from `bytes`, given
/// by its bytes.
pub uninterp spec fn decoded_epoch_ext(bytes: Seq<u8>) -> Option<Seq<u8>>;

/// The fields of the transaction info that `packed::TransactionInfo::from_slice`
/// reads from `bytes`.
pub uninterp spec fn decoded_transaction_info(bytes: Seq<u8>) -> Option<TransactionInfo>;

/// The capacity of the output and the size of the data of the cell entry that
/// `packed::CellEntry::from_slice` reads from `bytes`.
pub uninterp spec fn decoded_cell_entry(bytes: Seq<u8>) -> Option<(Capacity, u64)>;

/// The outputs of the transaction that `packed::Transaction::from_slice`
/// reads from `tx`, each given by its bytes, in order.
pub uninterp spec fn decoded_transaction_outputs(tx: Seq<u8>) -> Option<Seq<Seq<u8>>>;

/// The hash that `calc_tx_hash` of ckb-types computes for the transaction
/// encoded in `tx`; `None` when `tx` is no transaction encoding.
pub uninterp spec fn computed_transaction_hash(tx: Seq<u8>) -> Option<[u8; 32]>;

/// Calls `packed::HeaderView::from_slice` and hands out the bytes of the
/// header view. Molecule's `from_slice` verifies the encoding and keeps the
/// bytes it was given, so a decoded record is the input itself.
#[verifier::external_body]
pub(crate) fn decode_header_view(bytes: &[u8]) -> (r: Option<Vec<u8>>)
    ensures
        r is Some <==> decoded_header_view(bytes@) is Some,
        r matches Some(v) ==> decoded_header_view(bytes@) == Some(v@) && v@ == bytes@,
{
    packed::HeaderView::from_slice(bytes).ok().map(|h| h.as_slice().to_vec())
}

/// Calls `packed::TransactionVec::from_slice` and hands out the bytes of each
/// transaction.
#[verifier::external_body]
pub(crate) fn decode_transactions(bytes: &[u8]) -> (r: Option<Vec<Vec<u8>>>)
    ensures
        r is Some <==> decoded_transactions(bytes@) is Some,
        r matches Some(v) ==> decoded_transactions(bytes@) == Some(vecs_view(v)),
{
    packed::TransactionVec::from_slice(bytes).ok().map(
        |txs| txs.into_iter().map(|tx| tx.as_slice().to_vec()).collect(),
    )
}

/// Calls `packed::ProposalShortIdVec::from_slice` and hands out the bytes of
/// each id.
#[verifier::external_body]
pub(crate) fn decode_proposal_ids(bytes: &[u8]) -> (r: Option<Vec<Vec<u8>>>)
    ensures
        r is Some <==> decoded_proposal_ids(bytes@) is Some,
        r matches Some(v) ==> decoded_proposal_ids(bytes@) == Some(vecs_view(v)),
{
    packed::ProposalShortIdVec::from_slice(bytes).ok().map(
        |ids| ids.into_iter().map(|id| id.as_slice().to_vec()).collect(),
    )
}

/// Calls `packed::UncleBlockVec::from_slice` and hands out the bytes of each
/// uncle.
#[verifier::external_body]
pub(crate) fn decode_uncles(bytes: &[u8]) -> (r: Option<Vec<Vec<u8>>>)
    ensures
        r is Some <==> decoded_uncles(bytes@) is Some,
        r matches Some(v) ==> decoded_uncles(bytes@) == Some(vecs_view(v)),
{
    packed::UncleBlockVec::from_slice(bytes).ok().map(
        |uncles| uncles.into_iter().map(|u| u.as_slice().to_vec()).collect(),
    )
}

/// Calls `packed::BlockExt::from_slice` and hands out the bytes of the ext;
/// as with every molecule record, they are the input itself.
#[verifier::external_body]
pub(crate) fn decode_block_ext(bytes: &[u8]) -> (r: Option<Vec<u8>>)
    ensures
        r is Some <==> decoded_block_ext(bytes@) is Some,
        r matches Some(v) ==> decoded_block_ext(bytes@) == Some(v@) && v@ == bytes@,
{
    packed::BlockExt::from_slice(bytes).ok().map(|e| e.as_slice().to_vec())
}

/// Calls `packed::EpochExt::from_slice` and hands out the bytes of the ext;
/// as with every molecule record, they are the input itself.
#[verifier::external_body]
pub(crate) fn decode_epoch_ext(bytes: &[u8]) -> (r: Option<Vec<u8>>)
    ensures
        r is Some <==> decoded_epoch_ext(bytes@) is Some,
        r matches Some(v) ==> decoded_epoch_ext(bytes@) == Some(v@) && v@ == bytes@,
{
    packed::EpochExt::from_slice(bytes).ok().map(|e| e.as_slice().to_vec())
}

/// Calls `packed::TransactionInfo::from_slice` and hands out its fields.
#[verifier::external_body]
pub(crate) fn decode_transaction_info(bytes: &[u8]) -> (r: Option<TransactionInfo>)
    ensures
        r == decoded_transaction_info(bytes@),
{
    packed::TransactionInfo::from_slice(bytes).ok().map(
        |info| {
            let block_hash: H256 = info.key().block_hash().unpack();
            TransactionInfo {
                block_hash: block_hash.0,
                block_number: info.block_number().unpack(),
                block_epoch: info.block_epoch().unpack(),
                index: info.key().index().unpack(),
            }
        },
    )
}

/// Calls `packed::CellEntry::from_slice` and hands out the capacity of its
/// output and its data size.
#[verifier::external_body]
pub(crate) fn decode_cell_entry(bytes: &[u8]) -> (r: Option<(Capacity, u64)>)
    ensures
        r == decoded_cell_entry(bytes@),
{
    packed::CellEntry::from_slice(bytes).ok().map(
        |entry| (entry.output().capacity().unpack(), entry.data_size().unpack()),
    )
}

/// Calls `packed::Transaction::from_slice` and hands out the bytes of each
/// output of the transaction.
#[verifier::external_body]
pub(crate) fn decode_transaction_outputs(tx: &[u8]) -> (r: Option<Vec<Vec<u8>>>)
    ensures
        r is Some <==> decoded_transaction_outputs(tx@) is Some,
        r matches Some(v) ==> decoded_transaction_outputs(tx@) == Some(vecs_view(v)),
{
    packed::Transaction::from_slice(tx).ok().map(
        |t| t.raw().outputs().into_iter().map(|o| o.as_slice().to_vec()).collect(),
    )
}

/// Calls `calc_tx_hash` of ckb-types on the transaction encoded in `tx`.
#[verifier::external_body]
pub(crate) fn transaction_hash(tx: &[u8]) -> (r: Option<[u8; 32]>)
    ensures
        r == computed_transaction_hash(tx@),
{
    packed::Transaction::from_slice(tx).ok().map(
        |t| {
            let hash: H256 = t.calc_tx_hash().unpack();
            hash.0
        },
    )
}

} // verus!
