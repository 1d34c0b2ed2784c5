//! Accepting a provider's reply for a requested transaction: the status
//! must be a success, the body must decode, and the decoded transaction must
//! hash to the identifier that was asked for.
use vstd::prelude::*;
use crate::model::{Reply, ReplyView, Tx, TxView, TxError};
use crate::chain::{decoded, txid_of, decode_transaction, compute_txid};
use crate::hex::{reversed_hex, txid_hex};

verus! {

pub open spec fn response_view(response: Option<Reply>) -> Option<ReplyView> {
    match response {
        Some(r) => Some(r@),
        None => None,
    }
}

pub open spec fn tx_result_view(r: Result<Tx, TxError>) -> Result<TxView, TxError> {
    match r {
        Ok(t) => Ok(t@),
        Err(e) => Err(e),
    }
}

/// A 2xx HTTP status.
pub open spec fn is_success(status: u16) -> bool {
    200 <= status < 300
}

/// What a body received for the transaction `id` yields.
pub open spec fn body_outcome(id: Seq<char>, body: Seq<u8>) -> Result<TxView, TxError> {
    match decoded(body) {
        None => Err(TxError::Decode),
        Some(t) => if reversed_hex(txid_of(t)) == id {
            Ok(t)
        } else {
            Err(TxError::Integrity)
        },
    }
}

/// What fetching the transaction `id` yields when the provider answered
/// with `response` (`None`: the retrieval channel failed).
pub open spec fn fetch_outcome(id: Seq<char>, response: Option<ReplyView>) -> Result<TxView, TxError> {
    match response {
        None => Err(TxError::Transport),
        Some(r) => if is_success(r.status) {
            body_outcome(id, r.body)
        } else {
            Err(TxError::Transport)
        },
    }
}

/// Decodes `body` and accepts it only if the transaction's recomputed
/// identifier is `tx_id`. Where `body` is a transaction, every strict prefix
/// of it is not.
pub fn check_transaction(tx_id: &String, body: &Vec<u8>) -> (r: Result<Tx, TxError>)
    ensures
        tx_result_view(r) == body_outcome(tx_id@, body@),
        decoded(body@) is Some ==> forall|k: int|
            0 <= k < body@.len() ==> (#[trigger] decoded(body@.subrange(0, k))) is None,
{
    let tx = match decode_transaction(body) {
        Ok(t) => t,
        Err(_) => return Err(TxError::Decode),
    };
    let id = compute_txid(&tx);
    let text = txid_hex(&id);
    if text == *tx_id {
        Ok(tx)
    } else {
        Err(TxError::Integrity)
    }
}

/// The fetcher's decision on the provider's reply for `tx_id`.
pub fn fetch_transaction(tx_id: &String, response: &Option<Reply>) -> (r: Result<Tx, TxError>)
    ensures
        tx_result_view(r) == fetch_outcome(tx_id@, response_view(*response)),
{
    match response {
        Some(reply) => {
            if reply.status >= 200 && reply.status < 300 {
                check_transaction(tx_id, &reply.body)
            } else {
                Err(TxError::Transport)
            }
        },
        None => Err(TxError::Transport),
    }
}

/// A transaction is accepted only under the identifier it hashes to.
pub proof fn lemma_accepted_hashes_to_id(id: Seq<char>, response: Option<ReplyView>)
    ensures
        fetch_outcome(id, response) is Ok ==> reversed_hex(txid_of(fetch_outcome(id, response)->Ok_0))
            == id,
{
}

/// A well-formed body, asked for under the identifier of the transaction it
/// holds and delivered with a success status, is accepted as that
/// transaction.
pub proof fn lemma_fetch_own_id(b: Seq<u8>, status: u16)
    requires
        decoded(b) is Some,
        is_success(status),
    ensures
        fetch_outcome(reversed_hex(txid_of(decoded(b)->Some_0)), Some(ReplyView { status, body: b }))
            == Ok::<TxView, TxError>(decoded(b)->Some_0),
{
}

/// A body that decodes to a transaction with another identifier is refused
/// as tampered or wrong.
pub proof fn lemma_wrong_hash_is_integrity_error(id: Seq<char>, b: Seq<u8>)
    requires
        decoded(b) is Some,
        reversed_hex(txid_of(decoded(b)->Some_0)) != id,
    ensures
        body_outcome(id, b) == Err::<TxView, TxError>(TxError::Integrity),
{
}

/// A body that does not decode is refused as such, whatever was asked for.
pub proof fn lemma_malformed_is_decode_error(id: Seq<char>, b: Seq<u8>)
    requires
        decoded(b) is None,
    ensures
        body_outcome(id, b) == Err::<TxView, TxError>(TxError::Decode),
{
}

/// A reply with a non-success status is a transport failure, whatever its
/// body holds.
pub proof fn lemma_failed_status_is_transport_error(id: Seq<char>, r: ReplyView)
    requires
        !is_success(r.status),
    ensures
        fetch_outcome(id, Some(r)) == Err::<TxView, TxError>(TxError::Transport),
{
}

} // verus!
