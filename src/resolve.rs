//! Resolving the inputs of a transaction: one parent fetch per input, then
//! the spent output looked up in each parent and an address derived from its
//! script. A failed fetch fails the whole resolution with its own error; only
//! when every parent was fetched are addresses derived. The result is all or
//! nothing, in input order.
use vstd::prelude::*;
use crate::model::{Tx, TxView, TxError};
use crate::chain::{has_address, address_of, script_address};
use crate::fetch::{fetch_outcome, response_view, fetch_transaction};
use crate::model::{Reply, ReplyView};
use crate::hex::{reversed_hex, txid_hex};

verus! {

/// The identifier text of the parent that input `i` spends.
pub open spec fn parent_id(tx: TxView, i: int) -> Seq<char> {
    reversed_hex(tx.inputs[i].prev_txid)
}

/// What fetching the parent of input `i` yields on `response`.
pub open spec fn parent_outcome(tx: TxView, i: int, response: Option<ReplyView>) -> Result<TxView, TxError> {
    fetch_outcome(parent_id(tx, i), response)
}

/// The address of output `vout` of `parent`.
pub open spec fn spent_address(parent: TxView, vout: u32) -> Result<Seq<char>, TxError> {
    if (vout as int) < parent.outputs.len() {
        let script = parent.outputs[vout as int].script_pubkey;
        if has_address(script) {
            Ok(address_of(script))
        } else {
            Err(TxError::UnrecognizedScript)
        }
    } else {
        Err(TxError::MissingOutput)
    }
}

/// What input `i` resolves to on its own, its parent's fetch having
/// answered `response`.
pub open spec fn input_outcome(tx: TxView, i: int, response: Option<ReplyView>) -> Result<Seq<char>, TxError> {
    match parent_outcome(tx, i, response) {
        Err(e) => Err(e),
        Ok(parent) => spent_address(parent, tx.inputs[i].vout),
    }
}

/// The parents of the first `n` inputs, or the error of the first of their
/// fetches that fails.
pub open spec fn fetch_phase(tx: TxView, responses: Seq<Option<ReplyView>>, n: nat) -> Result<Seq<TxView>, TxError>
    decreases n,
{
    if n == 0 {
        Ok(seq![])
    } else {
        match fetch_phase(tx, responses, (n - 1) as nat) {
            Err(e) => Err(e),
            Ok(found) => match parent_outcome(tx, n - 1, responses[n - 1]) {
                Err(e) => Err(e),
                Ok(p) => Ok(found.push(p)),
            },
        }
    }
}

/// The addresses that the first `n` inputs spend in `parents`, or the error
/// of the first of them that has none.
pub open spec fn derive_phase(tx: TxView, parents: Seq<TxView>, n: nat) -> Result<Seq<Seq<char>>, TxError>
    decreases n,
{
    if n == 0 {
        Ok(seq![])
    } else {
        match derive_phase(tx, parents, (n - 1) as nat) {
            Err(e) => Err(e),
            Ok(found) => match spent_address(parents[n - 1], tx.inputs[n - 1].vout) {
                Err(e) => Err(e),
                Ok(a) => Ok(found.push(a)),
            },
        }
    }
}

/// Resolving the first `n` inputs: all parents are fetched first, and any
/// failed fetch decides the result; then the addresses are derived.
pub open spec fn resolve_outcome(tx: TxView, responses: Seq<Option<ReplyView>>, n: nat) -> Result<Seq<Seq<char>>, TxError> {
    match fetch_phase(tx, responses, n) {
        Err(e) => Err(e),
        Ok(parents) => derive_phase(tx, parents, n),
    }
}

pub open spec fn responses_view(responses: Seq<Option<Reply>>) -> Seq<Option<ReplyView>> {
    responses.map_values(|r: Option<Reply>| response_view(r))
}

pub open spec fn txs_view(v: Seq<Tx>) -> Seq<TxView> {
    v.map_values(|t: Tx| t@)
}

pub open spec fn parents_view(r: Result<Vec<Tx>, TxError>) -> Result<Seq<TxView>, TxError> {
    match r {
        Ok(v) => Ok(txs_view(v@)),
        Err(e) => Err(e),
    }
}

pub open spec fn strings_view(v: Seq<String>) -> Seq<Seq<char>> {
    v.map_values(|s: String| s@)
}

pub open spec fn addresses_view(r: Result<Vec<String>, TxError>) -> Result<Seq<Seq<char>>, TxError> {
    match r {
        Ok(v) => Ok(strings_view(v@)),
        Err(e) => Err(e),
    }
}

/// The identifiers of the parents to fetch, one per input, in input order.
pub fn parent_ids(tx: &Tx) -> (r: Vec<String>)
    ensures
        r.len() == tx.inputs.len(),
        forall|i: int| 0 <= i < r.len() ==> #[trigger] r[i]@ == parent_id(tx@, i),
{
    let mut ids: Vec<String> = Vec::new();
    let mut i: usize = 0;
    while i < tx.inputs.len()
        invariant
            i <= tx.inputs.len(),
            ids.len() == i,
            forall|j: int| 0 <= j < i ==> #[trigger] ids[j]@ == parent_id(tx@, j),
        decreases tx.inputs.len() - i,
    {
        ids.push(txid_hex(&tx.inputs[i].prev_txid));
        i = i + 1;
    }
    ids
}

/// The address of the output that `vout` names in `parent`.
pub fn spent_output_address(parent: &Tx, vout: u32) -> (r: Result<String, TxError>)
    ensures
        match r {
            Ok(a) => spent_address(parent@, vout) == Ok::<Seq<char>, TxError>(a@),
            Err(e) => spent_address(parent@, vout) == Err::<Seq<char>, TxError>(e),
        },
        r is Ok ==> r->Ok_0@.len() > 0,
{
    if vout as usize >= parent.outputs.len() {
        return Err(TxError::MissingOutput);
    }
    match script_address(&parent.outputs[vout as usize].script_pubkey) {
        Ok(a) => Ok(a),
        Err(_) => Err(TxError::UnrecognizedScript),
    }
}

proof fn lemma_fetch_error_stays(tx: TxView, responses: Seq<Option<ReplyView>>, k: nat, n: nat)
    requires
        k <= n,
        fetch_phase(tx, responses, k) is Err,
    ensures
        fetch_phase(tx, responses, n) == fetch_phase(tx, responses, k),
    decreases n - k,
{
    if k < n {
        lemma_fetch_error_stays(tx, responses, k, (n - 1) as nat);
    }
}

proof fn lemma_derive_error_stays(tx: TxView, parents: Seq<TxView>, k: nat, n: nat)
    requires
        k <= n,
        derive_phase(tx, parents, k) is Err,
    ensures
        derive_phase(tx, parents, n) == derive_phase(tx, parents, k),
    decreases n - k,
{
    if k < n {
        lemma_derive_error_stays(tx, parents, k, (n - 1) as nat);
    }
}

/// Fetches the parent of every input from its reply (`responses[i]` answers
/// for input `i`; `None` where retrieval failed), stopping at the first
/// failure.
pub fn fetch_parents(tx: &Tx, responses: &Vec<Option<Reply>>) -> (r: Result<Vec<Tx>, TxError>)
    requires
        responses.len() == tx.inputs.len(),
    ensures
        parents_view(r) == fetch_phase(tx@, responses_view(responses@), tx.inputs.len() as nat),
        r is Ok ==> r->Ok_0.len() == tx.inputs.len(),
        r is Ok ==> forall|i: int|
            0 <= i < tx.inputs.len() ==> #[trigger] r->Ok_0[i]@ == parent_outcome(
                tx@,
                i,
                responses_view(responses@)[i],
            )->Ok_0,
{
    let ghost rs = responses_view(responses@);
    let n = tx.inputs.len();
    let mut found: Vec<Tx> = Vec::new();
    let mut i: usize = 0;
    assert(txs_view(found@) =~= seq![]);
    while i < n
        invariant
            found.len() == i,
            n == tx.inputs.len(),
            n == responses.len(),
            rs == responses_view(responses@),
            i <= n,
            fetch_phase(tx@, rs, i as nat) == Ok::<Seq<TxView>, TxError>(txs_view(found@)),
            forall|j: int| 0 <= j < i ==> #[trigger] found[j]@ == parent_outcome(tx@, j, rs[j])->Ok_0,
        decreases n - i,
    {
        let id = txid_hex(&tx.inputs[i].prev_txid);
        let fetched = fetch_transaction(&id, &responses[i]);
        assert(rs[i as int] == response_view(responses@[i as int]));
        match fetched {
            Ok(p) => {
                let ghost before = found@;
                found.push(p);
                assert(txs_view(found@) =~= txs_view(before).push(found@[i as int]@));
            },
            Err(e) => {
                proof {
                    lemma_fetch_error_stays(tx@, rs, (i + 1) as nat, n as nat);
                }
                return Err(e);
            },
        }
        i = i + 1;
    }
    Ok(found)
}

/// The address that each input of `tx` spends in its parent
/// (`parents[i]` is the parent of input `i`), stopping at the first input
/// that has none.
pub fn derive_addresses(tx: &Tx, parents: &Vec<Tx>) -> (r: Result<Vec<String>, TxError>)
    requires
        parents.len() == tx.inputs.len(),
    ensures
        addresses_view(r) == derive_phase(tx@, txs_view(parents@), tx.inputs.len() as nat),
        r is Ok ==> r->Ok_0.len() == tx.inputs.len(),
        r is Ok ==> forall|i: int|
            0 <= i < tx.inputs.len() ==> (#[trigger] r->Ok_0[i]@) == spent_address(
                parents[i]@,
                tx.inputs[i].vout,
            )->Ok_0 && r->Ok_0[i]@.len() > 0,
{
    let ghost ps = txs_view(parents@);
    let n = tx.inputs.len();
    let mut found: Vec<String> = Vec::new();
    let mut i: usize = 0;
    assert(strings_view(found@) =~= seq![]);
    while i < n
        invariant
            found.len() == i,
            n == tx.inputs.len(),
            n == parents.len(),
            ps == txs_view(parents@),
            i <= n,
            derive_phase(tx@, ps, i as nat) == Ok::<Seq<Seq<char>>, TxError>(strings_view(found@)),
            forall|j: int|
                0 <= j < i ==> (#[trigger] found[j]@) == spent_address(
                    parents[j]@,
                    tx.inputs[j].vout,
                )->Ok_0 && found[j]@.len() > 0,
        decreases n - i,
    {
        let step = spent_output_address(&parents[i], tx.inputs[i].vout);
        assert(ps[i as int] == parents@[i as int]@);
        match step {
            Ok(a) => {
                let ghost before = found@;
                found.push(a);
                assert(strings_view(found@) =~= strings_view(before).push(found@[i as int]@));
            },
            Err(e) => {
                proof {
                    lemma_derive_error_stays(tx@, ps, (i + 1) as nat, n as nat);
                }
                return Err(e);
            },
        }
        i = i + 1;
    }
    Ok(found)
}

/// Resolves every input of `tx` from its parent's reply (`responses[i]`
/// answers for input `i`; `None` where retrieval failed).
pub fn resolve_inputs(tx: &Tx, responses: &Vec<Option<Reply>>) -> (r: Result<Vec<String>, TxError>)
    requires
        responses.len() == tx.inputs.len(),
    ensures
        addresses_view(r) == resolve_outcome(tx@, responses_view(responses@), tx.inputs.len() as nat),
        r is Ok ==> r->Ok_0.len() == tx.inputs.len(),
        r is Ok ==> forall|i: int|
            0 <= i < tx.inputs.len() ==> (#[trigger] r->Ok_0[i]@) == input_outcome(
                tx@,
                i,
                responses_view(responses@)[i],
            )->Ok_0 && r->Ok_0[i]@.len() > 0,
{
    let parents = match fetch_parents(tx, responses) {
        Ok(p) => p,
        Err(e) => return Err(e),
    };
    let r = derive_addresses(tx, &parents);
    proof {
        let rs = responses_view(responses@);
        lemma_fetch_phase_ok_inv(tx@, rs, tx.inputs.len() as nat);
        if r is Ok {
            assert forall|i: int| 0 <= i < tx.inputs.len() implies (#[trigger] r->Ok_0[i]@)
                == input_outcome(tx@, i, rs[i])->Ok_0 by {
                assert(parent_outcome(tx@, i, rs[i]) is Ok);
            }
        }
    }
    r
}

proof fn lemma_fetch_phase_ok(tx: TxView, responses: Seq<Option<ReplyView>>, n: nat)
    requires
        forall|i: int| 0 <= i < n ==> (#[trigger] parent_outcome(tx, i, responses[i])) is Ok,
    ensures
        fetch_phase(tx, responses, n) is Ok,
        fetch_phase(tx, responses, n)->Ok_0.len() == n,
        forall|i: int|
            0 <= i < n ==> fetch_phase(tx, responses, n)->Ok_0[i] == (#[trigger] parent_outcome(
                tx,
                i,
                responses[i],
            ))->Ok_0,
    decreases n,
{
    if n > 0 {
        lemma_fetch_phase_ok(tx, responses, (n - 1) as nat);
        assert(parent_outcome(tx, n - 1, responses[n - 1]) is Ok);
    }
}

proof fn lemma_fetch_phase_ok_inv(tx: TxView, responses: Seq<Option<ReplyView>>, n: nat)
    requires
        fetch_phase(tx, responses, n) is Ok,
    ensures
        forall|i: int| 0 <= i < n ==> (#[trigger] parent_outcome(tx, i, responses[i])) is Ok,
    decreases n,
{
    if n > 0 {
        lemma_fetch_phase_ok_inv(tx, responses, (n - 1) as nat);
    }
}

proof fn lemma_derive_phase_ok(tx: TxView, parents: Seq<TxView>, n: nat)
    requires
        forall|i: int| 0 <= i < n ==> (#[trigger] spent_address(parents[i], tx.inputs[i].vout)) is Ok,
    ensures
        derive_phase(tx, parents, n) is Ok,
        derive_phase(tx, parents, n)->Ok_0.len() == n,
        forall|i: int|
            0 <= i < n ==> derive_phase(tx, parents, n)->Ok_0[i] == (#[trigger] spent_address(
                parents[i],
                tx.inputs[i].vout,
            ))->Ok_0,
    decreases n,
{
    if n > 0 {
        lemma_derive_phase_ok(tx, parents, (n - 1) as nat);
        assert(spent_address(parents[n - 1], tx.inputs[n - 1].vout) is Ok);
    }
}

proof fn lemma_derive_first_error(tx: TxView, parents: Seq<TxView>, n: nat, k: int)
    requires
        0 <= k < n,
        spent_address(parents[k], tx.inputs[k].vout) is Err,
        forall|j: int| 0 <= j < k ==> (#[trigger] spent_address(parents[j], tx.inputs[j].vout)) is Ok,
    ensures
        derive_phase(tx, parents, n) == Err::<Seq<Seq<char>>, TxError>(
            spent_address(parents[k], tx.inputs[k].vout)->Err_0,
        ),
{
    lemma_derive_phase_ok(tx, parents, k as nat);
    assert(derive_phase(tx, parents, (k + 1) as nat) is Err);
    lemma_derive_error_stays(tx, parents, (k + 1) as nat, n);
}

proof fn lemma_derive_some_error(tx: TxView, parents: Seq<TxView>, n: nat, k: int)
    requires
        0 <= k < n,
        spent_address(parents[k], tx.inputs[k].vout) is Err,
    ensures
        derive_phase(tx, parents, n) is Err,
    decreases n,
{
    if k < n - 1 {
        lemma_derive_some_error(tx, parents, (n - 1) as nat, k);
    }
}

/// A transaction without inputs resolves to no addresses.
pub proof fn lemma_no_inputs(tx: TxView, responses: Seq<Option<ReplyView>>)
    requires
        tx.inputs.len() == 0,
    ensures
        resolve_outcome(tx, responses, tx.inputs.len()) == Ok::<Seq<Seq<char>>, TxError>(seq![]),
{
}

/// Where every input resolves, the result holds one address per input, each
/// at its input's position.
pub proof fn lemma_all_resolved(tx: TxView, responses: Seq<Option<ReplyView>>, n: nat)
    requires
        forall|i: int| 0 <= i < n ==> (#[trigger] input_outcome(tx, i, responses[i])) is Ok,
    ensures
        resolve_outcome(tx, responses, n) is Ok,
        resolve_outcome(tx, responses, n)->Ok_0.len() == n,
        forall|i: int|
            0 <= i < n ==> resolve_outcome(tx, responses, n)->Ok_0[i] == (#[trigger] input_outcome(
                tx,
                i,
                responses[i],
            ))->Ok_0,
{
    assert forall|i: int| 0 <= i < n implies (#[trigger] parent_outcome(tx, i, responses[i])) is Ok by {
        assert(input_outcome(tx, i, responses[i]) is Ok);
    }
    lemma_fetch_phase_ok(tx, responses, n);
    let parents = fetch_phase(tx, responses, n)->Ok_0;
    assert forall|i: int| 0 <= i < n implies (#[trigger] spent_address(
        parents[i],
        tx.inputs[i].vout,
    )) is Ok by {
        assert(input_outcome(tx, i, responses[i]) is Ok);
        assert(parent_outcome(tx, i, responses[i]) is Ok);
    }
    lemma_derive_phase_ok(tx, parents, n);
    assert forall|i: int| 0 <= i < n implies resolve_outcome(tx, responses, n)->Ok_0[i] == (
    #[trigger] input_outcome(tx, i, responses[i]))->Ok_0 by {
        assert(parent_outcome(tx, i, responses[i]) is Ok);
        assert(spent_address(parents[i], tx.inputs[i].vout) is Ok);
    }
}

/// Where one input fails, the whole resolution fails: no shorter list is
/// returned.
pub proof fn lemma_one_failure_fails_all(tx: TxView, responses: Seq<Option<ReplyView>>, n: nat, k: int)
    requires
        0 <= k < n,
        input_outcome(tx, k, responses[k]) is Err,
    ensures
        resolve_outcome(tx, responses, n) is Err,
{
    if fetch_phase(tx, responses, n) is Ok {
        lemma_fetch_phase_ok_inv(tx, responses, n);
        lemma_fetch_phase_ok(tx, responses, n);
        let parents = fetch_phase(tx, responses, n)->Ok_0;
        assert(parent_outcome(tx, k, responses[k]) is Ok);
        assert(spent_address(parents[k], tx.inputs[k].vout) is Err);
        lemma_derive_some_error(tx, parents, n, k);
    }
}

/// A failed parent fetch decides the result: the resolution fails with the
/// error of the first failed fetch, whatever the other inputs' outputs hold.
pub proof fn lemma_failed_fetch_decides(tx: TxView, responses: Seq<Option<ReplyView>>, n: nat, k: int)
    requires
        0 <= k < n,
        parent_outcome(tx, k, responses[k]) is Err,
        forall|j: int| 0 <= j < k ==> (#[trigger] parent_outcome(tx, j, responses[j])) is Ok,
    ensures
        resolve_outcome(tx, responses, n) == Err::<Seq<Seq<char>>, TxError>(
            parent_outcome(tx, k, responses[k])->Err_0,
        ),
{
    lemma_fetch_phase_ok(tx, responses, k as nat);
    assert(fetch_phase(tx, responses, (k + 1) as nat) is Err);
    lemma_fetch_error_stays(tx, responses, (k + 1) as nat, n);
}

/// An input whose output index is past the end of its parent's outputs
/// fails the resolution with `MissingOutput`, where every parent was fetched
/// and no earlier input failed first.
pub proof fn lemma_missing_output(tx: TxView, responses: Seq<Option<ReplyView>>, n: nat, k: int)
    requires
        0 <= k < n,
        forall|i: int| 0 <= i < n ==> (#[trigger] parent_outcome(tx, i, responses[i])) is Ok,
        tx.inputs[k].vout >= parent_outcome(tx, k, responses[k])->Ok_0.outputs.len(),
        forall|j: int| 0 <= j < k ==> (#[trigger] input_outcome(tx, j, responses[j])) is Ok,
    ensures
        resolve_outcome(tx, responses, n) == Err::<Seq<Seq<char>>, TxError>(TxError::MissingOutput),
{
    lemma_fetch_phase_ok(tx, responses, n);
    let parents = fetch_phase(tx, responses, n)->Ok_0;
    assert forall|j: int| 0 <= j < k implies (#[trigger] spent_address(
        parents[j],
        tx.inputs[j].vout,
    )) is Ok by {
        assert(input_outcome(tx, j, responses[j]) is Ok);
        assert(parent_outcome(tx, j, responses[j]) is Ok);
    }
    assert(parent_outcome(tx, k, responses[k]) is Ok);
    lemma_derive_first_error(tx, parents, n, k);
}

} // verus!
