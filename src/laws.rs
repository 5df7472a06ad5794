use vstd::prelude::*;
use crate::error::{ErrorKind, TransferError, kind_of};
use crate::ledger::{latest_balance, balance_of};
use crate::service::{ServiceState, create_transfer_post, current_balance, ledger_refs_known};
use crate::status::{EventType, TransferStatus};
use crate::time::Timestamp;
use crate::transfer::{CreateTransferRequest, Transfer, note_fits};
use crate::transfer_store::{
    key_index, lemma_key_index_range, paging_error, transfer_page, transfer_with_key,
};
use crate::users::user_with_id;

verus! {

/// A completed transfer writes two entries that reference it, a debit of the
/// amount on the sender and a credit of the amount on the receiver, which sum
/// to zero; the sender's balance falls by the amount, the receiver's rises by
/// it, and every other user's balance stays as it was.
pub proof fn lemma_conservation(
    before: ServiceState,
    req: CreateTransferRequest,
    key: String,
    at: Timestamp,
    after: ServiceState,
    r: Result<Transfer, TransferError>,
)
    requires
        create_transfer_post(before, req, key, at, after, r),
        r is Ok,
        r->Ok_0.status == TransferStatus::Completed,
    ensures
        ({
            let n = before.ledger.len() as int;
            let t = r->Ok_0;
            &&& after.ledger.len() == n + 2
            &&& after.ledger[n].event_type == EventType::TransferOut
            &&& after.ledger[n + 1].event_type == EventType::TransferIn
            &&& after.ledger[n].transfer_id == t.transfer_id
            &&& after.ledger[n + 1].transfer_id == t.transfer_id
            &&& after.ledger[n].user_id == t.from_user_id
            &&& after.ledger[n + 1].user_id == t.to_user_id
            &&& after.ledger[n].change == -(t.amount as int)
            &&& after.ledger[n + 1].change == t.amount as int
            &&& after.ledger[n].change + after.ledger[n + 1].change == 0
        }),
        current_balance(after, req.from_user_id) == current_balance(before, req.from_user_id)
            - req.amount,
        current_balance(after, req.to_user_id) == current_balance(before, req.to_user_id)
            + req.amount,
        forall|u: u32|
            u != req.from_user_id && u != req.to_user_id ==> #[trigger] current_balance(after, u)
                == current_balance(before, u),
{
    let n = before.ledger.len() as int;
    let a1 = after.ledger.drop_last();
    assert(a1.drop_last() =~= before.ledger);
    assert(a1.last() == after.ledger[n]);
    assert(after.ledger.last() == after.ledger[n + 1]);
    assert(latest_balance(after.ledger, req.from_user_id) == latest_balance(a1, req.from_user_id));
    assert(latest_balance(after.ledger, req.to_user_id) == Some(after.ledger[n + 1].balance_after));
    assert forall|u: u32|
        u != req.from_user_id && u != req.to_user_id implies #[trigger] current_balance(after, u)
        == current_balance(before, u) by {
        assert(latest_balance(after.ledger, u) == latest_balance(a1, u));
        assert(latest_balance(a1, u) == latest_balance(a1.drop_last(), u));
    }
}

/// On a ledger that names only recorded transfers, the two entries that a
/// completed transfer writes are the only entries that reference it.
pub proof fn lemma_transfer_entries_exclusive(
    before: ServiceState,
    req: CreateTransferRequest,
    key: String,
    at: Timestamp,
    after: ServiceState,
    r: Result<Transfer, TransferError>,
)
    requires
        create_transfer_post(before, req, key, at, after, r),
        ledger_refs_known(before),
        r is Ok,
        r->Ok_0.status == TransferStatus::Completed,
    ensures
        forall|i: int|
            0 <= i < after.ledger.len() ==> ((#[trigger] after.ledger[i]).transfer_id
                == r->Ok_0.transfer_id <==> i == before.ledger.len() || i == before.ledger.len()
                + 1),
{
    let n = before.ledger.len() as int;
    assert forall|i: int| 0 <= i < n implies #[trigger] after.ledger[i] == before.ledger[i] by {
        assert(after.ledger.subrange(0, n)[i] == after.ledger[i]);
    }
}

/// A created transfer's key is held by no earlier transfer, and looking the
/// key up afterwards finds the created transfer, with the request's users and
/// amount.
pub proof fn lemma_created_key_is_fresh(
    before: ServiceState,
    req: CreateTransferRequest,
    key: String,
    at: Timestamp,
    after: ServiceState,
    r: Result<Transfer, TransferError>,
)
    requires
        create_transfer_post(before, req, key, at, after, r),
        r is Ok,
    ensures
        forall|i: int|
            0 <= i < before.transfers.len() ==> #[trigger] before.transfers[i].idem_key@
                != r->Ok_0.idem_key@,
        transfer_with_key(after.transfers, r->Ok_0.idem_key@) == Some(r->Ok_0),
        r->Ok_0.from_user_id == req.from_user_id,
        r->Ok_0.to_user_id == req.to_user_id,
        r->Ok_0.amount == req.amount,
{
    lemma_key_index_range(before.transfers, key@);
}

/// Two transfers created one after the other never share an idempotency key.
pub proof fn lemma_keys_never_repeat(
    s0: ServiceState,
    req1: CreateTransferRequest,
    key1: String,
    at1: Timestamp,
    s1: ServiceState,
    r1: Result<Transfer, TransferError>,
    req2: CreateTransferRequest,
    key2: String,
    at2: Timestamp,
    s2: ServiceState,
    r2: Result<Transfer, TransferError>,
)
    requires
        create_transfer_post(s0, req1, key1, at1, s1, r1),
        create_transfer_post(s1, req2, key2, at2, s2, r2),
        r1 is Ok,
        r2 is Ok,
    ensures
        r1->Ok_0.idem_key@ != r2->Ok_0.idem_key@,
{
    lemma_created_key_is_fresh(s1, req2, key2, at2, s2, r2);
    assert(s1.transfers[s1.transfers.len() - 1] == r1->Ok_0);
}

/// A valid request between existing users whose amount exceeds the sender's
/// balance is refused for insufficient points and writes nothing.
pub proof fn lemma_insufficient_points_refused(
    before: ServiceState,
    req: CreateTransferRequest,
    key: String,
    at: Timestamp,
    after: ServiceState,
    r: Result<Transfer, TransferError>,
)
    requires
        create_transfer_post(before, req, key, at, after, r),
        req.amount > 0,
        req.from_user_id != req.to_user_id,
        note_fits(req.note),
        user_with_id(before.users, req.from_user_id) is Some,
        user_with_id(before.users, req.to_user_id) is Some,
        req.amount > current_balance(before, req.from_user_id),
    ensures
        r == Err::<Transfer, TransferError>(TransferError::InsufficientPoints),
        after.ledger == before.ledger,
        after.transfers == before.transfers,
{
}

/// A request with a zero amount, one user on both sides, or an over-long note
/// is refused as invalid and changes nothing.
pub proof fn lemma_invalid_request_refused(
    before: ServiceState,
    req: CreateTransferRequest,
    key: String,
    at: Timestamp,
    after: ServiceState,
    r: Result<Transfer, TransferError>,
)
    requires
        create_transfer_post(before, req, key, at, after, r),
        req.amount == 0 || req.from_user_id == req.to_user_id || !note_fits(req.note),
    ensures
        r is Err,
        kind_of(r->Err_0) == ErrorKind::Validation,
        after == before,
{
}

/// Page 0, page size 0 and page size 201 are refused as invalid; an accepted
/// listing holds at most `page_size` transfers.
pub proof fn lemma_paging_bounds(s: Seq<Transfer>, u: u32, page: u32, page_size: u32)
    ensures
        paging_error(0, page_size) == Some(TransferError::InvalidPage),
        page > 0 ==> paging_error(page, 0) == Some(TransferError::InvalidPageSize),
        page > 0 ==> paging_error(page, 201) == Some(TransferError::InvalidPageSize),
        paging_error(page, page_size) is None ==> transfer_page(s, u, page, page_size).len()
            <= page_size,
{
}

/// The sum of the amounts of a sequence of requests.
pub open spec fn amount_sum(reqs: Seq<CreateTransferRequest>) -> int
    decreases reqs.len(),
{
    if reqs.len() == 0 {
        0
    } else {
        amount_sum(reqs.drop_last()) + reqs.last().amount
    }
}

/// `states[i + 1]` and `results[i]` are what creating `reqs[i]` under
/// `keys[i]` at `ats[i]` gives on `states[i]`, for each `i`.
pub open spec fn is_run(
    states: Seq<ServiceState>,
    reqs: Seq<CreateTransferRequest>,
    keys: Seq<String>,
    ats: Seq<Timestamp>,
    results: Seq<Result<Transfer, TransferError>>,
) -> bool {
    &&& states.len() == reqs.len() + 1
    &&& keys.len() == reqs.len()
    &&& ats.len() == reqs.len()
    &&& results.len() == reqs.len()
    &&& forall|i: int|
        0 <= i < reqs.len() ==> create_transfer_post(
            #[trigger] states[i],
            reqs[i],
            keys[i],
            ats[i],
            states[i + 1],
            results[i],
        )
}

/// A run of valid transfers out of `sender` that the sender's balance covers,
/// under fresh distinct keys, within the stores' id ranges and without
/// overflowing any receiver's balance.
pub open spec fn covered_debits(
    states: Seq<ServiceState>,
    reqs: Seq<CreateTransferRequest>,
    keys: Seq<String>,
    ats: Seq<Timestamp>,
    results: Seq<Result<Transfer, TransferError>>,
    sender: u32,
) -> bool {
    let s0 = states[0];
    &&& is_run(states, reqs, keys, ats, results)
    &&& user_with_id(s0.users, sender) is Some
    &&& forall|i: int|
        0 <= i < reqs.len() ==> {
            &&& (#[trigger] reqs[i]).from_user_id == sender
            &&& reqs[i].to_user_id != sender
            &&& reqs[i].amount > 0
            &&& note_fits(reqs[i].note)
            &&& user_with_id(s0.users, reqs[i].to_user_id) is Some
            &&& current_balance(s0, reqs[i].to_user_id) + amount_sum(reqs) <= u64::MAX
        }
    &&& amount_sum(reqs) <= current_balance(s0, sender)
    &&& forall|i: int| 0 <= i < keys.len() ==> key_index(s0.transfers, (#[trigger] keys[i])@) < 0
    &&& forall|i: int, j: int|
        0 <= i < keys.len() && 0 <= j < keys.len() && i != j ==> (#[trigger] keys[i])@ != (
        #[trigger] keys[j])@
    &&& s0.transfers.len() + reqs.len() <= u32::MAX
    &&& s0.ledger.len() + 2 * reqs.len() <= u32::MAX
}

proof fn lemma_amount_sum_prefix(reqs: Seq<CreateTransferRequest>, k: int, m: int)
    requires
        0 <= k <= m <= reqs.len(),
    ensures
        0 <= amount_sum(reqs.take(k)) <= amount_sum(reqs.take(m)),
    decreases m,
{
    if m > 0 {
        assert(reqs.take(m).drop_last() =~= reqs.take(m - 1));
        if k < m {
            lemma_amount_sum_prefix(reqs, k, m - 1);
        } else {
            lemma_amount_sum_prefix(reqs, k - 1, m - 1);
        }
    } else {
        assert(reqs.take(0) =~= Seq::<CreateTransferRequest>::empty());
    }
}

proof fn lemma_covered_step(
    si: ServiceState,
    req: CreateTransferRequest,
    key: String,
    at: Timestamp,
    sk: ServiceState,
    r: Result<Transfer, TransferError>,
)
    requires
        create_transfer_post(si, req, key, at, sk, r),
        req.amount > 0,
        req.from_user_id != req.to_user_id,
        note_fits(req.note),
        user_with_id(si.users, req.from_user_id) is Some,
        user_with_id(si.users, req.to_user_id) is Some,
        current_balance(si, req.from_user_id) >= req.amount,
        current_balance(si, req.to_user_id) + req.amount <= u64::MAX,
        key_index(si.transfers, key@) < 0,
        si.transfers.len() < u32::MAX,
        si.ledger.len() + 2 <= u32::MAX,
    ensures
        r is Ok,
        r->Ok_0.status == TransferStatus::Completed,
        r->Ok_0.idem_key == key,
        sk.users == si.users,
        sk.transfers == si.transfers.push(r->Ok_0),
        sk.ledger.len() == si.ledger.len() + 2,
        current_balance(sk, req.from_user_id) == current_balance(si, req.from_user_id) - req.amount,
        current_balance(sk, req.to_user_id) == current_balance(si, req.to_user_id) + req.amount,
        forall|u: u32|
            u != req.from_user_id && u != req.to_user_id ==> #[trigger] current_balance(sk, u)
                == current_balance(si, u),
{
    lemma_conservation(si, req, key, at, sk, r);
}

proof fn lemma_fresh_key(s0: Seq<Transfer>, si: Seq<Transfer>, keys: Seq<String>, i: int)
    requires
        0 <= i < keys.len(),
        si.len() == s0.len() + i,
        si.subrange(0, s0.len() as int) == s0,
        forall|j: int| 0 <= j < i ==> #[trigger] si[s0.len() + j].idem_key == keys[j],
        forall|j: int| 0 <= j < keys.len() ==> key_index(s0, (#[trigger] keys[j])@) < 0,
        forall|a: int, b: int|
            0 <= a < keys.len() && 0 <= b < keys.len() && a != b ==> (#[trigger] keys[a])@ != (
            #[trigger] keys[b])@,
    ensures
        key_index(si, keys[i]@) < 0,
{
    let key = keys[i];
    let n0 = s0.len() as int;
    lemma_key_index_range(si, key@);
    lemma_key_index_range(s0, key@);
    if key_index(si, key@) >= 0 {
        let idx = key_index(si, key@);
        if idx < n0 {
            assert(si.subrange(0, n0)[idx] == si[idx]);
            assert(s0[idx].idem_key@ == key@);
        } else {
            let j = idx - n0;
            assert(si[n0 + j].idem_key == keys[j]);
            assert(keys[j]@ == keys[i]@);
        }
    }
}

proof fn lemma_run_prefix(
    states: Seq<ServiceState>,
    reqs: Seq<CreateTransferRequest>,
    keys: Seq<String>,
    ats: Seq<Timestamp>,
    results: Seq<Result<Transfer, TransferError>>,
    sender: u32,
    k: int,
)
    requires
        covered_debits(states, reqs, keys, ats, results, sender),
        0 <= k <= reqs.len(),
    ensures
        forall|i: int|
            0 <= i < k ==> (#[trigger] results[i]) is Ok && results[i]->Ok_0.status
                == TransferStatus::Completed,
        states[k].users == states[0].users,
        states[k].transfers.len() == states[0].transfers.len() + k,
        states[k].transfers.subrange(0, states[0].transfers.len() as int) == states[0].transfers,
        forall|j: int|
            0 <= j < k ==> #[trigger] states[k].transfers[states[0].transfers.len() + j].idem_key
                == keys[j],
        states[k].ledger.len() == states[0].ledger.len() + 2 * k,
        current_balance(states[k], sender) == current_balance(states[0], sender) - amount_sum(
            reqs.take(k),
        ),
        forall|u: u32|
            u != sender ==> #[trigger] current_balance(states[k], u) <= current_balance(
                states[0],
                u,
            ) + amount_sum(reqs.take(k)),
    decreases k,
{
    let s0 = states[0];
    let n0 = s0.transfers.len() as int;
    if k == 0 {
        assert(reqs.take(0) =~= Seq::<CreateTransferRequest>::empty());
        assert(s0.transfers.subrange(0, n0) =~= s0.transfers);
    } else {
        let i = k - 1;
        lemma_run_prefix(states, reqs, keys, ats, results, sender, i);
        let si = states[i];
        let req = reqs[i];
        let key = keys[i];
        assert(create_transfer_post(si, req, key, ats[i], states[k], results[i]));
        assert(reqs.take(k).drop_last() =~= reqs.take(i));
        assert(reqs.take(k).last() == req);
        lemma_amount_sum_prefix(reqs, k, reqs.len() as int);
        lemma_amount_sum_prefix(reqs, i, k);
        assert(reqs.take(reqs.len() as int) =~= reqs);
        lemma_fresh_key(s0.transfers, si.transfers, keys, i);
        let r = results[i];
        assert(current_balance(si, req.to_user_id) <= current_balance(s0, req.to_user_id)
            + amount_sum(reqs.take(i)));
        lemma_covered_step(si, req, key, ats[i], states[k], r);
        let sk = states[k];
        assert(sk.transfers.subrange(0, n0) =~= si.transfers.subrange(0, n0));
        assert forall|j: int| 0 <= j < k implies #[trigger] sk.transfers[n0 + j].idem_key
            == keys[j] by {
            if j < i {
                assert(sk.transfers[n0 + j] == si.transfers[n0 + j]);
            }
        }
        assert forall|u: u32| u != sender implies #[trigger] current_balance(sk, u)
            <= current_balance(s0, u) + amount_sum(reqs.take(k)) by {
            assert(current_balance(si, u) <= current_balance(s0, u) + amount_sum(reqs.take(i)));
        }
    }
}

/// Transfers out of one user, made one after another, whose amounts sum to at
/// most the user's balance all complete, and leave the user with the balance
/// less that sum. (Keys are fresh and distinct, and the stores' id ranges and
/// the receivers' balances have room.)
pub proof fn lemma_serialized_debits(
    states: Seq<ServiceState>,
    reqs: Seq<CreateTransferRequest>,
    keys: Seq<String>,
    ats: Seq<Timestamp>,
    results: Seq<Result<Transfer, TransferError>>,
    sender: u32,
)
    requires
        covered_debits(states, reqs, keys, ats, results, sender),
    ensures
        forall|i: int|
            0 <= i < reqs.len() ==> (#[trigger] results[i]) is Ok && results[i]->Ok_0.status
                == TransferStatus::Completed,
        current_balance(states[reqs.len() as int], sender) == current_balance(states[0], sender)
            - amount_sum(reqs),
{
    lemma_run_prefix(states, reqs, keys, ats, results, sender, reqs.len() as int);
    assert(reqs.take(reqs.len() as int) =~= reqs);
}

} // verus!
