use vstd::prelude::*;
use crate::errors::Error;
use crate::record::{RecordView, valid_input, valid_record};
use crate::store::{
    StoreModel, event_of, init_model, read_result, record_of, write_result, write_state,
};

verus! {

/// A read that happens before any write for its identity yields
/// `NotFound`: the initial store has no slot populated, and a write for
/// a different identity never populates this one.
pub proof fn lemma_read_before_write(
    m: StoreModel,
    u: u64,
    v: u64,
    used_amount: int,
    cid: Seq<char>,
    prev_txn: Seq<char>,
    metadata: Option<Seq<char>>,
    authorized: bool,
    now: int,
)
    requires
        v != u,
    ensures
        read_result(init_model(), u) == Err::<RecordView, Error>(Error::NotFound),
        read_result(write_state(m, v, used_amount, cid, prev_txn, metadata, authorized, now), u)
            == read_result(m, u),
{
}

/// A write with valid inputs by an authorized caller succeeds, and an
/// immediately following read returns exactly the record written: the
/// caller's fields, timestamped with the ledger clock value at write
/// time.
pub proof fn lemma_write_then_read(
    m: StoreModel,
    u: u64,
    used_amount: int,
    cid: Seq<char>,
    prev_txn: Seq<char>,
    metadata: Option<Seq<char>>,
    now: int,
)
    requires
        valid_input(used_amount, cid, prev_txn),
    ensures
        write_result(used_amount, cid, prev_txn, true) == Ok::<(), Error>(()),
        read_result(write_state(m, u, used_amount, cid, prev_txn, metadata, true, now), u)
            == Ok::<RecordView, Error>(record_of(used_amount, cid, prev_txn, now, metadata)),
{
}

/// Overwrite discipline: two successive successful writes for the same
/// identity leave exactly one record — the second. The slot map afterwards
/// does not depend on the first record in any way, and a read retrieves
/// the second record; the first is unrecoverable.
pub proof fn lemma_overwrite(
    m: StoreModel,
    u: u64,
    amount1: int,
    cid1: Seq<char>,
    prev1: Seq<char>,
    meta1: Option<Seq<char>>,
    now1: int,
    amount2: int,
    cid2: Seq<char>,
    prev2: Seq<char>,
    meta2: Option<Seq<char>>,
    now2: int,
)
    requires
        valid_input(amount1, cid1, prev1),
        valid_input(amount2, cid2, prev2),
    ensures
        ({
            let m1 = write_state(m, u, amount1, cid1, prev1, meta1, true, now1);
            let m2 = write_state(m1, u, amount2, cid2, prev2, meta2, true, now2);
            &&& m2.slots == m.slots.insert(u, record_of(amount2, cid2, prev2, now2, meta2))
            &&& read_result(m2, u) == Ok::<RecordView, Error>(
                record_of(amount2, cid2, prev2, now2, meta2),
            )
        }),
{
    let m1 = write_state(m, u, amount1, cid1, prev1, meta1, true, now1);
    let m2 = write_state(m1, u, amount2, cid2, prev2, meta2, true, now2);
    assert(m2.slots =~= m.slots.insert(u, record_of(amount2, cid2, prev2, now2, meta2)));
}

/// A write without valid authorization fails with `Unauthorized` —
/// whatever the other inputs — and leaves the store untouched: no record
/// is stored and no notification is emitted.
pub proof fn lemma_unauthorized_write(
    m: StoreModel,
    u: u64,
    used_amount: int,
    cid: Seq<char>,
    prev_txn: Seq<char>,
    metadata: Option<Seq<char>>,
    now: int,
)
    ensures
        write_result(used_amount, cid, prev_txn, false) == Err::<(), Error>(Error::Unauthorized),
        write_state(m, u, used_amount, cid, prev_txn, metadata, false, now) == m,
{
}

/// Every successful write emits exactly one `stored` notification, whose
/// payload is the written content id and amount; a failed write emits
/// none.
pub proof fn lemma_notification(
    m: StoreModel,
    u: u64,
    used_amount: int,
    cid: Seq<char>,
    prev_txn: Seq<char>,
    metadata: Option<Seq<char>>,
    authorized: bool,
    now: int,
)
    ensures
        write_result(used_amount, cid, prev_txn, authorized) is Ok ==> write_state(
            m,
            u,
            used_amount,
            cid,
            prev_txn,
            metadata,
            authorized,
            now,
        ).events == m.events.push(event_of(u, cid, used_amount)),
        write_result(used_amount, cid, prev_txn, authorized) is Err ==> write_state(
            m,
            u,
            used_amount,
            cid,
            prev_txn,
            metadata,
            authorized,
            now,
        ).events == m.events,
{
}

/// Reads need no authorization: whatever state the store is in, a
/// populated slot is readable as it stands — `read_result` takes no
/// authorization verdict at all.
pub proof fn lemma_read_populated(m: StoreModel, u: u64)
    requires
        m.slots.contains_key(u),
    ensures
        read_result(m, u) == Ok::<RecordView, Error>(m.slots[u]),
{
}

/// The store's invariant: every stored record went through validation at
/// creation time, and a write preserves that — validation is enforced at
/// write, never re-checked after.
pub open spec fn valid_model(m: StoreModel) -> bool {
    forall|u: u64| m.slots.contains_key(u) ==> valid_record(#[trigger] m.slots[u])
}

/// The initial store satisfies the invariant, and every write — successful
/// or failed — preserves it.
pub proof fn lemma_write_preserves_validity(
    m: StoreModel,
    u: u64,
    used_amount: int,
    cid: Seq<char>,
    prev_txn: Seq<char>,
    metadata: Option<Seq<char>>,
    authorized: bool,
    now: int,
)
    requires
        valid_model(m),
    ensures
        valid_model(init_model()),
        valid_model(write_state(m, u, used_amount, cid, prev_txn, metadata, authorized, now)),
{
}

} // verus!
