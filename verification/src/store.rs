use vstd::prelude::*;
use std::collections::HashMap;
use crate::errors::Error;
use crate::record::{RecordView, UsageRecord, opt_view, valid_input};

verus! {

broadcast use vstd::std_specs::hash::group_hash_axioms;

/// The tagged storage key: a record is persisted under
/// `LatestRecord(identity)`, so one identity maps to at most one record.
#[derive(Copy, Clone, Debug, PartialEq, Eq, Structural)]
pub enum DataKey {
    LatestRecord(u64),
}

impl DataKey {
    /// The identity a key addresses.
    pub open spec fn spec_user(self) -> u64 {
        match self {
            DataKey::LatestRecord(u) => u,
        }
    }

    /// Extracts the identity component of the key.
    pub fn user(&self) -> (u: u64)
        ensures
            u == self.spec_user(),
    {
        match self {
            DataKey::LatestRecord(u) => *u,
        }
    }
}

/// Mathematical value of a `stored` notification.
#[verifier::ext_equal]
pub ghost struct EventView {
    pub user: u64,
    pub cid: Seq<char>,
    pub used_amount: int,
}

/// One `stored` notification: emitted exactly once per successful write,
/// keyed by the written identity and carrying the content id and amount
/// as payload.
#[derive(Debug, PartialEq, Eq)]
pub struct StoredEvent {
    pub user: u64,
    pub cid: String,
    pub used_amount: i128,
}

impl View for StoredEvent {
    type V = EventView;

    open spec fn view(&self) -> EventView {
        EventView { user: self.user, cid: self.cid@, used_amount: self.used_amount as int }
    }
}

impl StoredEvent {
    /// The topic every notification of the store is published under.
    pub fn topic(&self) -> (t: &'static str)
        ensures
            t@ == "stored"@,
    {
        "stored"
    }
}

/// Mathematical state of the usage store: the slot of each identity that
/// has one, and the notifications emitted so far, oldest first.
#[verifier::ext_equal]
pub ghost struct StoreModel {
    pub slots: Map<u64, RecordView>,
    pub events: Seq<EventView>,
}

/// The state of a freshly created store: no slot populated, nothing emitted.
pub open spec fn init_model() -> StoreModel {
    StoreModel { slots: Map::empty(), events: Seq::empty() }
}

/// The record a successful write stores: the caller's fields plus the
/// ledger clock value `now` as the timestamp.
pub open spec fn record_of(
    used_amount: int,
    cid: Seq<char>,
    prev_txn: Seq<char>,
    now: int,
    metadata: Option<Seq<char>>,
) -> RecordView {
    RecordView { used_amount, cid, prev_txn, timestamp: now, metadata }
}

/// The notification a successful write emits.
pub open spec fn event_of(user: u64, cid: Seq<char>, used_amount: int) -> EventView {
    EventView { user, cid, used_amount }
}

/// Whether a write goes through: the caller is authorized and the inputs
/// pass validation.
pub open spec fn write_allowed(
    used_amount: int,
    cid: Seq<char>,
    prev_txn: Seq<char>,
    authorized: bool,
) -> bool {
    authorized && valid_input(used_amount, cid, prev_txn)
}

/// What a write returns: authorization is checked first, so an
/// unauthorized caller never observes validation distinctions; then the
/// inputs are validated as one combined predicate.
pub open spec fn write_result(
    used_amount: int,
    cid: Seq<char>,
    prev_txn: Seq<char>,
    authorized: bool,
) -> Result<(), Error> {
    if !authorized {
        Err(Error::Unauthorized)
    } else if !valid_input(used_amount, cid, prev_txn) {
        Err(Error::InvalidInput)
    } else {
        Ok(())
    }
}

/// How a write transforms the store: on success the identity's slot is
/// unconditionally overwritten and one notification is appended; on any
/// failure the state is untouched.
pub open spec fn write_state(
    m: StoreModel,
    user: u64,
    used_amount: int,
    cid: Seq<char>,
    prev_txn: Seq<char>,
    metadata: Option<Seq<char>>,
    authorized: bool,
    now: int,
) -> StoreModel {
    if write_allowed(used_amount, cid, prev_txn, authorized) {
        StoreModel {
            slots: m.slots.insert(user, record_of(used_amount, cid, prev_txn, now, metadata)),
            events: m.events.push(event_of(user, cid, used_amount)),
        }
    } else {
        m
    }
}

/// What a read returns: the stored record if the identity's slot is
/// populated, `NotFound` otherwise. No other failure mode, and no
/// authorization is required.
pub open spec fn read_result(m: StoreModel, user: u64) -> Result<RecordView, Error> {
    if m.slots.contains_key(user) {
        Ok(m.slots[user])
    } else {
        Err(Error::NotFound)
    }
}

/// The view of what a read hands back.
pub open spec fn read_view(r: Result<UsageRecord, Error>) -> Result<RecordView, Error> {
    match r {
        Ok(rec) => Ok(rec@),
        Err(e) => Err(e),
    }
}

/// The usage store: one slot per identity, plus the notifications emitted
/// so far. The host substrate that owns durability is modeled as the
/// keyed map this store carries.
pub struct SimpleDataStore {
    records: HashMap<u64, UsageRecord>,
    events: Vec<StoredEvent>,
}

impl View for SimpleDataStore {
    type V = StoreModel;

    closed spec fn view(&self) -> StoreModel {
        StoreModel {
            slots: self.records@.map_values(|r: UsageRecord| r@),
            events: self.events@.map_values(|e: StoredEvent| e@),
        }
    }
}

/// The write-path validation, applied only after authorization: returns
/// `InvalidInput` exactly when the amount is not strictly positive or an
/// identifier field is empty.
pub fn check_write_inputs(used_amount: i128, cid: &str, prev_txn: &str) -> (r: Result<(), Error>)
    ensures
        r == write_result(used_amount as int, cid@, prev_txn@, true),
{
    if cid.is_empty() || prev_txn.is_empty() || used_amount <= 0 {
        Err(Error::InvalidInput)
    } else {
        Ok(())
    }
}

impl SimpleDataStore {
    /// Creates an empty store: every identity's slot starts `Empty`.
    pub fn new() -> (s: SimpleDataStore)
        ensures
            s@ == init_model(),
    {
        let s = SimpleDataStore { records: HashMap::new(), events: Vec::new() };
        proof {
            assert(s@.slots =~= init_model().slots);
            assert(s@.events =~= init_model().events);
            assert(s@ =~~= init_model());
        }
        s
    }

    /// Writes the latest usage record for `user`.
    ///
    /// `authorized` is the verdict of the host's authorization mechanism
    /// for `user`, and `now` the host ledger clock, both supplied by the
    /// caller at the trust boundary. Authorization is checked before
    /// validation; on success the record overwrites the slot and exactly
    /// one `stored` notification is appended; on failure nothing changes.
    pub fn store_data(
        &mut self,
        user: u64,
        used_amount: i128,
        cid: String,
        prev_txn: String,
        metadata: Option<String>,
        authorized: bool,
        now: u64,
    ) -> (r: Result<(), Error>)
        ensures
            r == write_result(used_amount as int, cid@, prev_txn@, authorized),
            final(self)@ == write_state(
                old(self)@,
                user,
                used_amount as int,
                cid@,
                prev_txn@,
                opt_view(metadata),
                authorized,
                now as int,
            ),
    {
        let ghost target = write_state(
            self@,
            user,
            used_amount as int,
            cid@,
            prev_txn@,
            opt_view(metadata),
            authorized,
            now as int,
        );
        if !authorized {
            return Err(Error::Unauthorized);
        }
        match check_write_inputs(used_amount, cid.as_str(), prev_txn.as_str()) {
            Err(e) => {
                return Err(e);
            },
            Ok(()) => {},
        }
        let event_cid = cid.clone();
        let new_record = UsageRecord {
            used_amount,
            cid,
            prev_txn,
            timestamp: now,
            metadata,
        };
        self.records.insert(user, new_record);
        self.events.push(StoredEvent { user, cid: event_cid, used_amount });
        proof {
            assert(self@.slots =~= target.slots);
            assert(self@.events =~= target.events);
            assert(self@ =~~= target);
        }
        Ok(())
    }

    /// Reads the latest usage record of `user`: the stored record if the
    /// slot is populated, `NotFound` otherwise. Requires no authorization
    /// and never changes state.
    pub fn get_latest(&self, user: u64) -> (r: Result<UsageRecord, Error>)
        ensures
            read_view(r) == read_result(self@, user),
    {
        match self.records.get(&user) {
            Some(rec) => {
                proof {
                    assert(self@.slots.contains_key(user));
                    assert(self@.slots[user] == rec@);
                }
                Ok(rec.clone())
            },
            None => {
                proof {
                    assert(!self@.slots.contains_key(user));
                }
                Err(Error::NotFound)
            },
        }
    }

    /// How many notifications the store has emitted so far.
    pub fn event_count(&self) -> (n: usize)
        ensures
            n == self@.events.len(),
    {
        self.events.len()
    }

    /// The `i`th notification emitted, oldest first.
    pub fn event_at(&self, i: usize) -> (e: &StoredEvent)
        requires
            i < self@.events.len(),
        ensures
            e@ == self@.events[i as int],
    {
        &self.events[i]
    }
}

} // verus!
