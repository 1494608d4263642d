use vstd::prelude::*;

verus! {

/// Mathematical value of a usage record: the fields a record carries,
/// as unbounded integers and character sequences.
#[verifier::ext_equal]
pub ghost struct RecordView {
    pub used_amount: int,
    pub cid: Seq<char>,
    pub prev_txn: Seq<char>,
    pub timestamp: int,
    pub metadata: Option<Seq<char>>,
}

/// The write-time validation predicate: the amount is strictly positive
/// and both identifier fields are non-empty.
pub open spec fn valid_input(used_amount: int, cid: Seq<char>, prev_txn: Seq<char>) -> bool {
    &&& used_amount > 0
    &&& cid.len() > 0
    &&& prev_txn.len() > 0
}

/// A record view that went through validation at creation time.
pub open spec fn valid_record(r: RecordView) -> bool {
    valid_input(r.used_amount, r.cid, r.prev_txn)
}

/// The view of an optional text field.
pub open spec fn opt_view(m: Option<String>) -> Option<Seq<char>> {
    match m {
        Some(s) => Some(s@),
        None => None,
    }
}

/// One usage record: immutable once constructed, created only by a
/// successful write. `timestamp` comes from the host ledger clock at
/// write time, never from the caller.
#[derive(Debug, PartialEq, Eq)]
pub struct UsageRecord {
    pub used_amount: i128,
    pub cid: String,
    pub prev_txn: String,
    pub timestamp: u64,
    pub metadata: Option<String>,
}

impl View for UsageRecord {
    type V = RecordView;

    open spec fn view(&self) -> RecordView {
        RecordView {
            used_amount: self.used_amount as int,
            cid: self.cid@,
            prev_txn: self.prev_txn@,
            timestamp: self.timestamp as int,
            metadata: match self.metadata {
                Some(m) => Some(m@),
                None => None,
            },
        }
    }
}

impl Clone for UsageRecord {
    fn clone(&self) -> (r: Self)
        ensures
            r == *self,
    {
        UsageRecord {
            used_amount: self.used_amount,
            cid: self.cid.clone(),
            prev_txn: self.prev_txn.clone(),
            timestamp: self.timestamp,
            metadata: match &self.metadata {
                Some(m) => Some(m.clone()),
                None => None,
            },
        }
    }
}

} // verus!
