use vstd::prelude::*;

use crate::identity::keys_equal;
use crate::types::{CSAMembership, Error, MembershipView};

verus! {

/// The mutating operation that a lifecycle notification reports.
#[derive(PartialEq, Eq, Structural, Clone, Copy, Debug)]
pub enum Operation {
    Enroll,
    Update,
    Cancel,
}

impl Operation {
    /// The first topic label of a notification for this operation.
    pub fn topic(&self) -> (r: &'static str)
        ensures
            *self == Operation::Enroll ==> r@ == "enroll_membership"@,
            *self == Operation::Update ==> r@ == "update_pickup_location"@,
            *self == Operation::Cancel ==> r@ == "cancel_membership"@,
    {
        match self {
            Operation::Enroll => "enroll_membership",
            Operation::Update => "update_pickup_location",
            Operation::Cancel => "cancel_membership",
        }
    }

    /// The second topic label of every notification.
    pub fn outcome(&self) -> (r: &'static str)
        ensures
            r@ == "success"@,
    {
        "success"
    }
}

/// A lifecycle notification: which operation succeeded, the encoded identity
/// of the caller, and the token id of the record.
#[derive(Debug, PartialEq, Eq)]
pub struct Event {
    pub operation: Operation,
    pub member: Vec<u8>,
    pub token_id: [u8; 32],
}

/// The mathematical value of an `Event`.
pub struct EventView {
    pub operation: Operation,
    pub member: Seq<u8>,
    pub token_id: Seq<u8>,
}

impl View for Event {
    type V = EventView;

    open spec fn view(&self) -> EventView {
        EventView { operation: self.operation, member: self.member@, token_id: self.token_id@ }
    }
}

/// The records of a store as a map from token id to record.
pub open spec fn map_of(s: Seq<([u8; 32], CSAMembership)>) -> Map<Seq<u8>, MembershipView> {
    Map::new(
        |k: Seq<u8>| exists|i: int| 0 <= i < s.len() && #[trigger] s[i].0@ == k,
        |k: Seq<u8>| s[choose|i: int| 0 <= i < s.len() && #[trigger] s[i].0@ == k].1@,
    )
}

/// No two entries of a store share a token id.
pub open spec fn keys_unique(s: Seq<([u8; 32], CSAMembership)>) -> bool {
    forall|i: int, j: int|
        0 <= i < s.len() && 0 <= j < s.len() && #[trigger] s[i].0@ == #[trigger] s[j].0@ ==> i == j
}

proof fn lemma_map_of_index(s: Seq<([u8; 32], CSAMembership)>, i: int)
    requires
        keys_unique(s),
        0 <= i < s.len(),
    ensures
        map_of(s).contains_key(s[i].0@),
        map_of(s)[s[i].0@] == s[i].1@,
{
    let k = s[i].0@;
    assert(s[i].0@ == k);
    let j = choose|j: int| 0 <= j < s.len() && #[trigger] s[j].0@ == k;
    assert(s[j].0@ == s[i].0@);
}

proof fn lemma_map_of_push(s: Seq<([u8; 32], CSAMembership)>, e: ([u8; 32], CSAMembership))
    requires
        keys_unique(s),
        !map_of(s).contains_key(e.0@),
    ensures
        keys_unique(s.push(e)),
        map_of(s.push(e)) == map_of(s).insert(e.0@, e.1@),
{
    let t = s.push(e);
    assert forall|i: int, j: int|
        0 <= i < t.len() && 0 <= j < t.len() && #[trigger] t[i].0@ == #[trigger] t[j].0@ implies i == j by {
        if i < s.len() && j == s.len() {
            lemma_map_of_index(s, i);
        }
        if j < s.len() && i == s.len() {
            lemma_map_of_index(s, j);
        }
    }
    let m = map_of(s).insert(e.0@, e.1@);
    assert forall|k: Seq<u8>| #[trigger] m.contains_key(k) <==> map_of(t).contains_key(k) by {
        if map_of(t).contains_key(k) && k != e.0@ {
            let i = choose|i: int| 0 <= i < t.len() && #[trigger] t[i].0@ == k;
            assert(s[i].0@ == k);
        }
        if map_of(s).contains_key(k) {
            let i = choose|i: int| 0 <= i < s.len() && #[trigger] s[i].0@ == k;
            assert(t[i].0@ == k);
        }
        if k == e.0@ {
            assert(t[s.len() as int].0@ == k);
        }
    }
    assert forall|k: Seq<u8>| m.contains_key(k) implies #[trigger] m[k] == map_of(t)[k] by {
        if k == e.0@ {
            lemma_map_of_index(t, s.len() as int);
        } else {
            let i = choose|i: int| 0 <= i < s.len() && #[trigger] s[i].0@ == k;
            lemma_map_of_index(s, i);
            lemma_map_of_index(t, i);
        }
    }
    assert(map_of(t) =~= m);
}

proof fn lemma_map_of_update(s: Seq<([u8; 32], CSAMembership)>, i: int, r: CSAMembership)
    requires
        keys_unique(s),
        0 <= i < s.len(),
    ensures
        keys_unique(s.update(i, (s[i].0, r))),
        map_of(s.update(i, (s[i].0, r))) == map_of(s).insert(s[i].0@, r@),
{
    let t = s.update(i, (s[i].0, r));
    assert forall|a: int, b: int|
        0 <= a < t.len() && 0 <= b < t.len() && #[trigger] t[a].0@ == #[trigger] t[b].0@ implies a == b by {
        assert(s[a].0@ == s[b].0@);
    }
    let m = map_of(s).insert(s[i].0@, r@);
    assert forall|k: Seq<u8>| #[trigger] m.contains_key(k) <==> map_of(t).contains_key(k) by {
        if map_of(t).contains_key(k) {
            let j = choose|j: int| 0 <= j < t.len() && #[trigger] t[j].0@ == k;
            assert(s[j].0@ == k);
        }
        if map_of(s).contains_key(k) {
            let j = choose|j: int| 0 <= j < s.len() && #[trigger] s[j].0@ == k;
            assert(t[j].0@ == k);
        }
        if k == s[i].0@ {
            assert(t[i].0@ == k);
        }
    }
    assert forall|k: Seq<u8>| m.contains_key(k) implies #[trigger] m[k] == map_of(t)[k] by {
        if k == s[i].0@ {
            lemma_map_of_index(t, i);
        } else {
            let j = choose|j: int| 0 <= j < s.len() && #[trigger] s[j].0@ == k;
            lemma_map_of_index(s, j);
            lemma_map_of_index(t, j);
        }
    }
    assert(map_of(t) =~= m);
}

proof fn lemma_map_of_remove(s: Seq<([u8; 32], CSAMembership)>, i: int)
    requires
        keys_unique(s),
        0 <= i < s.len(),
    ensures
        keys_unique(s.remove(i)),
        map_of(s.remove(i)) == map_of(s).remove(s[i].0@),
{
    let t = s.remove(i);
    assert forall|a: int, b: int|
        0 <= a < t.len() && 0 <= b < t.len() && #[trigger] t[a].0@ == #[trigger] t[b].0@ implies a == b by {
        let sa = if a < i { a } else { a + 1 };
        let sb = if b < i { b } else { b + 1 };
        assert(t[a] == s[sa]);
        assert(t[b] == s[sb]);
    }
    let m = map_of(s).remove(s[i].0@);
    assert forall|k: Seq<u8>| #[trigger] m.contains_key(k) <==> map_of(t).contains_key(k) by {
        if map_of(t).contains_key(k) {
            let j = choose|j: int| 0 <= j < t.len() && #[trigger] t[j].0@ == k;
            let sj = if j < i { j } else { j + 1 };
            assert(t[j] == s[sj]);
            assert(s[sj].0@ == k);
            lemma_map_of_index(s, sj);
            assert(k != s[i].0@);
        }
        if m.contains_key(k) {
            let j = choose|j: int| 0 <= j < s.len() && #[trigger] s[j].0@ == k;
            assert(j != i);
            let tj = if j < i { j } else { j - 1 };
            assert(t[tj] == s[j]);
            assert(t[tj].0@ == k);
        }
    }
    assert forall|k: Seq<u8>| m.contains_key(k) implies #[trigger] m[k] == map_of(t)[k] by {
        let j = choose|j: int| 0 <= j < s.len() && #[trigger] s[j].0@ == k;
        assert(j != i);
        let tj = if j < i { j } else { j - 1 };
        assert(t[tj] == s[j]);
        lemma_map_of_index(s, j);
        lemma_map_of_index(t, tj);
    }
    assert(map_of(t) =~= m);
}

/// Whether some entry of `farms` is `farm_id`.
spec fn holds_key(farms: Seq<[u8; 32]>, farm_id: Seq<u8>) -> bool {
    exists|i: int| 0 <= i < farms.len() && #[trigger] farms[i]@ == farm_id
}

/// An in-memory ledger: the clock, the farm registry, the membership records
/// keyed by token id, and the log of lifecycle notifications.
pub struct Ledger {
    timestamp: u64,
    farms: Vec<[u8; 32]>,
    records: Vec<([u8; 32], CSAMembership)>,
    events: Vec<Event>,
}

/// The mathematical value of a `Ledger`.
pub struct LedgerView {
    /// The ledger's current time.
    pub now: u64,
    /// The farm ids that the registry holds.
    pub farms: Set<Seq<u8>>,
    /// The live records, by token id.
    pub records: Map<Seq<u8>, MembershipView>,
    /// The notifications published so far, oldest first.
    pub events: Seq<EventView>,
}

impl View for Ledger {
    type V = LedgerView;

    closed spec fn view(&self) -> LedgerView {
        LedgerView {
            now: self.timestamp,
            farms: Set::new(|f: Seq<u8>| holds_key(self.farms@, f)),
            records: map_of(self.records@),
            events: self.events@.map_values(|e: Event| e@),
        }
    }
}

impl Ledger {
    /// The ledger's invariant: no two live records share a token id.
    pub closed spec fn wf(&self) -> bool {
        keys_unique(self.records@)
    }

    /// An empty ledger whose clock reads `timestamp`.
    pub fn new(timestamp: u64) -> (r: Ledger)
        ensures
            r.wf(),
            r@ == (LedgerView {
                now: timestamp,
                farms: Set::empty(),
                records: Map::empty(),
                events: Seq::empty(),
            }),
    {
        let r = Ledger { timestamp, farms: Vec::new(), records: Vec::new(), events: Vec::new() };
        assert(r@.farms =~= Set::<Seq<u8>>::empty());
        assert(r@.records =~= Map::<Seq<u8>, MembershipView>::empty());
        assert(r@.events =~= Seq::<EventView>::empty());
        r
    }

    /// The ledger's current time.
    pub fn timestamp(&self) -> (r: u64)
        ensures
            r == self@.now,
    {
        self.timestamp
    }

    /// Moves the clock to `timestamp`; nothing else changes.
    pub fn set_timestamp(&mut self, timestamp: u64)
        ensures
            final(self).wf() == old(self).wf(),
            final(self)@ == (LedgerView { now: timestamp, ..old(self)@ }),
    {
        self.timestamp = timestamp;
    }

    /// Adds a farm to the registry; nothing else changes.
    pub fn register_farm(&mut self, farm_id: [u8; 32])
        ensures
            final(self).wf() == old(self).wf(),
            final(self)@ == (LedgerView { farms: old(self)@.farms.insert(farm_id@), ..old(self)@ }),
    {
        self.farms.push(farm_id);
        proof {
            let n = old(self).farms@.len() as int;
            assert forall|f: Seq<u8>| #[trigger] holds_key(self.farms@, f) <==> (holds_key(old(self).farms@, f) || f == farm_id@) by {
                if holds_key(self.farms@, f) {
                    let i = choose|i: int| 0 <= i < self.farms@.len() && #[trigger] self.farms@[i]@ == f;
                    if i < n {
                        assert(old(self).farms@[i]@ == f);
                    }
                }
                if holds_key(old(self).farms@, f) {
                    let i = choose|i: int| 0 <= i < old(self).farms@.len() && #[trigger] old(self).farms@[i]@ == f;
                    assert(self.farms@[i]@ == f);
                }
                if f == farm_id@ {
                    assert(self.farms@[n]@ == f);
                }
            }
            assert(self@.farms =~= old(self)@.farms.insert(farm_id@));
        }
    }

    /// Whether the farm registry holds `farm_id`.
    pub fn is_farm_registered(&self, farm_id: &[u8; 32]) -> (r: bool)
        ensures
            r == self@.farms.contains(farm_id@),
    {
        let mut i: usize = 0;
        while i < self.farms.len()
            invariant
                0 <= i <= self.farms@.len(),
                forall|j: int| 0 <= j < i ==> #[trigger] self.farms@[j]@ != farm_id@,
            decreases self.farms@.len() - i,
        {
            if keys_equal(&self.farms[i], farm_id) {
                assert(self.farms@[i as int]@ == farm_id@);
                return true;
            }
            i = i + 1;
        }
        false
    }

    /// The notifications published so far, oldest first.
    pub fn events(&self) -> (r: &Vec<Event>)
        ensures
            r@.map_values(|e: Event| e@) == self@.events,
    {
        &self.events
    }

    /// Where the record under `token_id` stands, if there is one.
    fn find(&self, token_id: &[u8; 32]) -> (r: Option<usize>)
        requires
            self.wf(),
        ensures
            r is None <==> !self@.records.contains_key(token_id@),
            r matches Some(i) ==> i < self.records@.len() && self.records@[i as int].0@ == token_id@,
    {
        let mut i: usize = 0;
        while i < self.records.len()
            invariant
                0 <= i <= self.records@.len(),
                forall|j: int| 0 <= j < i ==> #[trigger] self.records@[j].0@ != token_id@,
            decreases self.records@.len() - i,
        {
            if keys_equal(&self.records[i].0, token_id) {
                return Some(i);
            }
            i = i + 1;
        }
        None
    }

    /// The record under `token_id`, or `None` where there is none.
    pub fn read(&self, token_id: &[u8; 32]) -> (r: Option<CSAMembership>)
        requires
            self.wf(),
        ensures
            r is None <==> !self@.records.contains_key(token_id@),
            r matches Some(m) ==> m@ == self@.records[token_id@],
    {
        match self.find(token_id) {
            None => None,
            Some(i) => {
                proof {
                    lemma_map_of_index(self.records@, i as int);
                }
                Some(self.records[i].1.clone())
            },
        }
    }

    /// Stores a new record under `token_id`; fails with `AlreadyExists`, and
    /// changes nothing, where a record is already stored there.
    pub fn create(&mut self, token_id: [u8; 32], record: CSAMembership) -> (r: Result<(), Error>)
        requires
            old(self).wf(),
        ensures
            final(self).wf(),
            final(self)@.now == old(self)@.now,
            final(self)@.farms == old(self)@.farms,
            final(self)@.events == old(self)@.events,
            old(self)@.records.contains_key(token_id@) ==> r == Err::<(), Error>(Error::AlreadyExists)
                && final(self)@.records == old(self)@.records,
            !old(self)@.records.contains_key(token_id@) ==> r is Ok
                && final(self)@.records == old(self)@.records.insert(token_id@, record@),
    {
        match self.find(&token_id) {
            Some(_) => Err(Error::AlreadyExists),
            None => {
                proof {
                    lemma_map_of_push(self.records@, (token_id, record));
                }
                self.records.push((token_id, record));
                Ok(())
            },
        }
    }

    /// Replaces the record under `token_id`; fails with `NotFound`, and
    /// changes nothing, where there is none.
    pub fn update(&mut self, token_id: &[u8; 32], record: CSAMembership) -> (r: Result<(), Error>)
        requires
            old(self).wf(),
        ensures
            final(self).wf(),
            final(self)@.now == old(self)@.now,
            final(self)@.farms == old(self)@.farms,
            final(self)@.events == old(self)@.events,
            !old(self)@.records.contains_key(token_id@) ==> r == Err::<(), Error>(Error::NotFound)
                && final(self)@.records == old(self)@.records,
            old(self)@.records.contains_key(token_id@) ==> r is Ok
                && final(self)@.records == old(self)@.records.insert(token_id@, record@),
    {
        match self.find(token_id) {
            None => Err(Error::NotFound),
            Some(i) => {
                let key = self.records[i].0;
                proof {
                    lemma_map_of_update(self.records@, i as int, record);
                }
                self.records.set(i, (key, record));
                Ok(())
            },
        }
    }

    /// Removes the record under `token_id`; fails with `NotFound`, and
    /// changes nothing, where there is none.
    pub fn delete(&mut self, token_id: &[u8; 32]) -> (r: Result<(), Error>)
        requires
            old(self).wf(),
        ensures
            final(self).wf(),
            final(self)@.now == old(self)@.now,
            final(self)@.farms == old(self)@.farms,
            final(self)@.events == old(self)@.events,
            !old(self)@.records.contains_key(token_id@) ==> r == Err::<(), Error>(Error::NotFound),
            old(self)@.records.contains_key(token_id@) ==> r is Ok,
            final(self)@.records == old(self)@.records.remove(token_id@),
    {
        match self.find(token_id) {
            None => {
                assert(self@.records.remove(token_id@) =~= self@.records);
                Err(Error::NotFound)
            },
            Some(i) => {
                proof {
                    lemma_map_of_remove(self.records@, i as int);
                }
                self.records.remove(i);
                Ok(())
            },
        }
    }

    /// Appends a notification to the log; nothing else changes.
    pub fn publish(&mut self, operation: Operation, member: Vec<u8>, token_id: [u8; 32])
        ensures
            final(self).wf() == old(self).wf(),
            final(self)@ == (LedgerView {
                events: old(self)@.events.push(EventView { operation, member: member@, token_id: token_id@ }),
                ..old(self)@
            }),
    {
        self.events.push(Event { operation, member, token_id });
        assert(self@.events =~= old(self)@.events.push(
            EventView { operation, member: member@, token_id: token_id@ },
        ));
    }
}

} // verus!
