use vstd::prelude::*;

use crate::cancel::cancel_step;
use crate::enroll::enroll_step;
use crate::identity::owner_key_of;
use crate::ledger::LedgerView;
use crate::manage::update_step;
use crate::metadata::metadata_of;
use crate::types::{Error, MembershipView, ShareSizeView, MAX_SEASON_LEN};
use crate::validate::validation_outcome;

verus! {

/// An enrollment whose parameters fail validation returns that validation
/// error and leaves the ledger exactly as it was: no record is stored under
/// any token id and no notification is published.
pub proof fn validation_precedence(
    s: LedgerView,
    farm_id: Seq<u8>,
    season: Seq<char>,
    share_size: ShareSizeView,
    pickup_location: Seq<char>,
    start_date: u64,
    end_date: u64,
    member: Seq<u8>,
    token_id: Seq<u8>,
)
    requires
        validation_outcome(s, farm_id, season, start_date, end_date) is Err,
    ensures
        ({
            let (r, s2) = enroll_step(
                s,
                farm_id,
                season,
                share_size,
                pickup_location,
                start_date,
                end_date,
                member,
                token_id,
            );
            &&& r == validation_outcome(s, farm_id, season, start_date, end_date)
            &&& s2 == s
        }),
{
}

/// A pickup-location update or a cancellation by a caller whose key is not
/// the record's owner key fails with `Unauthorized` and leaves the ledger
/// exactly as it was: the record is unchanged and no notification is
/// published.
pub proof fn authorization_precedence(
    s: LedgerView,
    token_id: Seq<u8>,
    new_location: Seq<char>,
    member: Seq<u8>,
)
    requires
        s.records.contains_key(token_id),
        s.records[token_id].member != owner_key_of(member),
    ensures
        update_step(s, token_id, new_location, member) == (Err::<(), Error>(Error::Unauthorized), s),
        cancel_step(s, token_id, member) == (Err::<(), Error>(Error::Unauthorized), s),
{
}

/// After a successful cancellation the record is gone: a read returns
/// nothing, and a later update or cancellation of that token id, by anyone,
/// fails with `NotFound`.
pub proof fn delete_completeness(
    s: LedgerView,
    token_id: Seq<u8>,
    member: Seq<u8>,
    new_location: Seq<char>,
    later_member: Seq<u8>,
)
    requires
        cancel_step(s, token_id, member).0 is Ok,
    ensures
        ({
            let s2 = cancel_step(s, token_id, member).1;
            &&& metadata_of(s2, token_id) is None
            &&& update_step(s2, token_id, new_location, later_member).0 == Err::<(), Error>(Error::NotFound)
            &&& cancel_step(s2, token_id, later_member).0 == Err::<(), Error>(Error::NotFound)
        }),
{
}

/// A successful pickup-location update sets that field to the new value and
/// changes no other field of the record, no other record, the clock or the
/// farm registry.
pub proof fn field_isolation(s: LedgerView, token_id: Seq<u8>, new_location: Seq<char>, member: Seq<u8>)
    requires
        update_step(s, token_id, new_location, member).0 is Ok,
    ensures
        ({
            let s2 = update_step(s, token_id, new_location, member).1;
            let before = s.records[token_id];
            let after = s2.records[token_id];
            &&& s2.records.contains_key(token_id)
            &&& after.pickup_location == new_location
            &&& after.farm_id == before.farm_id
            &&& after.season == before.season
            &&& after.share_size == before.share_size
            &&& after.start_date == before.start_date
            &&& after.end_date == before.end_date
            &&& after.member == before.member
            &&& s2.records.remove(token_id) == s.records.remove(token_id)
            &&& s2.now == s.now
            &&& s2.farms == s.farms
        }),
{
    let s2 = update_step(s, token_id, new_location, member).1;
    assert(s2.records.remove(token_id) =~= s.records.remove(token_id));
}

/// A record keeps its dates in order and its season label to 1 to 32
/// characters.
pub open spec fn record_valid(m: MembershipView) -> bool {
    &&& m.start_date < m.end_date
    &&& 1 <= m.season.len() <= MAX_SEASON_LEN
}

/// Every live record of the ledger is valid.
pub open spec fn records_valid(s: LedgerView) -> bool {
    forall|t: Seq<u8>| #[trigger] s.records.contains_key(t) ==> record_valid(s.records[t])
}

/// Enrollment, pickup-location updates and cancellation keep every live
/// record valid, whatever their arguments and outcome; an enrolled record
/// moreover starts no earlier than the ledger's time.
pub proof fn operations_keep_records_valid(
    s: LedgerView,
    farm_id: Seq<u8>,
    season: Seq<char>,
    share_size: ShareSizeView,
    location: Seq<char>,
    start_date: u64,
    end_date: u64,
    member: Seq<u8>,
    token_id: Seq<u8>,
)
    requires
        records_valid(s),
    ensures
        records_valid(
            enroll_step(s, farm_id, season, share_size, location, start_date, end_date, member, token_id).1,
        ),
        enroll_step(s, farm_id, season, share_size, location, start_date, end_date, member, token_id).0 is Ok
            ==> s.now <= start_date,
        records_valid(update_step(s, token_id, location, member).1),
        records_valid(cancel_step(s, token_id, member).1),
{
}

/// What a read of a token id returns changes only through an operation on
/// that token id: enrolling, updating or cancelling under another token id
/// leaves it as it was.
pub proof fn reads_of_other_tokens_unchanged(
    s: LedgerView,
    read_id: Seq<u8>,
    farm_id: Seq<u8>,
    season: Seq<char>,
    share_size: ShareSizeView,
    location: Seq<char>,
    start_date: u64,
    end_date: u64,
    member: Seq<u8>,
    token_id: Seq<u8>,
)
    requires
        read_id != token_id,
    ensures
        metadata_of(
            enroll_step(s, farm_id, season, share_size, location, start_date, end_date, member, token_id).1,
            read_id,
        ) == metadata_of(s, read_id),
        metadata_of(update_step(s, token_id, location, member).1, read_id) == metadata_of(s, read_id),
        metadata_of(cancel_step(s, token_id, member).1, read_id) == metadata_of(s, read_id),
{
}

} // verus!
