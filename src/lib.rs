use vstd::prelude::*;

pub mod types;
pub mod identity;
pub mod ledger;
pub mod validate;
pub mod enroll;
pub mod manage;
pub mod cancel;
pub mod metadata;
pub mod laws;

pub use ledger::{Event, Ledger, Operation};
pub use types::{CSAMembership, Error, ShareSize};

use crate::cancel::cancel_step;
use crate::enroll::enroll_step;
use crate::manage::update_step;
use crate::metadata::metadata_of;

verus! {

/// The membership service: the four public operations on a ledger.
pub struct CSAMembershipContract;

impl CSAMembershipContract {
    /// Enrolls a member; see `enroll::enroll_membership`.
    pub fn enroll_membership(
        env: &mut Ledger,
        farm_id: [u8; 32],
        season: String,
        share_size: ShareSize,
        pickup_location: String,
        start_date: u64,
        end_date: u64,
        member: Vec<u8>,
        token_id: [u8; 32],
    ) -> (r: Result<(), Error>)
        requires
            old(env).wf(),
        ensures
            final(env).wf(),
            (r, final(env)@) == enroll_step(
                old(env)@,
                farm_id@,
                season@,
                share_size@,
                pickup_location@,
                start_date,
                end_date,
                member@,
                token_id@,
            ),
    {
        enroll::enroll_membership(
            env,
            farm_id,
            season,
            share_size,
            pickup_location,
            start_date,
            end_date,
            member,
            token_id,
        )
    }

    /// Changes a record's pickup location; see `manage::update_pickup_location`.
    pub fn update_pickup_location(
        env: &mut Ledger,
        token_id: [u8; 32],
        new_location: String,
        member: Vec<u8>,
    ) -> (r: Result<(), Error>)
        requires
            old(env).wf(),
        ensures
            final(env).wf(),
            (r, final(env)@) == update_step(old(env)@, token_id@, new_location@, member@),
    {
        manage::update_pickup_location(env, token_id, new_location, member)
    }

    /// Reads a record; see `metadata::get_membership_metadata`.
    pub fn get_membership_metadata(env: &Ledger, token_id: [u8; 32]) -> (r: Option<CSAMembership>)
        requires
            env.wf(),
        ensures
            r is None <==> metadata_of(env@, token_id@) is None,
            r matches Some(m) ==> metadata_of(env@, token_id@) == Some(m@),
    {
        metadata::get_membership_metadata(env, token_id)
    }

    /// Cancels a membership; see `cancel::cancel_membership`.
    pub fn cancel_membership(env: &mut Ledger, token_id: [u8; 32], member: Vec<u8>) -> (r: Result<
        (),
        Error,
    >)
        requires
            old(env).wf(),
        ensures
            final(env).wf(),
            (r, final(env)@) == cancel_step(old(env)@, token_id@, member@),
    {
        cancel::cancel_membership(env, token_id, member)
    }
}

} // verus!
