use vstd::prelude::*;

verus! {

/// Largest number of characters a season label may hold.
pub const MAX_SEASON_LEN: usize = 32;

/// The size of a harvest share: three fixed tiers or a free-form label.
#[derive(Debug, PartialEq, Eq)]
pub enum ShareSize {
    Small,
    Medium,
    Large,
    Custom(String),
}

/// The mathematical value of a `ShareSize`.
pub enum ShareSizeView {
    Small,
    Medium,
    Large,
    Custom(Seq<char>),
}

impl View for ShareSize {
    type V = ShareSizeView;

    open spec fn view(&self) -> ShareSizeView {
        match self {
            ShareSize::Small => ShareSizeView::Small,
            ShareSize::Medium => ShareSizeView::Medium,
            ShareSize::Large => ShareSizeView::Large,
            ShareSize::Custom(s) => ShareSizeView::Custom(s@),
        }
    }
}

impl ShareSize {
    /// A copy of this share size.
    pub fn clone(&self) -> (r: ShareSize)
        ensures
            r@ == self@,
    {
        match self {
            ShareSize::Small => ShareSize::Small,
            ShareSize::Medium => ShareSize::Medium,
            ShareSize::Large => ShareSize::Large,
            ShareSize::Custom(s) => ShareSize::Custom(s.clone()),
        }
    }
}

/// A membership record: one member's subscription to a farm's season.
#[derive(Debug, PartialEq, Eq)]
pub struct CSAMembership {
    pub farm_id: [u8; 32],
    pub season: String,
    pub share_size: ShareSize,
    pub pickup_location: String,
    pub start_date: u64,
    pub end_date: u64,
    /// The owner key derived from the enrolling caller's identity.
    pub member: [u8; 32],
}

/// The mathematical value of a `CSAMembership`.
pub struct MembershipView {
    pub farm_id: Seq<u8>,
    pub season: Seq<char>,
    pub share_size: ShareSizeView,
    pub pickup_location: Seq<char>,
    pub start_date: u64,
    pub end_date: u64,
    pub member: Seq<u8>,
}

impl View for CSAMembership {
    type V = MembershipView;

    open spec fn view(&self) -> MembershipView {
        MembershipView {
            farm_id: self.farm_id@,
            season: self.season@,
            share_size: self.share_size@,
            pickup_location: self.pickup_location@,
            start_date: self.start_date,
            end_date: self.end_date,
            member: self.member@,
        }
    }
}

impl MembershipView {
    /// The same record with only the pickup location replaced.
    pub open spec fn with_pickup_location(self, loc: Seq<char>) -> MembershipView {
        MembershipView { pickup_location: loc, ..self }
    }
}

impl CSAMembership {
    /// A copy of this record.
    pub fn clone(&self) -> (r: CSAMembership)
        ensures
            r@ == self@,
    {
        CSAMembership {
            farm_id: self.farm_id,
            season: self.season.clone(),
            share_size: self.share_size.clone(),
            pickup_location: self.pickup_location.clone(),
            start_date: self.start_date,
            end_date: self.end_date,
            member: self.member,
        }
    }
}

/// Why an operation on a membership was refused.
#[derive(PartialEq, Eq, Structural, Clone, Copy, Debug)]
pub enum Error {
    InvalidFarm,
    InvalidDates,
    InvalidSeason,
    NotFound,
    Unauthorized,
    AlreadyExists,
}

} // verus!
