//! User profile related types.

use vstd::prelude::*;

verus! {

/// Additional metadata of a user profile.
#[derive(Debug, Clone, PartialEq, Eq)]
pub struct Meta {
    /// Demat consent: empty, `consent` or `physical`.
    pub demat_consent: String,
}

/// A user's profile: identity, broker details and the products enabled on the
/// account.
#[derive(Debug, PartialEq)]
pub struct UserProfile {
    /// The unique, permanent user id registered with the broker and the
    /// exchanges.
    pub user_id: String,
    /// The user's registered role at the broker; `individual` for all retail
    /// users.
    pub user_type: String,
    /// The user's email.
    pub email: String,
    /// The user's real name.
    pub user_name: String,
    /// Shortened version of the user's real name.
    pub user_shortname: String,
    /// The broker id.
    pub broker: String,
    /// Exchanges enabled for trading on the user's account.
    pub exchanges: Vec<String>,
    /// Margin product types enabled for the user.
    pub products: Vec<String>,
    /// Order types enabled for the user.
    pub order_types: Vec<String>,
    /// Full URL to the user's avatar if there is one.
    pub avatar_url: Option<String>,
    /// Additional metadata.
    pub meta: Meta,
}

/// The segments a user's margins are split over.
#[derive(Debug, Clone, Copy, PartialEq, Eq, Structural)]
pub enum SegmentKind {
    /// The commodity segment.
    Commodity,
    /// The equity segment.
    Equity,
}

/// The label of each segment, used as the path parameter of the segment-wise
/// margins endpoint.
pub open spec fn spec_segment_kind_label(k: SegmentKind) -> Seq<char> {
    match k {
        SegmentKind::Commodity => "commodity"@,
        SegmentKind::Equity => "equity"@,
    }
}

impl SegmentKind {
    /// The label of this segment.
    pub fn label(&self) -> (t: &'static str)
        ensures
            t@ == spec_segment_kind_label(*self),
    {
        match self {
            SegmentKind::Commodity => "commodity",
            SegmentKind::Equity => "equity",
        }
    }
}

} // verus!
