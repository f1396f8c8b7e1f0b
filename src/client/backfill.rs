//! Backfills of past usage events.
use vstd::prelude::*;
use crate::request::{owned, plain_request, str_eq, ApiRequest, Method};

verus! {

/// The status of a backfill.
#[derive(Debug, Clone, PartialEq, Eq, Hash)]
pub enum BackfillStatus {
    /// The backfill accepts events and is not yet reflected.
    Pending,
    /// The backfill is reflected throughout the system.
    Reflected,
    /// The backfill is being reverted.
    PendingRevert,
    /// The backfill was reverted.
    Reverted,
    /// A value this library does not know, as it came.
    Other(String),
}

impl BackfillStatus {
    /// The string that stands for this value on the wire.
    pub open spec fn wire_name(&self) -> Seq<char> {
        match self {
            BackfillStatus::Pending => "pending"@,
            BackfillStatus::Reflected => "reflected"@,
            BackfillStatus::PendingRevert => "pending_revert"@,
            BackfillStatus::Reverted => "reverted"@,
            BackfillStatus::Other(s) => s@,
        }
    }

    /// The known value that `s` stands for, if any.
    pub open spec fn known_value(s: Seq<char>) -> Option<BackfillStatus> {
        if s == "pending"@ {
            Some(BackfillStatus::Pending)
        } else if s == "reflected"@ {
            Some(BackfillStatus::Reflected)
        } else if s == "pending_revert"@ {
            Some(BackfillStatus::PendingRevert)
        } else if s == "reverted"@ {
            Some(BackfillStatus::Reverted)
        } else {
            None
        }
    }

    /// Decoding `s` gives `r`: the known value it stands for, else the
    /// fallback that keeps `s` as it came.
    pub open spec fn decodes_to(s: Seq<char>, r: BackfillStatus) -> bool {
        match Self::known_value(s) {
            Some(v) => r == v,
            None => r matches BackfillStatus::Other(t) && t@ == s,
        }
    }

    /// The string that stands for this value on the wire.
    pub fn as_str(&self) -> (r: &str)
        ensures
            r@ == self.wire_name(),
    {
        match self {
            BackfillStatus::Pending => "pending",
            BackfillStatus::Reflected => "reflected",
            BackfillStatus::PendingRevert => "pending_revert",
            BackfillStatus::Reverted => "reverted",
            BackfillStatus::Other(s) => s.as_str(),
        }
    }

    /// Decodes a wire string.
    pub fn from_wire(s: &str) -> (r: BackfillStatus)
        ensures
            Self::decodes_to(s@, r),
    {
        if str_eq(s, "pending") {
            BackfillStatus::Pending
        } else if str_eq(s, "reflected") {
            BackfillStatus::Reflected
        } else if str_eq(s, "pending_revert") {
            BackfillStatus::PendingRevert
        } else if str_eq(s, "reverted") {
            BackfillStatus::Reverted
        } else {
            BackfillStatus::Other(owned(s))
        }
    }
}

/// Encoding a known value and decoding the string gives the value back;
/// a string that stands for no known value decodes to the fallback, which
/// encodes back to exactly that string.
pub proof fn lemma_backfill_status_wire_round_trip(v: BackfillStatus, s: Seq<char>, r: BackfillStatus)
    ensures
        !(v is Other) && BackfillStatus::decodes_to(v.wire_name(), r) ==> r == v,
        BackfillStatus::known_value(s) is None && BackfillStatus::decodes_to(s, r) ==> (r is Other && r.wire_name() == s),
{
    reveal_strlit("pending");
    reveal_strlit("reflected");
    reveal_strlit("pending_revert");
    reveal_strlit("reverted");
    match v {
        BackfillStatus::Pending => {},
        BackfillStatus::Reflected => {
            assert("pending"@.len() != "reflected"@.len());
        },
        BackfillStatus::PendingRevert => {
            assert("pending"@.len() != "pending_revert"@.len());
            assert("reflected"@.len() != "pending_revert"@.len());
        },
        BackfillStatus::Reverted => {
            assert("pending"@.len() != "reverted"@.len());
            assert("reflected"@.len() != "reverted"@.len());
            assert("pending_revert"@.len() != "reverted"@.len());
        },
        BackfillStatus::Other(_) => {},
    }
}


impl ApiRequest {
    /// Creates a backfill; the body gives its timeframe and scope.
    pub fn create_backfill() -> (r: ApiRequest)
        ensures
            r@ =~= plain_request(Method::Post, seq!["events"@, "backfills"@]),
    {
        ApiRequest::new(Method::Post).segment("events").segment("backfills")
    }

    /// Closes a backfill.
    pub fn close_backfill(backfill_id: &str) -> (r: ApiRequest)
        ensures
            r@ =~= plain_request(Method::Post, seq!["events"@, "backfills"@, backfill_id@, "close"@]),
    {
        ApiRequest::new(Method::Post).segment("events").segment("backfills").segment(
            backfill_id,
        ).segment("close")
    }

    /// Reverts a backfill.
    pub fn revert_backfill(backfill_id: &str) -> (r: ApiRequest)
        ensures
            r@ =~= plain_request(
                Method::Post,
                seq!["events"@, "backfills"@, backfill_id@, "revert"@],
            ),
    {
        ApiRequest::new(Method::Post).segment("events").segment("backfills").segment(
            backfill_id,
        ).segment("revert")
    }

    /// Lists backfills.
    pub fn list_backfills() -> (r: ApiRequest)
        ensures
            r@ =~= plain_request(Method::Get, seq!["events"@, "backfills"@]),
    {
        ApiRequest::new(Method::Get).segment("events").segment("backfills")
    }

    /// Fetches a backfill by ID.
    pub fn fetch_backfill(backfill_id: &str) -> (r: ApiRequest)
        ensures
            r@ =~= plain_request(Method::Get, seq!["events"@, "backfills"@, backfill_id@]),
    {
        ApiRequest::new(Method::Get).segment("events").segment("backfills").segment(backfill_id)
    }
}

} // verus!
