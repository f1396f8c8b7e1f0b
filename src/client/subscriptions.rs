//! Subscriptions.
use vstd::prelude::*;
use crate::client::customers::CustomerId;
use crate::client::invoices::customer_query_spec;
use crate::config::ListParams;
use crate::request::{
    opt_ref_view, owned, plain_request, str_eq, with_key_spec, ApiRequest, Method,
};

verus! {

/// The status of a subscription.
#[non_exhaustive]
#[derive(Debug, Clone, PartialEq, Eq, Hash)]
pub enum SubscriptionStatus {
    /// An active subscription.
    Active,
    /// A subscription that has ended.
    Ended,
    /// A subscription that has not yet started.
    Upcoming,
    /// A value this library does not know, as it came.
    Other(String),
}

impl SubscriptionStatus {
    /// The string that stands for this value on the wire.
    pub open spec fn wire_name(&self) -> Seq<char> {
        match self {
            SubscriptionStatus::Active => "active"@,
            SubscriptionStatus::Ended => "ended"@,
            SubscriptionStatus::Upcoming => "upcoming"@,
            SubscriptionStatus::Other(s) => s@,
        }
    }

    /// The known value that `s` stands for, if any.
    pub open spec fn known_value(s: Seq<char>) -> Option<SubscriptionStatus> {
        if s == "active"@ {
            Some(SubscriptionStatus::Active)
        } else if s == "ended"@ {
            Some(SubscriptionStatus::Ended)
        } else if s == "upcoming"@ {
            Some(SubscriptionStatus::Upcoming)
        } else {
            None
        }
    }

    /// Decoding `s` gives `r`: the known value it stands for, else the
    /// fallback that keeps `s` as it came.
    pub open spec fn decodes_to(s: Seq<char>, r: SubscriptionStatus) -> bool {
        match Self::known_value(s) {
            Some(v) => r == v,
            None => r matches SubscriptionStatus::Other(t) && t@ == s,
        }
    }

    /// The string that stands for this value on the wire.
    pub fn as_str(&self) -> (r: &str)
        ensures
            r@ == self.wire_name(),
    {
        match self {
            SubscriptionStatus::Active => "active",
            SubscriptionStatus::Ended => "ended",
            SubscriptionStatus::Upcoming => "upcoming",
            SubscriptionStatus::Other(s) => s.as_str(),
        }
    }

    /// Decodes a wire string.
    pub fn from_wire(s: &str) -> (r: SubscriptionStatus)
        ensures
            Self::decodes_to(s@, r),
    {
        if str_eq(s, "active") {
            SubscriptionStatus::Active
        } else if str_eq(s, "ended") {
            SubscriptionStatus::Ended
        } else if str_eq(s, "upcoming") {
            SubscriptionStatus::Upcoming
        } else {
            SubscriptionStatus::Other(owned(s))
        }
    }
}

/// Encoding a known value and decoding the string gives the value back;
/// a string that stands for no known value decodes to the fallback, which
/// encodes back to exactly that string.
pub proof fn lemma_subscription_status_wire_round_trip(v: SubscriptionStatus, s: Seq<char>, r: SubscriptionStatus)
    ensures
        !(v is Other) && SubscriptionStatus::decodes_to(v.wire_name(), r) ==> r == v,
        SubscriptionStatus::known_value(s) is None && SubscriptionStatus::decodes_to(s, r) ==> (r is Other && r.wire_name() == s),
{
    reveal_strlit("active");
    reveal_strlit("ended");
    reveal_strlit("upcoming");
    match v {
        SubscriptionStatus::Active => {},
        SubscriptionStatus::Ended => {
            assert("active"@.len() != "ended"@.len());
        },
        SubscriptionStatus::Upcoming => {
            assert("active"@.len() != "upcoming"@.len());
            assert("ended"@.len() != "upcoming"@.len());
        },
        SubscriptionStatus::Other(_) => {},
    }
}

/// Determines the timing of a subscription plan change.
#[derive(Debug, Clone, Copy, PartialEq, Eq, Hash, Structural)]
pub enum SubscriptionPlanChangeOption {
    /// Changes the plan on the requested date (`change_date`).
    RequestedDate,
    /// Changes the plan at the end of the existing plan's term.
    EndOfSubscriptionTerm,
    /// Changes the plan immediately.
    Immediate,
}

impl SubscriptionPlanChangeOption {
    /// The string that stands for this value on the wire.
    pub open spec fn wire_name(&self) -> Seq<char> {
        match self {
            SubscriptionPlanChangeOption::RequestedDate => "requested_date"@,
            SubscriptionPlanChangeOption::EndOfSubscriptionTerm => "end_of_subscription_term"@,
            SubscriptionPlanChangeOption::Immediate => "immediate"@,
        }
    }

    /// The known value that `s` stands for, if any.
    pub open spec fn known_value(s: Seq<char>) -> Option<SubscriptionPlanChangeOption> {
        if s == "requested_date"@ {
            Some(SubscriptionPlanChangeOption::RequestedDate)
        } else if s == "end_of_subscription_term"@ {
            Some(SubscriptionPlanChangeOption::EndOfSubscriptionTerm)
        } else if s == "immediate"@ {
            Some(SubscriptionPlanChangeOption::Immediate)
        } else {
            None
        }
    }

    /// The string that stands for this value on the wire.
    pub fn as_str(&self) -> (r: &str)
        ensures
            r@ == self.wire_name(),
    {
        match self {
            SubscriptionPlanChangeOption::RequestedDate => "requested_date",
            SubscriptionPlanChangeOption::EndOfSubscriptionTerm => "end_of_subscription_term",
            SubscriptionPlanChangeOption::Immediate => "immediate",
        }
    }

}

/// Parameters for a subscription list operation.
#[derive(Debug, Clone, Copy)]
pub struct SubscriptionListParams<'a> {
    inner: ListParams,
    filter: Option<CustomerId<'a>>,
}

/// The mathematical value of [`SubscriptionListParams`].
pub struct SubscriptionListView<'a> {
    pub page_size: u64,
    pub customer: Option<CustomerId<'a>>,
}

impl<'a> View for SubscriptionListParams<'a> {
    type V = SubscriptionListView<'a>;

    closed spec fn view(&self) -> SubscriptionListView<'a> {
        SubscriptionListView { page_size: self.inner.page_size_spec(), customer: self.filter }
    }
}

impl<'a> Default for SubscriptionListParams<'a> {
    /// Pages of 20 subscriptions, of any customer.
    fn default() -> (r: SubscriptionListParams<'a>)
        ensures
            r@ == (SubscriptionListView::<'a> { page_size: 20, customer: None }),
    {
        SubscriptionListParams { inner: ListParams::default(), filter: None }
    }
}

impl<'a> SubscriptionListParams<'a> {
    /// Sets the page size for the list operation.
    ///
    /// See [`ListParams::page_size`].
    pub fn page_size(self, page_size: u64) -> (r: Self)
        ensures
            r@ == (SubscriptionListView { page_size, ..self@ }),
    {
        SubscriptionListParams { inner: self.inner.page_size(page_size), ..self }
    }

    /// Filters the listing to the specified customer ID.
    pub fn customer_id(self, filter: CustomerId<'a>) -> (r: Self)
        ensures
            r@ == (SubscriptionListView { customer: Some(filter), ..self@ }),
    {
        SubscriptionListParams { filter: Some(filter), ..self }
    }

    /// The page parameters of the listing.
    pub fn list_params(&self) -> (r: ListParams)
        ensures
            r.page_size_spec() == self@.page_size,
    {
        self.inner
    }
}

impl ApiRequest {
    /// Lists subscriptions as configured by `params`.
    pub fn list_subscriptions(params: &SubscriptionListParams) -> (r: ApiRequest)
        ensures
            r@ =~= customer_query_spec(
                plain_request(Method::Get, seq!["subscriptions"@]),
                params@.customer,
            ),
    {
        ApiRequest::new(Method::Get).segment("subscriptions").with_customer_filter(params.filter)
    }

    /// Creates a subscription; the body is the subscription to create.
    pub fn create_subscription(idempotency_key: Option<&str>) -> (r: ApiRequest)
        ensures
            r@ =~= with_key_spec(
                plain_request(Method::Post, seq!["subscriptions"@]),
                opt_ref_view(idempotency_key),
            ),
    {
        ApiRequest::new(Method::Post).segment("subscriptions").with_idempotency_key(
            idempotency_key,
        )
    }

    /// Gets a subscription by ID.
    pub fn get_subscription(id: &str) -> (r: ApiRequest)
        ensures
            r@ =~= plain_request(Method::Get, seq!["subscriptions"@, id@]),
    {
        ApiRequest::new(Method::Get).segment("subscriptions").segment(id)
    }

    /// Schedules a change of a subscription's plan; the body gives the change.
    pub fn schedule_plan_change(id: &str, idempotency_key: Option<&str>) -> (r: ApiRequest)
        ensures
            r@ =~= with_key_spec(
                plain_request(
                    Method::Post,
                    seq!["subscriptions"@, id@, "schedule_plan_change"@],
                ),
                opt_ref_view(idempotency_key),
            ),
    {
        ApiRequest::new(Method::Post).segment("subscriptions").segment(id).segment(
            "schedule_plan_change",
        ).with_idempotency_key(idempotency_key)
    }
}

} // verus!
