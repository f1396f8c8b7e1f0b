//! Plans.
use vstd::prelude::*;
use crate::config::ListParams;
use crate::request::{
    opt_ref_view, plain_request, with_opt_query_spec, ApiRequest, Method, RequestView,
};

verus! {

/// A plan ID.
#[derive(Debug, Clone, Copy, PartialEq, Eq, Hash)]
pub enum PlanId<'a> {
    /// An Orb plan ID.
    Orb(&'a str),
    /// An external plan ID.
    External(&'a str),
}

impl<'a> PlanId<'a> {
    /// The field under which this ID travels.
    pub open spec fn key_spec(&self) -> Seq<char> {
        match self {
            PlanId::Orb(_) => "plan_id"@,
            PlanId::External(_) => "external_plan_id"@,
        }
    }

    /// The field under which this ID travels.
    pub fn key(&self) -> (r: &'static str)
        ensures
            r@ == self.key_spec(),
    {
        match self {
            PlanId::Orb(_) => "plan_id",
            PlanId::External(_) => "external_plan_id",
        }
    }

    /// The ID itself.
    pub fn value(&self) -> (r: &'a str)
        ensures
            r@ == match self {
                PlanId::Orb(id) => id@,
                PlanId::External(id) => id@,
            },
    {
        match self {
            PlanId::Orb(id) => id,
            PlanId::External(id) => id,
        }
    }
}

impl<'a> Default for PlanId<'a> {
    fn default() -> (r: PlanId<'a>)
        ensures
            r matches PlanId::Orb(id) && id@.len() == 0,
    {
        proof {
            reveal_strlit("");
        }
        PlanId::Orb("")
    }
}

/// Parameters for a plan list operation.
#[derive(Debug, Clone, Copy)]
pub struct PlanListParams<'a> {
    inner: ListParams,
    status_filter: Option<&'a str>,
}

/// The mathematical value of [`PlanListParams`].
pub struct PlanListView {
    pub page_size: u64,
    pub status: Option<Seq<char>>,
}

impl<'a> View for PlanListParams<'a> {
    type V = PlanListView;

    closed spec fn view(&self) -> PlanListView {
        PlanListView {
            page_size: self.inner.page_size_spec(),
            status: opt_ref_view(self.status_filter),
        }
    }
}

impl<'a> Default for PlanListParams<'a> {
    /// Pages of 20 plans, no filter.
    fn default() -> (r: PlanListParams<'a>)
        ensures
            r@ == (PlanListView { page_size: 20, status: None }),
    {
        PlanListParams { inner: ListParams::default(), status_filter: None }
    }
}

impl<'a> PlanListParams<'a> {
    /// Sets the page size for the list operation.
    ///
    /// See [`ListParams::page_size`].
    pub fn page_size(self, page_size: u64) -> (r: Self)
        ensures
            r@ == (PlanListView { page_size, ..self@ }),
    {
        PlanListParams { inner: self.inner.page_size(page_size), ..self }
    }

    /// Filters the listing by status.
    pub fn status(self, filter: &'a str) -> (r: Self)
        ensures
            r@ == (PlanListView { status: Some(filter@), ..self@ }),
    {
        PlanListParams { status_filter: Some(filter), ..self }
    }

    /// The page parameters of the listing.
    pub fn list_params(&self) -> (r: ListParams)
        ensures
            r.page_size_spec() == self@.page_size,
    {
        self.inner
    }
}

impl ApiRequest {
    /// Lists plans as configured by `params`.
    pub fn list_plans(params: &PlanListParams) -> (r: ApiRequest)
        ensures
            r@ =~= with_opt_query_spec(
                plain_request(Method::Get, seq!["plans"@]),
                "status"@,
                params@.status,
            ),
    {
        ApiRequest::new(Method::Get).segment("plans").with_opt_query("status", params.status_filter)
    }

    /// Gets a plan by ID.
    pub fn get_plan(id: &str) -> (r: ApiRequest)
        ensures
            r@ =~= plain_request(Method::Get, seq!["plans"@, id@]),
    {
        ApiRequest::new(Method::Get).segment("plans").segment(id)
    }

    /// Gets a plan by external ID.
    pub fn get_plan_by_external_id(external_id: &str) -> (r: ApiRequest)
        ensures
            r@ =~= plain_request(Method::Get, seq!["plans"@, "external_plan_id"@, external_id@]),
    {
        ApiRequest::new(Method::Get).segment("plans").segment("external_plan_id").segment(
            external_id,
        )
    }
}

} // verus!
