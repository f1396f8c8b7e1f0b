//! Invoices.
use vstd::prelude::*;
use crate::client::customers::CustomerId;
use crate::config::ListParams;
use crate::request::{
    opt_ref_view, owned, plain_request, with_opt_query_spec, with_query_spec, ApiRequest,
    Method, RequestView,
};

verus! {

/// Which invoice statuses a listing includes.
#[derive(Debug, Clone, Copy, PartialEq, Eq, Structural)]
pub struct InvoiceStatusFilter {
    /// Draft: invoices in their initial state.
    pub draft: bool,
    /// Issued: invoices after their billing period ends.
    pub issued: bool,
    /// Paid: invoices upon confirmation of successful automatic payment
    /// collection.
    pub paid: bool,
    /// Void: invoices that have been manually voided.
    pub void: bool,
    /// Synced: invoices that have been synced to an external billing provider.
    pub synced: bool,
}

impl Default for InvoiceStatusFilter {
    /// Issued, paid and synced invoices.
    fn default() -> (r: InvoiceStatusFilter)
        ensures
            r == (InvoiceStatusFilter {
                draft: false,
                issued: true,
                paid: true,
                void: false,
                synced: true,
            }),
    {
        InvoiceStatusFilter { draft: false, issued: true, paid: true, void: false, synced: true }
    }
}

/// Parameters for an invoice list operation.
#[derive(Debug, Clone, Copy)]
pub struct InvoiceListParams<'a> {
    inner: ListParams,
    customer_filter: Option<CustomerId<'a>>,
    subscription_filter: Option<&'a str>,
    status_filter: InvoiceStatusFilter,
}

/// The mathematical value of [`InvoiceListParams`].
pub struct InvoiceListView<'a> {
    pub page_size: u64,
    pub customer: Option<CustomerId<'a>>,
    pub subscription: Option<Seq<char>>,
    pub status: InvoiceStatusFilter,
}

impl<'a> View for InvoiceListParams<'a> {
    type V = InvoiceListView<'a>;

    closed spec fn view(&self) -> InvoiceListView<'a> {
        InvoiceListView {
            page_size: self.inner.page_size_spec(),
            customer: self.customer_filter,
            subscription: opt_ref_view(self.subscription_filter),
            status: self.status_filter,
        }
    }
}

impl<'a> Default for InvoiceListParams<'a> {
    /// Pages of 20 invoices, issued, paid or synced, of any customer.
    fn default() -> (r: InvoiceListParams<'a>)
        ensures
            r@ == (InvoiceListView::<'a> {
                page_size: 20,
                customer: None,
                subscription: None,
                status: InvoiceStatusFilter {
                    draft: false,
                    issued: true,
                    paid: true,
                    void: false,
                    synced: true,
                },
            }),
    {
        InvoiceListParams {
            inner: ListParams::default(),
            customer_filter: None,
            subscription_filter: None,
            status_filter: InvoiceStatusFilter::default(),
        }
    }
}

impl<'a> InvoiceListParams<'a> {
    /// Sets the page size for the list operation.
    ///
    /// See [`ListParams::page_size`].
    pub fn page_size(self, page_size: u64) -> (r: Self)
        ensures
            r@ == (InvoiceListView { page_size, ..self@ }),
    {
        InvoiceListParams { inner: self.inner.page_size(page_size), ..self }
    }

    /// Filters the listing to the specified customer ID.
    pub fn customer_id(self, filter: CustomerId<'a>) -> (r: Self)
        ensures
            r@ == (InvoiceListView { customer: Some(filter), ..self@ }),
    {
        InvoiceListParams { customer_filter: Some(filter), ..self }
    }

    /// Filters the listing to the specified subscription ID.
    pub fn subscription_id(self, filter: &'a str) -> (r: Self)
        ensures
            r@ == (InvoiceListView { subscription: Some(filter@), ..self@ }),
    {
        InvoiceListParams { subscription_filter: Some(filter), ..self }
    }

    /// Filters the listing to a specified set of statuses.
    pub fn status_filter(self, filter: InvoiceStatusFilter) -> (r: Self)
        ensures
            r@ == (InvoiceListView { status: filter, ..self@ }),
    {
        InvoiceListParams { status_filter: filter, ..self }
    }

    /// The page parameters of the listing.
    pub fn list_params(&self) -> (r: ListParams)
        ensures
            r.page_size_spec() == self@.page_size,
    {
        self.inner
    }
}

/// `r` with the customer filter, if any, as a query pair.
pub open spec fn customer_query_spec(r: RequestView, c: Option<CustomerId>) -> RequestView {
    match c {
        Some(id) => with_query_spec(r, id.key_spec(), id.value_spec()),
        None => r,
    }
}

/// `r` with one `status[]` pair for each status the filter includes, in
/// the order draft, issued, paid, void, synced.
pub open spec fn status_query_spec(r: RequestView, f: InvoiceStatusFilter) -> RequestView {
    let r1 = if f.draft { with_query_spec(r, "status[]"@, "draft"@) } else { r };
    let r2 = if f.issued { with_query_spec(r1, "status[]"@, "issued"@) } else { r1 };
    let r3 = if f.paid { with_query_spec(r2, "status[]"@, "paid"@) } else { r2 };
    let r4 = if f.void { with_query_spec(r3, "status[]"@, "void"@) } else { r3 };
    if f.synced { with_query_spec(r4, "status[]"@, "synced"@) } else { r4 }
}

/// The invoice listing request: the customer filter, the subscription
/// filter, then the statuses.
pub open spec fn list_invoices_spec(p: InvoiceListView) -> RequestView {
    let r = customer_query_spec(plain_request(Method::Get, seq!["invoices"@]), p.customer);
    let r = with_opt_query_spec(r, "subscription_id"@, p.subscription);
    status_query_spec(r, p.status)
}

impl ApiRequest {
    /// Adds a customer filter as a query pair.
    pub fn with_customer_filter(self, filter: Option<CustomerId>) -> (r: ApiRequest)
        ensures
            r@ == customer_query_spec(self@, filter),
    {
        match filter {
            Some(id) => self.with_query(id.key(), owned(id.value())),
            None => self,
        }
    }

    /// Lists invoices as configured by `params`.
    pub fn list_invoices(params: &InvoiceListParams) -> (r: ApiRequest)
        ensures
            r@ =~= list_invoices_spec(params@),
    {
        let req = ApiRequest::new(Method::Get).segment("invoices");
        let req = req.with_customer_filter(params.customer_filter);
        let mut req = req.with_opt_query("subscription_id", params.subscription_filter);
        let f = params.status_filter;
        if f.draft {
            req = req.with_query("status[]", owned("draft"));
        }
        if f.issued {
            req = req.with_query("status[]", owned("issued"));
        }
        if f.paid {
            req = req.with_query("status[]", owned("paid"));
        }
        if f.void {
            req = req.with_query("status[]", owned("void"));
        }
        if f.synced {
            req = req.with_query("status[]", owned("synced"));
        }
        req
    }

    /// Gets an invoice by ID.
    pub fn get_invoice(id: &str) -> (r: ApiRequest)
        ensures
            r@ =~= plain_request(Method::Get, seq!["invoices"@, id@]),
    {
        ApiRequest::new(Method::Get).segment("invoices").segment(id)
    }

    /// Fetches the upcoming invoice of a subscription for the current billing
    /// period.
    pub fn get_upcoming_invoice(subscription_id: &str) -> (r: ApiRequest)
        ensures
            r@ =~= with_query_spec(
                plain_request(Method::Get, seq!["invoices"@, "upcoming"@]),
                "subscription_id"@,
                subscription_id@,
            ),
    {
        ApiRequest::new(Method::Get).segment("invoices").segment("upcoming").with_query(
            "subscription_id",
            owned(subscription_id),
        )
    }

    /// Marks an invoice as paid; the body gives the payment.
    pub fn mark_invoice_as_paid(id: &str) -> (r: ApiRequest)
        ensures
            r@ =~= plain_request(Method::Post, seq!["invoices"@, id@, "mark_paid"@]),
    {
        ApiRequest::new(Method::Post).segment("invoices").segment(id).segment("mark_paid")
    }

    /// Voids an issued invoice.
    pub fn void_invoice(id: &str) -> (r: ApiRequest)
        ensures
            r@ =~= plain_request(Method::Post, seq!["invoices"@, id@, "void"@]),
    {
        ApiRequest::new(Method::Post).segment("invoices").segment(id).segment("void")
    }
}

} // verus!
