//! Customers: identifiers, payment providers, credit ledgers and costs.
use vstd::prelude::*;
use vstd::string::StringExecFns;
use crate::error::Error;
use crate::request::{
    opt_ref_view, owned, plain_request, str_eq, with_key_spec, with_query_spec, ApiRequest,
    Method, RequestView,
};
use crate::timestamp::{rfc3339_utc, Timestamp};

verus! {

/// A payment provider.
#[non_exhaustive]
#[derive(Debug, Clone, PartialEq, Eq, Hash)]
pub enum PaymentProvider {
    /// Quickbooks.
    Quickbooks,
    /// Bill.com.
    BillDotCom,
    /// Stripe.
    Stripe,
    /// Stripe charge.
    StripeCharge,
    /// Stripe invoice.
    StripeInvoice,
    /// A value this library does not know, as it came.
    Other(String),
}

impl PaymentProvider {
    /// The string that stands for this value on the wire.
    pub open spec fn wire_name(&self) -> Seq<char> {
        match self {
            PaymentProvider::Quickbooks => "quickbooks"@,
            PaymentProvider::BillDotCom => "bill.com"@,
            PaymentProvider::Stripe => "stripe"@,
            PaymentProvider::StripeCharge => "stripe_charge"@,
            PaymentProvider::StripeInvoice => "stripe_invoice"@,
            PaymentProvider::Other(s) => s@,
        }
    }

    /// The known value that `s` stands for, if any.
    pub open spec fn known_value(s: Seq<char>) -> Option<PaymentProvider> {
        if s == "quickbooks"@ {
            Some(PaymentProvider::Quickbooks)
        } else if s == "bill.com"@ {
            Some(PaymentProvider::BillDotCom)
        } else if s == "stripe"@ {
            Some(PaymentProvider::Stripe)
        } else if s == "stripe_charge"@ {
            Some(PaymentProvider::StripeCharge)
        } else if s == "stripe_invoice"@ {
            Some(PaymentProvider::StripeInvoice)
        } else {
            None
        }
    }

    /// Decoding `s` gives `r`: the known value it stands for, else the
    /// fallback that keeps `s` as it came.
    pub open spec fn decodes_to(s: Seq<char>, r: PaymentProvider) -> bool {
        match Self::known_value(s) {
            Some(v) => r == v,
            None => r matches PaymentProvider::Other(t) && t@ == s,
        }
    }

    /// The string that stands for this value on the wire.
    pub fn as_str(&self) -> (r: &str)
        ensures
            r@ == self.wire_name(),
    {
        match self {
            PaymentProvider::Quickbooks => "quickbooks",
            PaymentProvider::BillDotCom => "bill.com",
            PaymentProvider::Stripe => "stripe",
            PaymentProvider::StripeCharge => "stripe_charge",
            PaymentProvider::StripeInvoice => "stripe_invoice",
            PaymentProvider::Other(s) => s.as_str(),
        }
    }

    /// Decodes a wire string.
    pub fn from_wire(s: &str) -> (r: PaymentProvider)
        ensures
            Self::decodes_to(s@, r),
    {
        if str_eq(s, "quickbooks") {
            PaymentProvider::Quickbooks
        } else if str_eq(s, "bill.com") {
            PaymentProvider::BillDotCom
        } else if str_eq(s, "stripe") {
            PaymentProvider::Stripe
        } else if str_eq(s, "stripe_charge") {
            PaymentProvider::StripeCharge
        } else if str_eq(s, "stripe_invoice") {
            PaymentProvider::StripeInvoice
        } else {
            PaymentProvider::Other(owned(s))
        }
    }
}

/// Encoding a known value and decoding the string gives the value back;
/// a string that stands for no known value decodes to the fallback, which
/// encodes back to exactly that string.
pub proof fn lemma_payment_provider_wire_round_trip(v: PaymentProvider, s: Seq<char>, r: PaymentProvider)
    ensures
        !(v is Other) && PaymentProvider::decodes_to(v.wire_name(), r) ==> r == v,
        PaymentProvider::known_value(s) is None && PaymentProvider::decodes_to(s, r) ==> (r is Other && r.wire_name() == s),
{
    reveal_strlit("quickbooks");
    reveal_strlit("bill.com");
    reveal_strlit("stripe");
    reveal_strlit("stripe_charge");
    reveal_strlit("stripe_invoice");
    match v {
        PaymentProvider::Quickbooks => {},
        PaymentProvider::BillDotCom => {
            assert("quickbooks"@.len() != "bill.com"@.len());
        },
        PaymentProvider::Stripe => {
            assert("quickbooks"@.len() != "stripe"@.len());
            assert("bill.com"@.len() != "stripe"@.len());
        },
        PaymentProvider::StripeCharge => {
            assert("quickbooks"@.len() != "stripe_charge"@.len());
            assert("bill.com"@.len() != "stripe_charge"@.len());
            assert("stripe"@.len() != "stripe_charge"@.len());
        },
        PaymentProvider::StripeInvoice => {
            assert("quickbooks"@.len() != "stripe_invoice"@.len());
            assert("bill.com"@.len() != "stripe_invoice"@.len());
            assert("stripe"@.len() != "stripe_invoice"@.len());
            assert("stripe_charge"@.len() != "stripe_invoice"@.len());
        },
        PaymentProvider::Other(_) => {},
    }
}

/// The reason for a void operation.
#[derive(Debug, Clone, PartialEq, Eq, Hash)]
pub enum VoidReason {
    /// The credits are being returned to the originator.
    Refund,
    /// A value this library does not know, as it came.
    Other(String),
}

impl VoidReason {
    /// The string that stands for this value on the wire.
    pub open spec fn wire_name(&self) -> Seq<char> {
        match self {
            VoidReason::Refund => "refund"@,
            VoidReason::Other(s) => s@,
        }
    }

    /// The known value that `s` stands for, if any.
    pub open spec fn known_value(s: Seq<char>) -> Option<VoidReason> {
        if s == "refund"@ {
            Some(VoidReason::Refund)
        } else {
            None
        }
    }

    /// Decoding `s` gives `r`: the known value it stands for, else the
    /// fallback that keeps `s` as it came.
    pub open spec fn decodes_to(s: Seq<char>, r: VoidReason) -> bool {
        match Self::known_value(s) {
            Some(v) => r == v,
            None => r matches VoidReason::Other(t) && t@ == s,
        }
    }

    /// The string that stands for this value on the wire.
    pub fn as_str(&self) -> (r: &str)
        ensures
            r@ == self.wire_name(),
    {
        match self {
            VoidReason::Refund => "refund",
            VoidReason::Other(s) => s.as_str(),
        }
    }

    /// Decodes a wire string.
    pub fn from_wire(s: &str) -> (r: VoidReason)
        ensures
            Self::decodes_to(s@, r),
    {
        if str_eq(s, "refund") {
            VoidReason::Refund
        } else {
            VoidReason::Other(owned(s))
        }
    }
}

/// Encoding a known value and decoding the string gives the value back;
/// a string that stands for no known value decodes to the fallback, which
/// encodes back to exactly that string.
pub proof fn lemma_void_reason_wire_round_trip(v: VoidReason, s: Seq<char>, r: VoidReason)
    ensures
        !(v is Other) && VoidReason::decodes_to(v.wire_name(), r) ==> r == v,
        VoidReason::known_value(s) is None && VoidReason::decodes_to(s, r) ==> (r is Other && r.wire_name() == s),
{
    reveal_strlit("refund");
    match v {
        VoidReason::Refund => {},
        VoidReason::Other(_) => {},
    }
}

/// The state of a ledger entry.
#[derive(Debug, Clone, PartialEq, Eq, Hash)]
pub enum EntryStatus {
    /// The entry has been committed to the ledger.
    Committed,
    /// The entry hasn't yet been committed to the ledger.
    Pending,
    /// A value this library does not know, as it came.
    Other(String),
}

impl EntryStatus {
    /// The string that stands for this value on the wire.
    pub open spec fn wire_name(&self) -> Seq<char> {
        match self {
            EntryStatus::Committed => "committed"@,
            EntryStatus::Pending => "pending"@,
            EntryStatus::Other(s) => s@,
        }
    }

    /// The known value that `s` stands for, if any.
    pub open spec fn known_value(s: Seq<char>) -> Option<EntryStatus> {
        if s == "committed"@ {
            Some(EntryStatus::Committed)
        } else if s == "pending"@ {
            Some(EntryStatus::Pending)
        } else {
            None
        }
    }

    /// Decoding `s` gives `r`: the known value it stands for, else the
    /// fallback that keeps `s` as it came.
    pub open spec fn decodes_to(s: Seq<char>, r: EntryStatus) -> bool {
        match Self::known_value(s) {
            Some(v) => r == v,
            None => r matches EntryStatus::Other(t) && t@ == s,
        }
    }

    /// The string that stands for this value on the wire.
    pub fn as_str(&self) -> (r: &str)
        ensures
            r@ == self.wire_name(),
    {
        match self {
            EntryStatus::Committed => "committed",
            EntryStatus::Pending => "pending",
            EntryStatus::Other(s) => s.as_str(),
        }
    }

    /// Decodes a wire string.
    pub fn from_wire(s: &str) -> (r: EntryStatus)
        ensures
            Self::decodes_to(s@, r),
    {
        if str_eq(s, "committed") {
            EntryStatus::Committed
        } else if str_eq(s, "pending") {
            EntryStatus::Pending
        } else {
            EntryStatus::Other(owned(s))
        }
    }
}

/// Encoding a known value and decoding the string gives the value back;
/// a string that stands for no known value decodes to the fallback, which
/// encodes back to exactly that string.
pub proof fn lemma_entry_status_wire_round_trip(v: EntryStatus, s: Seq<char>, r: EntryStatus)
    ensures
        !(v is Other) && EntryStatus::decodes_to(v.wire_name(), r) ==> r == v,
        EntryStatus::known_value(s) is None && EntryStatus::decodes_to(s, r) ==> (r is Other && r.wire_name() == s),
{
    reveal_strlit("committed");
    reveal_strlit("pending");
    match v {
        EntryStatus::Committed => {},
        EntryStatus::Pending => {
            assert("committed"@.len() != "pending"@.len());
        },
        EntryStatus::Other(_) => {},
    }
}

/// The view mode for a cost breakdown.
#[derive(Debug, Clone, PartialEq, Eq, Hash)]
pub enum CostViewMode {
    /// Provide results as an incremental day-by-day view.
    Periodic,
    /// Provide results as cumulative totals since the start of the billing period.
    Cumulative,
    /// A value this library does not know, as it came.
    Other(String),
}

impl CostViewMode {
    /// The string that stands for this value on the wire.
    pub open spec fn wire_name(&self) -> Seq<char> {
        match self {
            CostViewMode::Periodic => "periodic"@,
            CostViewMode::Cumulative => "cumulative"@,
            CostViewMode::Other(s) => s@,
        }
    }

    /// The known value that `s` stands for, if any.
    pub open spec fn known_value(s: Seq<char>) -> Option<CostViewMode> {
        if s == "periodic"@ {
            Some(CostViewMode::Periodic)
        } else if s == "cumulative"@ {
            Some(CostViewMode::Cumulative)
        } else {
            None
        }
    }

    /// Decoding `s` gives `r`: the known value it stands for, else the
    /// fallback that keeps `s` as it came.
    pub open spec fn decodes_to(s: Seq<char>, r: CostViewMode) -> bool {
        match Self::known_value(s) {
            Some(v) => r == v,
            None => r matches CostViewMode::Other(t) && t@ == s,
        }
    }

    /// The string that stands for this value on the wire.
    pub fn as_str(&self) -> (r: &str)
        ensures
            r@ == self.wire_name(),
    {
        match self {
            CostViewMode::Periodic => "periodic",
            CostViewMode::Cumulative => "cumulative",
            CostViewMode::Other(s) => s.as_str(),
        }
    }

    /// Decodes a wire string.
    pub fn from_wire(s: &str) -> (r: CostViewMode)
        ensures
            Self::decodes_to(s@, r),
    {
        if str_eq(s, "periodic") {
            CostViewMode::Periodic
        } else if str_eq(s, "cumulative") {
            CostViewMode::Cumulative
        } else {
            CostViewMode::Other(owned(s))
        }
    }
}

/// Encoding a known value and decoding the string gives the value back;
/// a string that stands for no known value decodes to the fallback, which
/// encodes back to exactly that string.
pub proof fn lemma_cost_view_mode_wire_round_trip(v: CostViewMode, s: Seq<char>, r: CostViewMode)
    ensures
        !(v is Other) && CostViewMode::decodes_to(v.wire_name(), r) ==> r == v,
        CostViewMode::known_value(s) is None && CostViewMode::decodes_to(s, r) ==> (r is Other && r.wire_name() == s),
{
    reveal_strlit("periodic");
    reveal_strlit("cumulative");
    match v {
        CostViewMode::Periodic => {},
        CostViewMode::Cumulative => {
            assert("periodic"@.len() != "cumulative"@.len());
        },
        CostViewMode::Other(_) => {},
    }
}


/// A customer ID.
#[derive(Debug, Clone, Copy, PartialEq, Eq, Hash)]
pub enum CustomerId<'a> {
    /// An Orb customer ID.
    Orb(&'a str),
    /// An external customer ID.
    External(&'a str),
}

impl<'a> CustomerId<'a> {
    /// The field or query key under which this ID travels.
    pub open spec fn key_spec(&self) -> Seq<char> {
        match self {
            CustomerId::Orb(_) => "customer_id"@,
            CustomerId::External(_) => "external_customer_id"@,
        }
    }

    /// The ID itself.
    pub open spec fn value_spec(&self) -> Seq<char> {
        match self {
            CustomerId::Orb(id) => id@,
            CustomerId::External(id) => id@,
        }
    }

    /// The field or query key under which this ID travels.
    pub fn key(&self) -> (r: &'static str)
        ensures
            r@ == self.key_spec(),
    {
        match self {
            CustomerId::Orb(_) => "customer_id",
            CustomerId::External(_) => "external_customer_id",
        }
    }

    /// The ID itself.
    pub fn value(&self) -> (r: &'a str)
        ensures
            r@ == self.value_spec(),
    {
        match self {
            CustomerId::Orb(id) => id,
            CustomerId::External(id) => id,
        }
    }
}

impl<'a> Default for CustomerId<'a> {
    fn default() -> (r: CustomerId<'a>)
        ensures
            r matches CustomerId::Orb(id) && id@.len() == 0,
    {
        proof {
            reveal_strlit("");
        }
        CustomerId::Orb("")
    }
}

/// A customer as a list response may carry it: the record itself, or the
/// tombstone of a deleted customer.
#[derive(Debug, Clone)]
pub enum CustomerResponse<C> {
    Normal(C),
    Deleted { id: String, deleted: bool },
}

/// The detail of the error for a tombstone whose `deleted` flag is false.
pub open spec fn deleted_shape_detail(id: Seq<char>) -> Seq<char> {
    "customer "@ + id + " used deleted response shape but deleted field was `false`"@
}

/// What a listing makes of one customer response: a record is kept, a
/// tombstone is skipped, and a tombstone that says it was not deleted is an
/// error.
pub open spec fn resolve_customer_spec<C>(r: CustomerResponse<C>, out: Result<Option<C>, Error>) -> bool {
    match r {
        CustomerResponse::Normal(c) => out == Ok::<Option<C>, Error>(Some(c)),
        CustomerResponse::Deleted { id, deleted } => if deleted {
            out == Ok::<Option<C>, Error>(None)
        } else {
            out matches Err(Error::UnexpectedResponse { detail }) && detail@
                == deleted_shape_detail(id@)
        },
    }
}

/// Keeps a customer record, skips a deleted customer's tombstone, and
/// reports a tombstone whose `deleted` flag is false as an unexpected
/// response.
pub fn resolve_customer<C>(r: CustomerResponse<C>) -> (out: Result<Option<C>, Error>)
    ensures
        resolve_customer_spec(r, out),
{
    match r {
        CustomerResponse::Normal(c) => Ok(Some(c)),
        CustomerResponse::Deleted { id, deleted } => {
            if deleted {
                Ok(None)
            } else {
                let detail = owned("customer ").concat(id.as_str()).concat(
                    " used deleted response shape but deleted field was `false`",
                );
                Err(Error::UnexpectedResponse { detail })
            }
        },
    }
}

/// The filters of a customer costs query.
#[derive(Debug, Clone)]
struct CustomerCostParamsFilter<'a> {
    timeframe_start: Option<Timestamp>,
    timeframe_end: Option<Timestamp>,
    view_mode: Option<CostViewMode>,
    group_by: Option<&'a str>,
}

/// Parameters for a customer costs query.
#[derive(Debug, Clone)]
pub struct CustomerCostParams<'a> {
    filter: CustomerCostParamsFilter<'a>,
}

/// The mathematical value of [`CustomerCostParams`]: the instants as
/// nanoseconds since the Unix epoch.
pub struct CostParamsView {
    pub timeframe_start: Option<int>,
    pub timeframe_end: Option<int>,
    pub view_mode: Option<CostViewMode>,
    pub group_by: Option<Seq<char>>,
}

pub open spec fn opt_nanos(t: Option<Timestamp>) -> Option<int> {
    match t {
        Some(t) => Some(t.nanos()),
        None => None,
    }
}

impl<'a> View for CustomerCostParams<'a> {
    type V = CostParamsView;

    closed spec fn view(&self) -> CostParamsView {
        CostParamsView {
            timeframe_start: opt_nanos(self.filter.timeframe_start),
            timeframe_end: opt_nanos(self.filter.timeframe_end),
            view_mode: self.filter.view_mode,
            group_by: opt_ref_view(self.filter.group_by),
        }
    }
}

/// The query of a costs request: the view mode, the grouping key, then the
/// bounds of the timeframe as RFC 3339 text in UTC, each only where set.
pub open spec fn cost_query_spec(r: RequestView, p: CostParamsView) -> RequestView {
    let r1 = match p.view_mode {
        Some(m) => with_query_spec(r, "view_mode"@, m.wire_name()),
        None => r,
    };
    let r2 = match p.group_by {
        Some(g) => with_query_spec(r1, "group_by"@, g),
        None => r1,
    };
    let r3 = match p.timeframe_start {
        Some(t) => with_query_spec(r2, "timeframe_start"@, rfc3339_utc(t)),
        None => r2,
    };
    match p.timeframe_end {
        Some(t) => with_query_spec(r3, "timeframe_end"@, rfc3339_utc(t)),
        None => r3,
    }
}

impl<'a> Default for CustomerCostParams<'a> {
    /// No filter: the API's defaults apply.
    fn default() -> (r: CustomerCostParams<'a>)
        ensures
            r@ == (CostParamsView {
                timeframe_start: None,
                timeframe_end: None,
                view_mode: None,
                group_by: None,
            }),
    {
        CustomerCostParams {
            filter: CustomerCostParamsFilter {
                timeframe_start: None,
                timeframe_end: None,
                view_mode: None,
                group_by: None,
            },
        }
    }
}

impl<'a> CustomerCostParams<'a> {
    /// The start of the returned range. If not specified this defaults to the
    /// billing period start date.
    pub fn timeframe_start(self, timeframe_start: Timestamp) -> (r: Self)
        ensures
            r@ == (CostParamsView { timeframe_start: Some(timeframe_start.nanos()), ..self@ }),
    {
        let mut s = self;
        s.filter.timeframe_start = Some(timeframe_start);
        s
    }

    /// The end of the returned range. If unspecified will default to the
    /// billing period end date.
    pub fn timeframe_end(self, timeframe_end: Timestamp) -> (r: Self)
        ensures
            r@ == (CostParamsView { timeframe_end: Some(timeframe_end.nanos()), ..self@ }),
    {
        let mut s = self;
        s.filter.timeframe_end = Some(timeframe_end);
        s
    }

    /// How costs should be broken down in the resultant day-by-day view.
    pub fn view_mode(self, view_mode: CostViewMode) -> (r: Self)
        ensures
            r@ == (CostParamsView { view_mode: Some(view_mode), ..self@ }),
    {
        let mut s = self;
        s.filter.view_mode = Some(view_mode);
        s
    }

    /// The custom attribute to group costs by.
    pub fn group_by(self, group_by: &'a str) -> (r: Self)
        ensures
            r@ == (CostParamsView { group_by: Some(group_by@), ..self@ }),
    {
        let mut s = self;
        s.filter.group_by = Some(group_by);
        s
    }

    /// Adds the filters to a costs request as query pairs.
    pub fn apply(&self, req: ApiRequest) -> (r: ApiRequest)
        ensures
            r@ =~= cost_query_spec(req@, self@),
    {
        let f = &self.filter;
        let mut req = req;
        if let Some(view_mode) = &f.view_mode {
            req = req.with_query("view_mode", owned(view_mode.as_str()));
        }
        if let Some(group_by) = f.group_by {
            req = req.with_query("group_by", owned(group_by));
        }
        if let Some(start) = &f.timeframe_start {
            req = req.with_query("timeframe_start", start.to_rfc3339_utc());
        }
        if let Some(end) = &f.timeframe_end {
            req = req.with_query("timeframe_end", end.to_rfc3339_utc());
        }
        req
    }
}

impl ApiRequest {
    /// Lists all customers.
    pub fn list_customers() -> (r: ApiRequest)
        ensures
            r@ =~= plain_request(Method::Get, seq!["customers"@]),
    {
        ApiRequest::new(Method::Get).segment("customers")
    }

    /// Creates a customer; the body is the customer to create.
    pub fn create_customer(idempotency_key: Option<&str>) -> (r: ApiRequest)
        ensures
            r@ =~= with_key_spec(
                plain_request(Method::Post, seq!["customers"@]),
                opt_ref_view(idempotency_key),
            ),
    {
        ApiRequest::new(Method::Post).segment("customers").with_idempotency_key(idempotency_key)
    }

    /// Gets a customer by ID.
    pub fn get_customer(id: &str) -> (r: ApiRequest)
        ensures
            r@ =~= plain_request(Method::Get, seq!["customers"@, id@]),
    {
        ApiRequest::new(Method::Get).segment("customers").segment(id)
    }

    /// Gets a customer by external ID.
    pub fn get_customer_by_external_id(external_id: &str) -> (r: ApiRequest)
        ensures
            r@ =~= plain_request(
                Method::Get,
                seq!["customers"@, "external_customer_id"@, external_id@],
            ),
    {
        ApiRequest::new(Method::Get).segment("customers").segment("external_customer_id").segment(
            external_id,
        )
    }

    /// Updates a customer by ID; the body is the update.
    pub fn update_customer(id: &str) -> (r: ApiRequest)
        ensures
            r@ =~= plain_request(Method::Put, seq!["customers"@, id@]),
    {
        ApiRequest::new(Method::Put).segment("customers").segment(id)
    }

    /// Updates a customer by external ID; the body is the update.
    pub fn update_customer_by_external_id(external_id: &str) -> (r: ApiRequest)
        ensures
            r@ =~= plain_request(
                Method::Put,
                seq!["customers"@, "external_customer_id"@, external_id@],
            ),
    {
        ApiRequest::new(Method::Put).segment("customers").segment("external_customer_id").segment(
            external_id,
        )
    }

    /// Deletes a customer by ID.
    pub fn delete_customer(id: &str) -> (r: ApiRequest)
        ensures
            r@ =~= plain_request(Method::Delete, seq!["customers"@, id@]),
    {
        ApiRequest::new(Method::Delete).segment("customers").segment(id)
    }

    /// Lists the unexpired, non-zero credit blocks of a customer.
    pub fn get_customer_credit_balance(id: &str) -> (r: ApiRequest)
        ensures
            r@ =~= plain_request(Method::Get, seq!["customers"@, id@, "credits"@]),
    {
        ApiRequest::new(Method::Get).segment("customers").segment(id).segment("credits")
    }

    /// Lists the unexpired, non-zero credit blocks of a customer by external ID.
    pub fn get_customer_credit_balance_by_external_id(external_id: &str) -> (r: ApiRequest)
        ensures
            r@ =~= plain_request(
                Method::Get,
                seq!["customers"@, "external_customer_id"@, external_id@, "credits"@],
            ),
    {
        ApiRequest::new(Method::Get).segment("customers").segment("external_customer_id").segment(
            external_id,
        ).segment("credits")
    }

    /// Creates a ledger entry for a customer's credit balance; the body is the entry.
    pub fn create_ledger_entry(id: &str) -> (r: ApiRequest)
        ensures
            r@ =~= plain_request(
                Method::Post,
                seq!["customers"@, id@, "credits"@, "ledger_entry"@],
            ),
    {
        ApiRequest::new(Method::Post).segment("customers").segment(id).segment("credits").segment(
            "ledger_entry",
        )
    }

    /// Fetches a day-by-day snapshot of a customer's costs.
    pub fn get_customer_costs(id: &str, params: &CustomerCostParams) -> (r: ApiRequest)
        ensures
            r@ =~= cost_query_spec(
                plain_request(Method::Get, seq!["customers"@, id@, "costs"@]),
                params@,
            ),
    {
        let req = ApiRequest::new(Method::Get).segment("customers").segment(id).segment("costs");
        params.apply(req)
    }

    /// Fetches a day-by-day snapshot of a customer's costs by external ID.
    pub fn get_customer_costs_by_external_id(external_id: &str, params: &CustomerCostParams) -> (r:
        ApiRequest)
        ensures
            r@ =~= cost_query_spec(
                plain_request(
                    Method::Get,
                    seq!["customers"@, "external_customer_id"@, external_id@, "costs"@],
                ),
                params@,
            ),
    {
        let req = ApiRequest::new(Method::Get).segment("customers").segment(
            "external_customer_id",
        ).segment(external_id).segment("costs");
        params.apply(req)
    }
}

} // verus!
