//! Coupons.
use vstd::prelude::*;
use crate::config::ListParams;
use crate::request::{
    bool_query_value, bool_text, opt_ref_view, plain_request, with_opt_query_spec,
    ApiRequest, Method, RequestView,
};

verus! {

/// Parameters for a coupon list operation.
#[derive(Debug, Clone, Copy)]
pub struct CouponListParams<'a> {
    inner: ListParams,
    redemption_code_filter: Option<&'a str>,
    show_archived_filter: Option<bool>,
}

/// The mathematical value of [`CouponListParams`].
pub struct CouponListView {
    pub page_size: u64,
    pub redemption_code: Option<Seq<char>>,
    pub show_archived: Option<bool>,
}

impl<'a> View for CouponListParams<'a> {
    type V = CouponListView;

    closed spec fn view(&self) -> CouponListView {
        CouponListView {
            page_size: self.inner.page_size_spec(),
            redemption_code: opt_ref_view(self.redemption_code_filter),
            show_archived: self.show_archived_filter,
        }
    }
}

impl<'a> Default for CouponListParams<'a> {
    /// Pages of 20 coupons, no filter.
    fn default() -> (r: CouponListParams<'a>)
        ensures
            r@ == (CouponListView { page_size: 20, redemption_code: None, show_archived: None }),
    {
        CouponListParams {
            inner: ListParams::default(),
            redemption_code_filter: None,
            show_archived_filter: None,
        }
    }
}

impl<'a> CouponListParams<'a> {
    /// Sets the page size for the list operation.
    ///
    /// See [`ListParams::page_size`].
    pub fn page_size(self, page_size: u64) -> (r: Self)
        ensures
            r@ == (CouponListView { page_size, ..self@ }),
    {
        CouponListParams { inner: self.inner.page_size(page_size), ..self }
    }

    /// Filters the listing to the specified redemption code.
    pub fn redemption_code(self, filter: &'a str) -> (r: Self)
        ensures
            r@ == (CouponListView { redemption_code: Some(filter@), ..self@ }),
    {
        CouponListParams { redemption_code_filter: Some(filter), ..self }
    }

    /// Filters the listing by whether archived coupons are shown.
    pub fn show_archived(self, filter: bool) -> (r: Self)
        ensures
            r@ == (CouponListView { show_archived: Some(filter), ..self@ }),
    {
        CouponListParams { show_archived_filter: Some(filter), ..self }
    }

    /// The page parameters of the listing.
    pub fn list_params(&self) -> (r: ListParams)
        ensures
            r.page_size_spec() == self@.page_size,
    {
        self.inner
    }
}

/// The coupon listing request: the redemption code filter, then the
/// archived filter, each only where set.
pub open spec fn list_coupons_spec(p: CouponListView) -> RequestView {
    let r = with_opt_query_spec(
        plain_request(Method::Get, seq!["coupons"@]),
        "redemption_code"@,
        p.redemption_code,
    );
    match p.show_archived {
        Some(b) => with_opt_query_spec(r, "show_archived"@, Some(bool_text(b))),
        None => r,
    }
}

impl ApiRequest {
    /// Lists coupons as configured by `params`.
    pub fn list_coupons(params: &CouponListParams) -> (r: ApiRequest)
        ensures
            r@ =~= list_coupons_spec(params@),
    {
        let req = ApiRequest::new(Method::Get).segment("coupons");
        let req = req.with_opt_query("redemption_code", params.redemption_code_filter);
        match params.show_archived_filter {
            Some(show_archived) => req.with_query("show_archived", bool_query_value(show_archived)),
            None => req,
        }
    }
}

} // verus!
