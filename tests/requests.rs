use orb_billing::{
    ApiRequest, CostViewMode, CouponListParams, CustomerCostParams, CustomerId, IngestionMode,
    InvoiceListParams, InvoiceStatusFilter, ListParams, Method, PlanId, PlanListParams,
    SubscriptionListParams, Timestamp, DEFAULT_ENDPOINT,
};

fn path(r: &ApiRequest) -> Vec<&str> {
    r.path.iter().map(|s| s.as_str()).collect()
}

fn query(r: &ApiRequest) -> Vec<(&str, &str)> {
    r.query.iter().map(|(k, v)| (k.as_str(), v.as_str())).collect()
}

#[test]
fn customer_paths() {
    let r = ApiRequest::get_customer("cus_1");
    assert_eq!(r.method, Method::Get);
    assert_eq!(path(&r), vec!["customers", "cus_1"]);
    assert!(r.query.is_empty());
    assert!(r.idempotency_key.is_none());
    let r = ApiRequest::get_customer_by_external_id("$NOEXIST$");
    assert_eq!(path(&r), vec!["customers", "external_customer_id", "$NOEXIST$"]);
    assert_eq!(ApiRequest::delete_customer("c").method, Method::Delete);
    assert_eq!(ApiRequest::update_customer("c").method, Method::Put);
    assert_eq!(
        path(&ApiRequest::update_customer_by_external_id("e")),
        vec!["customers", "external_customer_id", "e"]
    );
    assert_eq!(path(&ApiRequest::get_customer_credit_balance("c")), vec!["customers", "c", "credits"]);
    assert_eq!(
        path(&ApiRequest::get_customer_credit_balance_by_external_id("e")),
        vec!["customers", "external_customer_id", "e", "credits"]
    );
    let r = ApiRequest::create_ledger_entry("c");
    assert_eq!(r.method, Method::Post);
    assert_eq!(path(&r), vec!["customers", "c", "credits", "ledger_entry"]);
    assert_eq!(path(&ApiRequest::list_customers()), vec!["customers"]);
}

#[test]
fn idempotency_key_travels_as_header() {
    let r = ApiRequest::create_customer(Some("key-1"));
    assert_eq!(r.method, Method::Post);
    assert_eq!(path(&r), vec!["customers"]);
    assert_eq!(r.idempotency_key.as_deref(), Some("key-1"));
    assert!(r.query.is_empty());
    assert!(ApiRequest::create_customer(None).idempotency_key.is_none());
    let r = ApiRequest::create_subscription(Some("k"));
    assert_eq!(path(&r), vec!["subscriptions"]);
    assert_eq!(r.idempotency_key.as_deref(), Some("k"));
    let r = ApiRequest::schedule_plan_change("sub_1", Some("k2"));
    assert_eq!(path(&r), vec!["subscriptions", "sub_1", "schedule_plan_change"]);
    assert_eq!(r.idempotency_key.as_deref(), Some("k2"));
}

#[test]
fn invoice_listing_default_statuses() {
    let r = ApiRequest::list_invoices(&InvoiceListParams::default());
    assert_eq!(path(&r), vec!["invoices"]);
    assert_eq!(
        query(&r),
        vec![("status[]", "issued"), ("status[]", "paid"), ("status[]", "synced")]
    );
    assert_eq!(InvoiceListParams::default().list_params(), ListParams::default());
}

#[test]
fn invoice_listing_filters_in_order() {
    let params = InvoiceListParams::default()
        .page_size(50)
        .customer_id(CustomerId::External("ext-1"))
        .subscription_id("sub_9")
        .status_filter(InvoiceStatusFilter {
            draft: true,
            issued: false,
            paid: false,
            void: true,
            synced: false,
        });
    let r = ApiRequest::list_invoices(&params);
    assert_eq!(
        query(&r),
        vec![
            ("external_customer_id", "ext-1"),
            ("subscription_id", "sub_9"),
            ("status[]", "draft"),
            ("status[]", "void"),
        ]
    );
    assert_eq!(params.list_params(), ListParams::default().page_size(50));
    let r = ApiRequest::list_invoices(&InvoiceListParams::default().customer_id(CustomerId::Orb("c")));
    assert_eq!(query(&r)[0], ("customer_id", "c"));
}

#[test]
fn invoice_actions() {
    assert_eq!(path(&ApiRequest::get_invoice("in_1")), vec!["invoices", "in_1"]);
    let r = ApiRequest::get_upcoming_invoice("sub_1");
    assert_eq!(path(&r), vec!["invoices", "upcoming"]);
    assert_eq!(query(&r), vec![("subscription_id", "sub_1")]);
    let r = ApiRequest::mark_invoice_as_paid("in_1");
    assert_eq!((r.method, path(&r)), (Method::Post, vec!["invoices", "in_1", "mark_paid"]));
    let r = ApiRequest::void_invoice("in_1");
    assert_eq!((r.method, path(&r)), (Method::Post, vec!["invoices", "in_1", "void"]));
}

#[test]
fn coupon_listing_filters() {
    let r = ApiRequest::list_coupons(&CouponListParams::default());
    assert_eq!(path(&r), vec!["coupons"]);
    assert!(r.query.is_empty());
    let params = CouponListParams::default().redemption_code("SAVE10").show_archived(false).page_size(5);
    let r = ApiRequest::list_coupons(&params);
    assert_eq!(query(&r), vec![("redemption_code", "SAVE10"), ("show_archived", "false")]);
    assert_eq!(params.list_params(), ListParams::default().page_size(5));
    let r = ApiRequest::list_coupons(&CouponListParams::default().show_archived(true));
    assert_eq!(query(&r), vec![("show_archived", "true")]);
}

#[test]
fn plan_requests() {
    let r = ApiRequest::list_plans(&PlanListParams::default().status("active"));
    assert_eq!(path(&r), vec!["plans"]);
    assert_eq!(query(&r), vec![("status", "active")]);
    assert!(ApiRequest::list_plans(&PlanListParams::default()).query.is_empty());
    assert_eq!(PlanListParams::default().page_size(500).list_params(), ListParams::default().page_size(500));
    assert_eq!(path(&ApiRequest::get_plan("p")), vec!["plans", "p"]);
    assert_eq!(path(&ApiRequest::get_plan_by_external_id("test")), vec!["plans", "external_plan_id", "test"]);
    assert_eq!(PlanId::External("test").key(), "external_plan_id");
    assert_eq!(PlanId::Orb("p").value(), "p");
    assert_eq!(PlanId::default(), PlanId::Orb(""));
}

#[test]
fn subscription_requests() {
    let r = ApiRequest::list_subscriptions(&SubscriptionListParams::default());
    assert_eq!(path(&r), vec!["subscriptions"]);
    assert!(r.query.is_empty());
    let params = SubscriptionListParams::default().customer_id(CustomerId::Orb("cus_0")).page_size(11);
    let r = ApiRequest::list_subscriptions(&params);
    assert_eq!(query(&r), vec![("customer_id", "cus_0")]);
    assert_eq!(params.list_params(), ListParams::default().page_size(11));
    assert_eq!(path(&ApiRequest::get_subscription("s")), vec!["subscriptions", "s"]);
    assert_eq!(CustomerId::default(), CustomerId::Orb(""));
}

#[test]
fn event_requests() {
    let r = ApiRequest::ingest_events(IngestionMode::Debug);
    assert_eq!(path(&r), vec!["ingest"]);
    assert_eq!(query(&r), vec![("debug", "true")]);
    assert_eq!(query(&ApiRequest::ingest_events(IngestionMode::Production)), vec![("debug", "false")]);
    let r = ApiRequest::search_events();
    assert_eq!((r.method, path(&r)), (Method::Post, vec!["events", "search"]));
    assert_eq!(path(&ApiRequest::amend_event("e")), vec!["events", "e"]);
    let r = ApiRequest::deprecate_event("e");
    assert_eq!((r.method, path(&r)), (Method::Put, vec!["events", "e", "deprecate"]));
}

#[test]
fn backfill_requests() {
    assert_eq!(path(&ApiRequest::create_backfill()), vec!["events", "backfills"]);
    assert_eq!(path(&ApiRequest::close_backfill("b")), vec!["events", "backfills", "b", "close"]);
    assert_eq!(path(&ApiRequest::revert_backfill("b")), vec!["events", "backfills", "b", "revert"]);
    assert_eq!(ApiRequest::list_backfills().method, Method::Get);
    assert_eq!(path(&ApiRequest::fetch_backfill("b")), vec!["events", "backfills", "b"]);
}

#[test]
fn timestamps_format_in_utc() {
    let t = Timestamp::from_unix_nanos(0).unwrap();
    assert_eq!(t.to_rfc3339_utc(), "1970-01-01T00:00:00Z");
    let t = Timestamp::from_unix_nanos(1_700_000_000_000_000_000).unwrap();
    assert_eq!(t.to_rfc3339_utc(), "2023-11-14T22:13:20Z");
    assert_eq!(t.unix_nanos(), 1_700_000_000_000_000_000);
    let t = Timestamp::from_unix_nanos(1_500_000_000).unwrap();
    assert_eq!(t.to_rfc3339_utc(), "1970-01-01T00:00:01.5Z");
}

#[test]
fn timestamps_out_of_range_are_refused() {
    let min = -62_167_219_200_000_000_000i128;
    let max = 253_402_300_799_999_999_999i128;
    assert_eq!(Timestamp::from_unix_nanos(min).unwrap().to_rfc3339_utc(), "0000-01-01T00:00:00Z");
    assert_eq!(
        Timestamp::from_unix_nanos(max).unwrap().to_rfc3339_utc(),
        "9999-12-31T23:59:59.999999999Z"
    );
    assert!(Timestamp::from_unix_nanos(min - 1).is_none());
    assert!(Timestamp::from_unix_nanos(max + 1).is_none());
}

#[test]
fn customer_cost_query() {
    let start = Timestamp::from_unix_nanos(0).unwrap();
    let end = Timestamp::from_unix_nanos(86_400_000_000_000).unwrap();
    let params = CustomerCostParams::default()
        .timeframe_end(end)
        .timeframe_start(start)
        .group_by("region")
        .view_mode(CostViewMode::Cumulative);
    let r = ApiRequest::get_customer_costs("cus_1", &params);
    assert_eq!(path(&r), vec!["customers", "cus_1", "costs"]);
    assert_eq!(
        query(&r),
        vec![
            ("view_mode", "cumulative"),
            ("group_by", "region"),
            ("timeframe_start", "1970-01-01T00:00:00Z"),
            ("timeframe_end", "1970-01-02T00:00:00Z"),
        ]
    );
    let r = ApiRequest::get_customer_costs_by_external_id("e", &CustomerCostParams::default());
    assert_eq!(path(&r), vec!["customers", "external_customer_id", "e", "costs"]);
    assert!(r.query.is_empty());
}

#[test]
fn customer_cost_query_with_view_mode_and_start() {
    // 2023-01-01T05:00:00+05:00 is midnight UTC.
    let start = Timestamp::from_unix_nanos(1_672_531_200_000_000_000).unwrap();
    let params = CustomerCostParams::default()
        .view_mode(CostViewMode::Cumulative)
        .timeframe_start(start);
    let r = ApiRequest::get_customer_costs("c", &params);
    assert_eq!(
        query(&r),
        vec![("view_mode", "cumulative"), ("timeframe_start", "2023-01-01T00:00:00Z")]
    );
}

#[test]
fn default_endpoint() {
    assert_eq!(DEFAULT_ENDPOINT, "https://api.billwithorb.com/v1");
}
