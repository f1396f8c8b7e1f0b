use orb_billing::{
    BackfillStatus, CostViewMode, EntryStatus, PaymentProvider, SubscriptionPlanChangeOption,
    SubscriptionStatus, TaxIdType, VoidReason,
};

#[test]
fn payment_provider_round_trip() {
    for v in [
        PaymentProvider::Quickbooks,
        PaymentProvider::BillDotCom,
        PaymentProvider::Stripe,
        PaymentProvider::StripeCharge,
        PaymentProvider::StripeInvoice,
    ] {
        assert_eq!(PaymentProvider::from_wire(v.as_str()), v);
    }
    assert_eq!(PaymentProvider::BillDotCom.as_str(), "bill.com");
    assert_eq!(PaymentProvider::from_wire("stripe_charge"), PaymentProvider::StripeCharge);
}

#[test]
fn payment_provider_unknown_falls_back() {
    let v = PaymentProvider::from_wire("paypal");
    assert_eq!(v, PaymentProvider::Other("paypal".to_string()));
    assert_eq!(v.as_str(), "paypal");
    assert_eq!(PaymentProvider::from_wire("Stripe"), PaymentProvider::Other("Stripe".to_string()));
    assert_eq!(PaymentProvider::from_wire(""), PaymentProvider::Other(String::new()));
}

#[test]
fn subscription_status_round_trip() {
    for v in [SubscriptionStatus::Active, SubscriptionStatus::Ended, SubscriptionStatus::Upcoming] {
        assert_eq!(SubscriptionStatus::from_wire(v.as_str()), v);
    }
    assert_eq!(SubscriptionStatus::Upcoming.as_str(), "upcoming");
    let v = SubscriptionStatus::from_wire("paused");
    assert_eq!(v, SubscriptionStatus::Other("paused".to_string()));
    assert_eq!(v.as_str(), "paused");
}

#[test]
fn tax_id_type_round_trip() {
    assert_eq!(TaxIdType::UsEin.as_str(), "us_ein");
    assert_eq!(TaxIdType::CaGstHst.as_str(), "ca_gst_hst");
    assert_eq!(TaxIdType::EuOssVat.as_str(), "eu_oss_vat");
    assert_eq!(TaxIdType::from_wire("za_vat"), TaxIdType::ZaVat);
    assert_eq!(TaxIdType::from_wire("ae_trn"), TaxIdType::AeTrn);
    assert_eq!(TaxIdType::from_wire(TaxIdType::JpTrn.as_str()), TaxIdType::JpTrn);
    let v = TaxIdType::from_wire("xx_new");
    assert_eq!(v, TaxIdType::Other("xx_new".to_string()));
    assert_eq!(v.as_str(), "xx_new");
}

#[test]
fn backfill_status_round_trip() {
    for v in [
        BackfillStatus::Pending,
        BackfillStatus::Reflected,
        BackfillStatus::PendingRevert,
        BackfillStatus::Reverted,
    ] {
        assert_eq!(BackfillStatus::from_wire(v.as_str()), v);
    }
    assert_eq!(BackfillStatus::PendingRevert.as_str(), "pending_revert");
    let v = BackfillStatus::from_wire("archived");
    assert_eq!(v, BackfillStatus::Other("archived".to_string()));
    assert_eq!(v.as_str(), "archived");
}

#[test]
fn ledger_and_cost_enumerations_round_trip() {
    assert_eq!(CostViewMode::from_wire("cumulative"), CostViewMode::Cumulative);
    assert_eq!(CostViewMode::Periodic.as_str(), "periodic");
    assert_eq!(CostViewMode::from_wire("daily"), CostViewMode::Other("daily".to_string()));
    assert_eq!(EntryStatus::from_wire("committed"), EntryStatus::Committed);
    assert_eq!(EntryStatus::from_wire(EntryStatus::Pending.as_str()), EntryStatus::Pending);
    assert_eq!(EntryStatus::from_wire("expired"), EntryStatus::Other("expired".to_string()));
    assert_eq!(VoidReason::from_wire("refund"), VoidReason::Refund);
    let v = VoidReason::from_wire("fraud");
    assert_eq!(v, VoidReason::Other("fraud".to_string()));
    assert_eq!(v.as_str(), "fraud");
}

#[test]
fn plan_change_options_encode() {
    assert_eq!(SubscriptionPlanChangeOption::RequestedDate.as_str(), "requested_date");
    assert_eq!(
        SubscriptionPlanChangeOption::EndOfSubscriptionTerm.as_str(),
        "end_of_subscription_term"
    );
    assert_eq!(SubscriptionPlanChangeOption::Immediate.as_str(), "immediate");
}
