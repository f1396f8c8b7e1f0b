//! An API client for the Orb billing platform.
//!
//! The library describes requests, decides how responses map to results or
//! errors, and drives pagination and retries as state machines. Sending bytes
//! over the network is left to the transport that runs those machines.
mod client;
mod config;
mod error;
mod pagination;
mod request;
mod retry;
mod timestamp;

pub use client::backfill::BackfillStatus;
pub use client::coupons::CouponListParams;
pub use client::customers::{
    resolve_customer, CostViewMode, CustomerCostParams, CustomerId, CustomerResponse, EntryStatus,
    PaymentProvider, VoidReason,
};
pub use client::events::IngestionMode;
pub use client::invoices::{InvoiceListParams, InvoiceStatusFilter};
pub use client::plans::{PlanId, PlanListParams};
pub use client::subscriptions::{
    SubscriptionListParams, SubscriptionPlanChangeOption, SubscriptionStatus,
};
pub use client::taxes::TaxIdType;
pub use config::{ClientConfig, ListParams, DEFAULT_ENDPOINT, DEFAULT_PAGE_SIZE};
pub use error::{api_error, error_for_status, is_success, ApiError, Error, ErrorBody, TransportError};
pub use pagination::{PageStep, Paginator};
pub use request::{ApiRequest, Method, RequestView};
pub use retry::{classify, AttemptOutcome, RetryAction, RetryPolicy, RetryTracker, Retryability};
pub use timestamp::Timestamp;
