//! The resources of the API and the requests that reach them.
pub mod backfill;
pub mod coupons;
pub mod customers;
pub mod events;
pub mod invoices;
pub mod plans;
pub mod subscriptions;
pub mod taxes;
