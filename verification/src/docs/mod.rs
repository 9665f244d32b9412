//! Request and response shapes of the HTTP API, module by module, and the
//! API description type.
use vstd::prelude::*;

pub mod accounting;
pub mod admin;
pub mod audit;
pub mod auth;
pub mod bandwidth;
pub mod billing;
pub mod branches;
pub mod compliance;
pub mod coverage;
pub mod customers;
pub mod devices;
pub mod discovery;
pub mod documents;
pub mod gateway;
pub mod installations;
pub mod inventory;
pub mod leads;
pub mod monitoring;
pub mod network;
pub mod notifications;
pub mod payments;
pub mod plans;
pub mod referrals;
pub mod scheduler;
pub mod security;
pub mod subscriptions;
pub mod tickets;
pub mod workflow;
pub mod common;

verus! {

/// The API description; its OpenAPI document is generated from the HTTP
/// handlers and these shapes.
pub struct ApiDoc;

} // verus!
