//! Verified core of the AeroXe broadband ISP backend: cache keys, event
//! subjects and envelopes, the circuit breaker, RBAC permission checks,
//! WebSocket channel routing, error-to-status mapping, and the decisions
//! that the HTTP handlers, NATS subscribers and workers act on.
pub mod text;
pub mod cache;
pub mod circuit_breaker;
pub mod error;
pub mod rbac;
pub mod websocket;
pub mod messaging;
pub mod supervisor;
pub mod events;
pub mod sql;
pub mod outbox;
pub mod database;
pub mod auth;
pub mod http;
pub mod storage;
pub mod workers;
pub mod metrics;
pub mod docs;
