//! Core rules of a ledger-backed prepaid/postpaid purchase service: PIN
//! checks, provider request signing, provider reply classification, the
//! purchase saga with its compensating reversal, and the push notification
//! fan-out policy.
pub mod pin;
pub mod text;
pub mod error;
pub mod models;
pub mod provider;
pub mod catalog;
pub mod saga;
pub mod runs;
pub mod dispatch;
pub mod api;
