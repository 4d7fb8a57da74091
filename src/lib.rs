//! Announces first-time contributors and published releases of one
//! repository, without announcing anything twice.
//!
//! The ledger of known contributors, the classifier that turns activity into
//! announcements, the step of the poll loop, and the rate window and retry
//! policy of the outbound posts are verified; the network calls around them
//! are left to the caller.

/// Activity records and what they announce.
pub mod classify;
/// Configuration values and their checks.
pub mod config;
/// Errors met while talking to the outside services.
pub mod error;
/// The identities already announced.
pub mod ledger;
/// One step of the poll loop.
pub mod poll;
/// The text of each post.
pub mod post;
/// Retrying a post.
pub mod retry;
/// Comparing texts.
pub mod text;
/// Bounding how many posts go out per window of time.
pub mod throttle;
/// Webhook payloads.
pub mod types;
/// Deliveries to the webhook, as activity.
pub mod webhook;
