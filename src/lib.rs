//! Accounting and state-transition engine for a registry of autonomous
//! trading agents: role-gated authorization, the verification workflow,
//! reputation scoring from oracle scores, and revenue settlement.
//!
//! Each action takes a context holding the records it reads and writes as
//! plain values, and returns `Ok` with the records updated or the named error
//! with the records unchanged. What each action does is stated as a spec
//! function of its inputs; the properties that relate actions are proved in
//! `laws`.

pub mod admin;
pub mod constants;
pub mod contexts;
pub mod errors;
pub mod helpers;
pub mod identity;
pub mod keys;
pub mod laws;
pub mod reputation;
pub mod revenue;
pub mod state;
pub mod verification;
