//! Fixed values of the protocol: role kinds, verification statuses and limits.

use vstd::prelude::*;

verus! {

/// Role kind of an operator who decides verification requests.
pub const ROLE_VERIFICATION_OPERATOR: u8 = 1;

/// Role kind of an oracle that scores trade signals.
pub const ROLE_ORACLE: u8 = 2;

/// Role kind of a reporter that submits trade signals.
pub const ROLE_SIGNALER: u8 = 3;

/// Role kind of an operator who distributes settlements.
pub const ROLE_REVENUE_OPERATOR: u8 = 4;

/// Verification status of an agent that never asked for verification.
pub const STATUS_NONE: u8 = 0;

/// Verification status of an agent whose request awaits a decision.
pub const STATUS_PENDING: u8 = 1;

/// Verification status of a verified agent.
pub const STATUS_VERIFIED: u8 = 2;

/// Verification status of a rejected agent.
pub const STATUS_REJECTED: u8 = 3;

/// Verification status of a suspended agent.
pub const STATUS_SUSPENDED: u8 = 4;

/// One hundred percent, in basis points.
pub const MAX_BPS: u16 = 10_000;

/// The longest agent URI, in bytes.
pub const MAX_URI_LEN: usize = 256;

} // verus!
