//! The checks that every action is built from.

use vstd::prelude::*;

use crate::constants::{
    MAX_BPS, ROLE_ORACLE, ROLE_REVENUE_OPERATOR, ROLE_SIGNALER, ROLE_VERIFICATION_OPERATOR,
    STATUS_VERIFIED,
};
use crate::errors::ErrorCode;
use crate::keys::{zero_bytes, Pubkey};
use crate::state::{ProtocolConfig, RoleAssignment, VerificationRecord};

verus! {

/// `role` is one of the four recognized role kinds.
pub open spec fn valid_role(role: u8) -> bool {
    role == ROLE_VERIFICATION_OPERATOR || role == ROLE_ORACLE || role == ROLE_SIGNALER
        || role == ROLE_REVENUE_OPERATOR
}

/// The record grants verified status at time `now`: its status is verified
/// and it never expires or has not expired yet.
pub open spec fn verified_at(record: VerificationRecord, now: i64) -> bool {
    record.status == STATUS_VERIFIED && (record.expires_at == 0 || record.expires_at >= now)
}

/// The assignment lets `signer` act in role `role`.
pub open spec fn holds_role(assignment: RoleAssignment, signer: Pubkey, role: u8) -> bool {
    assignment.active && assignment.role == role && assignment.member@ == signer@
}

/// Succeeds when `cond` holds, else fails with `e`.
pub open spec fn check(cond: bool, e: ErrorCode) -> Result<(), ErrorCode> {
    if cond {
        Ok(())
    } else {
        Err(e)
    }
}

/// What checking a split gives: the shares must sum to at most one hundred
/// percent, then each party with a share must have a non-default key.
pub open spec fn split_check(
    platform: Pubkey,
    platform_bps: u16,
    referrer: Pubkey,
    referrer_bps: u16,
    reserve_vault: Pubkey,
    reserve_bps: u16,
) -> Result<(), ErrorCode> {
    if platform_bps + referrer_bps + reserve_bps > MAX_BPS {
        Err(ErrorCode::InvalidBps)
    } else if platform_bps > 0 && zero_bytes(platform@) {
        Err(ErrorCode::InvalidAddress)
    } else if referrer_bps > 0 && zero_bytes(referrer@) {
        Err(ErrorCode::InvalidAddress)
    } else if reserve_bps > 0 && zero_bytes(reserve_vault@) {
        Err(ErrorCode::InvalidAddress)
    } else {
        Ok(())
    }
}

/// Whether `role` is one of the four recognized role kinds.
pub fn is_valid_role(role: u8) -> (r: bool)
    ensures
        r == valid_role(role),
{
    role == ROLE_VERIFICATION_OPERATOR || role == ROLE_ORACLE || role == ROLE_SIGNALER
        || role == ROLE_REVENUE_OPERATOR
}

/// Whether the record grants verified status at time `now`. This, not the
/// stored status alone, is the trust check used everywhere.
pub fn is_verified(record: &VerificationRecord, now: i64) -> (r: bool)
    ensures
        r == verified_at(*record, now),
{
    if record.status != STATUS_VERIFIED {
        return false;
    }
    if record.expires_at == 0 {
        return true;
    }
    record.expires_at >= now
}

/// Fails with `ProtocolPaused` while the protocol is paused.
pub fn require_not_paused(config: &ProtocolConfig) -> (r: Result<(), ErrorCode>)
    ensures
        r == check(!config.paused, ErrorCode::ProtocolPaused),
{
    if config.paused {
        Err(ErrorCode::ProtocolPaused)
    } else {
        Ok(())
    }
}

/// Fails with `Unauthorized` unless the assignment is active, of kind `role`,
/// and held by `signer`.
pub fn assert_role(assignment: &RoleAssignment, signer: Pubkey, role: u8) -> (r: Result<
    (),
    ErrorCode,
>)
    ensures
        r == check(holds_role(*assignment, signer, role), ErrorCode::Unauthorized),
{
    if !assignment.active || assignment.role != role || !(assignment.member == signer) {
        return Err(ErrorCode::Unauthorized);
    }
    Ok(())
}

/// Checks a revenue split: the shares must sum to at most 10000 bps
/// (`InvalidBps`), and each party with a share must have a non-default key
/// (`InvalidAddress`).
pub fn validate_split(
    platform: Pubkey,
    platform_bps: u16,
    referrer: Pubkey,
    referrer_bps: u16,
    reserve_vault: Pubkey,
    reserve_bps: u16,
) -> (r: Result<(), ErrorCode>)
    ensures
        r == split_check(platform, platform_bps, referrer, referrer_bps, reserve_vault, reserve_bps),
{
    let total: u32 = platform_bps as u32 + referrer_bps as u32 + reserve_bps as u32;
    if total > MAX_BPS as u32 {
        return Err(ErrorCode::InvalidBps);
    }
    if platform_bps > 0 && platform.is_default() {
        return Err(ErrorCode::InvalidAddress);
    }
    if referrer_bps > 0 && referrer.is_default() {
        return Err(ErrorCode::InvalidAddress);
    }
    if reserve_bps > 0 && reserve_vault.is_default() {
        return Err(ErrorCode::InvalidAddress);
    }
    Ok(())
}

} // verus!
