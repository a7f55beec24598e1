//! The verification workflow: an owner's request, an operator's decision.

use vstd::prelude::*;

use crate::constants::{
    ROLE_VERIFICATION_OPERATOR, STATUS_PENDING, STATUS_REJECTED, STATUS_SUSPENDED, STATUS_VERIFIED,
};
use crate::contexts::{takes_effect, RequestVerification, SetVerificationStatus};
use crate::errors::ErrorCode;
use crate::helpers::{assert_role, holds_role, require_not_paused};
use crate::keys::{default_key, is_zero_hash, zero_bytes, Pubkey};
use crate::state::VerificationRecord;

verus! {

/// A status an operator may set: verified, rejected or suspended.
pub open spec fn decision_status(status: u8) -> bool {
    status == STATUS_VERIFIED || status == STATUS_REJECTED || status == STATUS_SUSPENDED
}

/// What requesting verification does: the caller must own the agent, the
/// protocol be running and the request hash non-zero; then the record is
/// pending, with no operator and no expiry, the request hash as evidence.
pub open spec fn request_result(
    ctx: RequestVerification,
    request_hash: [u8; 32],
    policy_hash: [u8; 32],
    now: i64,
) -> Result<RequestVerification, ErrorCode> {
    if ctx.agent_identity.owner@ != ctx.owner@ {
        Err(ErrorCode::Unauthorized)
    } else if ctx.protocol_config.paused {
        Err(ErrorCode::ProtocolPaused)
    } else if zero_bytes(request_hash@) {
        Err(ErrorCode::InvalidHash)
    } else {
        Ok(
            RequestVerification {
                verification_record: Some(
                    VerificationRecord {
                        agent: ctx.agent_key,
                        status: STATUS_PENDING,
                        operator: default_key(),
                        updated_at: now,
                        expires_at: 0,
                        evidence_hash: request_hash,
                        policy_hash,
                        bump: ctx.verification_record_bump,
                    },
                ),
                ..ctx
            },
        )
    }
}

/// What an operator's decision does: the protocol must be running, the
/// caller an active verification operator, the status a decision and the
/// evidence non-zero; then the record is overwritten with the decision.
pub open spec fn decision_result(
    ctx: SetVerificationStatus,
    status: u8,
    evidence_hash: [u8; 32],
    policy_hash: [u8; 32],
    expires_at: i64,
    now: i64,
) -> Result<SetVerificationStatus, ErrorCode> {
    if ctx.protocol_config.paused {
        Err(ErrorCode::ProtocolPaused)
    } else if !holds_role(ctx.role_assignment, ctx.operator, ROLE_VERIFICATION_OPERATOR) {
        Err(ErrorCode::Unauthorized)
    } else if !decision_status(status) {
        Err(ErrorCode::InvalidStatus)
    } else if zero_bytes(evidence_hash@) {
        Err(ErrorCode::InvalidHash)
    } else {
        Ok(
            SetVerificationStatus {
                verification_record: Some(
                    VerificationRecord {
                        agent: ctx.agent_key,
                        status,
                        operator: ctx.operator,
                        updated_at: now,
                        expires_at,
                        evidence_hash,
                        policy_hash,
                        bump: ctx.verification_record_bump,
                    },
                ),
                ..ctx
            },
        )
    }
}

/// Puts an agent's verification in the pending state. Callable by the
/// agent's owner while the protocol runs; the request hash must be non-zero.
pub fn request_verification(
    ctx: &mut RequestVerification,
    request_hash: [u8; 32],
    policy_hash: [u8; 32],
    now: i64,
) -> (r: Result<(), ErrorCode>)
    ensures
        takes_effect(
            request_result(*old(ctx), request_hash, policy_hash, now),
            *old(ctx),
            r,
            *final(ctx),
        ),
{
    if !(ctx.agent_identity.owner == ctx.owner) {
        return Err(ErrorCode::Unauthorized);
    }
    require_not_paused(&ctx.protocol_config)?;
    if is_zero_hash(&request_hash) {
        return Err(ErrorCode::InvalidHash);
    }
    ctx.verification_record = Some(
        VerificationRecord {
            agent: ctx.agent_key,
            status: STATUS_PENDING,
            operator: Pubkey::zero(),
            updated_at: now,
            expires_at: 0,
            evidence_hash: request_hash,
            policy_hash,
            bump: ctx.verification_record_bump,
        },
    );
    Ok(())
}

/// Records an operator's decision on an agent: verified, rejected or
/// suspended, with evidence, policy and an expiry (0 for none). Callable by
/// an active verification operator while the protocol runs; overwrites the
/// record whatever it held.
pub fn set_verification_status(
    ctx: &mut SetVerificationStatus,
    status: u8,
    evidence_hash: [u8; 32],
    policy_hash: [u8; 32],
    expires_at: i64,
    now: i64,
) -> (r: Result<(), ErrorCode>)
    ensures
        takes_effect(
            decision_result(*old(ctx), status, evidence_hash, policy_hash, expires_at, now),
            *old(ctx),
            r,
            *final(ctx),
        ),
{
    require_not_paused(&ctx.protocol_config)?;
    assert_role(&ctx.role_assignment, ctx.operator, ROLE_VERIFICATION_OPERATOR)?;
    if !(status == STATUS_VERIFIED || status == STATUS_REJECTED || status == STATUS_SUSPENDED) {
        return Err(ErrorCode::InvalidStatus);
    }
    if is_zero_hash(&evidence_hash) {
        return Err(ErrorCode::InvalidHash);
    }
    ctx.verification_record = Some(
        VerificationRecord {
            agent: ctx.agent_key,
            status,
            operator: ctx.operator,
            updated_at: now,
            expires_at,
            evidence_hash,
            policy_hash,
            bump: ctx.verification_record_bump,
        },
    );
    Ok(())
}

} // verus!
