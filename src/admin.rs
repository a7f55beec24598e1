//! The administrator's actions: creating the configuration, granting roles,
//! and the configuration setters.

use vstd::prelude::*;

use crate::constants::MAX_BPS;
use crate::contexts::{takes_effect, AdminUpdate, InitializeProtocol, SetRole};
use crate::errors::ErrorCode;
use crate::helpers::{is_valid_role, valid_role};
use crate::keys::{zero_bytes, Pubkey};
use crate::state::{ProtocolConfig, RoleAssignment};

verus! {

/// The caller is the configuration's administrator.
pub open spec fn is_admin(config: ProtocolConfig, caller: Pubkey) -> bool {
    config.admin@ == caller@
}

/// What creating the configuration does: the slot must be free, the fee at
/// most 10000 bps (`InvalidBps`), the minimum confidence at most 10000 and the
/// smoothing factor in (0, 10000] (`InvalidConfidence`), and the settlement
/// asset non-default when it is enforced (`InvalidAddress`); then the slot
/// holds a running configuration administered by the caller.
pub open spec fn initialize_protocol_result(
    ctx: InitializeProtocol,
    settlement_mint: Pubkey,
    settlement_vault: Pubkey,
    protocol_treasury_token_account: Pubkey,
    protocol_fee_bps: u16,
    min_confidence_bps: u16,
    score_alpha_bps: u16,
    max_signal_age: i64,
    require_verified_for_score: bool,
    enforce_settlement_token: bool,
) -> Result<InitializeProtocol, ErrorCode> {
    if ctx.protocol_config is Some {
        Err(ErrorCode::AccountAlreadyInitialized)
    } else if protocol_fee_bps > MAX_BPS {
        Err(ErrorCode::InvalidBps)
    } else if min_confidence_bps > MAX_BPS {
        Err(ErrorCode::InvalidConfidence)
    } else if !(0 < score_alpha_bps <= MAX_BPS) {
        Err(ErrorCode::InvalidConfidence)
    } else if enforce_settlement_token && zero_bytes(settlement_mint@) {
        Err(ErrorCode::InvalidAddress)
    } else {
        Ok(
            InitializeProtocol {
                protocol_config: Some(
                    ProtocolConfig {
                        admin: ctx.admin,
                        settlement_mint,
                        settlement_vault,
                        protocol_treasury_token_account,
                        protocol_fee_bps,
                        min_confidence_bps,
                        score_alpha_bps,
                        max_signal_age,
                        require_verified_for_score,
                        enforce_settlement_token,
                        paused: false,
                        vault_authority_bump: ctx.vault_authority_bump,
                        bump: ctx.protocol_config_bump,
                    },
                ),
                ..ctx
            },
        )
    }
}

/// What granting a role does: the caller must be the administrator, the role
/// kind recognized and the member non-default; then the assignment slot of
/// (role, member) holds the new flag and time.
pub open spec fn set_role_result(ctx: SetRole, role: u8, active: bool, now: i64) -> Result<
    SetRole,
    ErrorCode,
> {
    if !is_admin(ctx.protocol_config, ctx.admin) {
        Err(ErrorCode::Unauthorized)
    } else if !valid_role(role) {
        Err(ErrorCode::InvalidRole)
    } else if zero_bytes(ctx.member@) {
        Err(ErrorCode::InvalidAddress)
    } else {
        Ok(
            SetRole {
                role_assignment: Some(
                    RoleAssignment {
                        member: ctx.member,
                        role,
                        active,
                        updated_at: now,
                        bump: ctx.role_assignment_bump,
                    },
                ),
                ..ctx
            },
        )
    }
}

/// What an administrator's update does: with an administrator as caller and
/// no error from `error`, the configuration becomes `next`.
pub open spec fn admin_result(
    ctx: AdminUpdate,
    error: Option<ErrorCode>,
    next: ProtocolConfig,
) -> Result<AdminUpdate, ErrorCode> {
    if !is_admin(ctx.protocol_config, ctx.admin) {
        Err(ErrorCode::Unauthorized)
    } else if error is Some {
        Err(error->Some_0)
    } else {
        Ok(AdminUpdate { protocol_config: next, ..ctx })
    }
}

/// Fails with `Unauthorized` unless the caller is the administrator.
fn require_admin(ctx: &AdminUpdate) -> (r: Result<(), ErrorCode>)
    ensures
        r is Ok <==> is_admin(ctx.protocol_config, ctx.admin),
        r is Err ==> r == Err::<(), ErrorCode>(ErrorCode::Unauthorized),
{
    if ctx.protocol_config.admin == ctx.admin {
        Ok(())
    } else {
        Err(ErrorCode::Unauthorized)
    }
}

/// Creates the protocol configuration, administered by the caller and
/// running. The fee must be at most 10000 bps, the minimum confidence at most
/// 10000, the smoothing factor in (0, 10000], and an enforced settlement asset
/// non-default.
#[allow(clippy::too_many_arguments)]
pub fn initialize_protocol(
    ctx: &mut InitializeProtocol,
    settlement_mint: Pubkey,
    settlement_vault: Pubkey,
    protocol_treasury_token_account: Pubkey,
    protocol_fee_bps: u16,
    min_confidence_bps: u16,
    score_alpha_bps: u16,
    max_signal_age: i64,
    require_verified_for_score: bool,
    enforce_settlement_token: bool,
) -> (r: Result<(), ErrorCode>)
    ensures
        takes_effect(
            initialize_protocol_result(
                *old(ctx),
                settlement_mint,
                settlement_vault,
                protocol_treasury_token_account,
                protocol_fee_bps,
                min_confidence_bps,
                score_alpha_bps,
                max_signal_age,
                require_verified_for_score,
                enforce_settlement_token,
            ),
            *old(ctx),
            r,
            *final(ctx),
        ),
        r is Ok ==> (final(ctx).protocol_config matches Some(c) && c.wf()),
{
    if ctx.protocol_config.is_some() {
        return Err(ErrorCode::AccountAlreadyInitialized);
    }
    if protocol_fee_bps > MAX_BPS {
        return Err(ErrorCode::InvalidBps);
    }
    if min_confidence_bps > MAX_BPS {
        return Err(ErrorCode::InvalidConfidence);
    }
    if !(score_alpha_bps > 0 && score_alpha_bps <= MAX_BPS) {
        return Err(ErrorCode::InvalidConfidence);
    }
    if enforce_settlement_token && settlement_mint.is_default() {
        return Err(ErrorCode::InvalidAddress);
    }
    ctx.protocol_config = Some(
        ProtocolConfig {
            admin: ctx.admin,
            settlement_mint,
            settlement_vault,
            protocol_treasury_token_account,
            protocol_fee_bps,
            min_confidence_bps,
            score_alpha_bps,
            max_signal_age,
            require_verified_for_score,
            enforce_settlement_token,
            paused: false,
            vault_authority_bump: ctx.vault_authority_bump,
            bump: ctx.protocol_config_bump,
        },
    );
    Ok(())
}

/// Grants (`active`) or revokes a role of a member. Only the administrator
/// may; the role kind must be recognized (`InvalidRole`) and the member
/// non-default (`InvalidAddress`). Creates the assignment or overwrites it.
pub fn set_role(ctx: &mut SetRole, role: u8, active: bool, now: i64) -> (r: Result<
    (),
    ErrorCode,
>)
    ensures
        takes_effect(set_role_result(*old(ctx), role, active, now), *old(ctx), r, *final(ctx)),
{
    if !(ctx.protocol_config.admin == ctx.admin) {
        return Err(ErrorCode::Unauthorized);
    }
    if !is_valid_role(role) {
        return Err(ErrorCode::InvalidRole);
    }
    if ctx.member.is_default() {
        return Err(ErrorCode::InvalidAddress);
    }
    ctx.role_assignment = Some(
        RoleAssignment {
            member: ctx.member,
            role,
            active,
            updated_at: now,
            bump: ctx.role_assignment_bump,
        },
    );
    Ok(())
}

/// Sets the protocol fee, at most 10000 bps.
pub fn set_protocol_fee(ctx: &mut AdminUpdate, protocol_fee_bps: u16) -> (r: Result<
    (),
    ErrorCode,
>)
    ensures
        takes_effect(
            admin_result(
                *old(ctx),
                if protocol_fee_bps > MAX_BPS {
                    Some(ErrorCode::InvalidBps)
                } else {
                    None
                },
                ProtocolConfig { protocol_fee_bps, ..old(ctx).protocol_config },
            ),
            *old(ctx),
            r,
            *final(ctx),
        ),
        old(ctx).protocol_config.wf() ==> final(ctx).protocol_config.wf(),
{
    require_admin(ctx)?;
    if protocol_fee_bps > MAX_BPS {
        return Err(ErrorCode::InvalidBps);
    }
    ctx.protocol_config.protocol_fee_bps = protocol_fee_bps;
    Ok(())
}

/// Sets the settlement asset and whether it is enforced; an enforced asset
/// must be non-default.
pub fn set_settlement_token(
    ctx: &mut AdminUpdate,
    settlement_mint: Pubkey,
    enforce_settlement_token: bool,
) -> (r: Result<(), ErrorCode>)
    ensures
        takes_effect(
            admin_result(
                *old(ctx),
                if enforce_settlement_token && zero_bytes(settlement_mint@) {
                    Some(ErrorCode::InvalidAddress)
                } else {
                    None
                },
                ProtocolConfig {
                    settlement_mint,
                    enforce_settlement_token,
                    ..old(ctx).protocol_config
                },
            ),
            *old(ctx),
            r,
            *final(ctx),
        ),
        old(ctx).protocol_config.wf() ==> final(ctx).protocol_config.wf(),
{
    require_admin(ctx)?;
    if enforce_settlement_token && settlement_mint.is_default() {
        return Err(ErrorCode::InvalidAddress);
    }
    ctx.protocol_config.settlement_mint = settlement_mint;
    ctx.protocol_config.enforce_settlement_token = enforce_settlement_token;
    Ok(())
}

/// Sets the settlement source account, which must be non-default.
pub fn set_settlement_vault(ctx: &mut AdminUpdate, settlement_vault: Pubkey) -> (r: Result<
    (),
    ErrorCode,
>)
    ensures
        takes_effect(
            admin_result(
                *old(ctx),
                if zero_bytes(settlement_vault@) {
                    Some(ErrorCode::InvalidAddress)
                } else {
                    None
                },
                ProtocolConfig { settlement_vault, ..old(ctx).protocol_config },
            ),
            *old(ctx),
            r,
            *final(ctx),
        ),
        old(ctx).protocol_config.wf() ==> final(ctx).protocol_config.wf(),
{
    require_admin(ctx)?;
    if settlement_vault.is_default() {
        return Err(ErrorCode::InvalidAddress);
    }
    ctx.protocol_config.settlement_vault = settlement_vault;
    Ok(())
}

/// Sets the treasury destination account, which must be non-default.
pub fn set_protocol_treasury(
    ctx: &mut AdminUpdate,
    protocol_treasury_token_account: Pubkey,
) -> (r: Result<(), ErrorCode>)
    ensures
        takes_effect(
            admin_result(
                *old(ctx),
                if zero_bytes(protocol_treasury_token_account@) {
                    Some(ErrorCode::InvalidAddress)
                } else {
                    None
                },
                ProtocolConfig { protocol_treasury_token_account, ..old(ctx).protocol_config },
            ),
            *old(ctx),
            r,
            *final(ctx),
        ),
        old(ctx).protocol_config.wf() ==> final(ctx).protocol_config.wf(),
{
    require_admin(ctx)?;
    if protocol_treasury_token_account.is_default() {
        return Err(ErrorCode::InvalidAddress);
    }
    ctx.protocol_config.protocol_treasury_token_account = protocol_treasury_token_account;
    Ok(())
}

/// Sets the scoring parameters: the minimum confidence, at most 10000; the
/// smoothing factor, in (0, 10000]; the maximum signal age (0 for none).
pub fn set_score_config(
    ctx: &mut AdminUpdate,
    min_confidence_bps: u16,
    score_alpha_bps: u16,
    max_signal_age: i64,
) -> (r: Result<(), ErrorCode>)
    ensures
        takes_effect(
            admin_result(
                *old(ctx),
                if min_confidence_bps > MAX_BPS || !(0 < score_alpha_bps <= MAX_BPS) {
                    Some(ErrorCode::InvalidConfidence)
                } else {
                    None
                },
                ProtocolConfig {
                    min_confidence_bps,
                    score_alpha_bps,
                    max_signal_age,
                    ..old(ctx).protocol_config
                },
            ),
            *old(ctx),
            r,
            *final(ctx),
        ),
        old(ctx).protocol_config.wf() ==> final(ctx).protocol_config.wf(),
{
    require_admin(ctx)?;
    if min_confidence_bps > MAX_BPS {
        return Err(ErrorCode::InvalidConfidence);
    }
    if !(score_alpha_bps > 0 && score_alpha_bps <= MAX_BPS) {
        return Err(ErrorCode::InvalidConfidence);
    }
    ctx.protocol_config.min_confidence_bps = min_confidence_bps;
    ctx.protocol_config.score_alpha_bps = score_alpha_bps;
    ctx.protocol_config.max_signal_age = max_signal_age;
    Ok(())
}

/// Sets whether scoring requires a verified agent.
pub fn set_require_verified_for_score(
    ctx: &mut AdminUpdate,
    require_verified_for_score: bool,
) -> (r: Result<(), ErrorCode>)
    ensures
        takes_effect(
            admin_result(
                *old(ctx),
                None,
                ProtocolConfig { require_verified_for_score, ..old(ctx).protocol_config },
            ),
            *old(ctx),
            r,
            *final(ctx),
        ),
        old(ctx).protocol_config.wf() ==> final(ctx).protocol_config.wf(),
{
    require_admin(ctx)?;
    ctx.protocol_config.require_verified_for_score = require_verified_for_score;
    Ok(())
}

/// Pauses or resumes the protocol.
pub fn set_paused(ctx: &mut AdminUpdate, paused: bool) -> (r: Result<(), ErrorCode>)
    ensures
        takes_effect(
            admin_result(*old(ctx), None, ProtocolConfig { paused, ..old(ctx).protocol_config }),
            *old(ctx),
            r,
            *final(ctx),
        ),
        old(ctx).protocol_config.wf() ==> final(ctx).protocol_config.wf(),
{
    require_admin(ctx)?;
    ctx.protocol_config.paused = paused;
    Ok(())
}

} // verus!
