//! Revenue splits and the settlement engine.

use vstd::prelude::*;

use crate::constants::{MAX_BPS, ROLE_REVENUE_OPERATOR};
use crate::contexts::{takes_effect, DistributeSettlement, SetSplit, TokenAccountInfo};
use crate::errors::ErrorCode;
use crate::helpers::{
    assert_role, holds_role, require_not_paused, split_check, validate_split,
};
use crate::keys::{zero_bytes, Pubkey};
use crate::state::{DistributionReceipt, RevenueSplitConfig};

verus! {

/// Who a settlement transfer pays.
#[derive(Clone, Copy, Debug, PartialEq, Eq, Structural)]
pub enum Payee {
    Platform,
    Referrer,
    Reserve,
    ProtocolTreasury,
    Agent,
}

/// One transfer out of the settlement source.
#[derive(Clone, Copy, Debug, PartialEq, Eq, Structural)]
pub struct Payout {
    pub payee: Payee,
    pub amount: u64,
}

/// How one settled amount is partitioned among the five recipients.
#[derive(Clone, Copy, Debug, PartialEq, Eq, Structural)]
pub struct SettlementPlan {
    pub platform_amount: u64,
    pub referrer_amount: u64,
    pub reserve_amount: u64,
    pub protocol_amount: u64,
    pub agent_amount: u64,
}

/// `bps` basis points of `amount`, rounded down.
pub open spec fn share(amount: u64, bps: u16) -> int {
    (amount as int * bps as int) / 10000
}

/// The partition of `amount`: each share computed from the whole amount and
/// rounded down, and what remains to the agent.
pub open spec fn plan_for(amount: u64, split: RevenueSplitConfig, fee_bps: u16) -> SettlementPlan {
    let p = share(amount, split.platform_bps);
    let r = share(amount, split.referrer_bps);
    let s = share(amount, split.reserve_bps);
    let f = share(amount, fee_bps);
    SettlementPlan {
        platform_amount: p as u64,
        referrer_amount: r as u64,
        reserve_amount: s as u64,
        protocol_amount: f as u64,
        agent_amount: (amount - p - r - s - f) as u64,
    }
}

/// The sum of the five amounts of a plan.
pub open spec fn plan_total(plan: SettlementPlan) -> int {
    plan.platform_amount + plan.referrer_amount + plan.reserve_amount + plan.protocol_amount
        + plan.agent_amount
}

/// The transfer for one payee, or none when its amount is zero.
pub open spec fn payout_of(payee: Payee, amount: u64) -> Seq<Payout> {
    if amount == 0 {
        Seq::empty()
    } else {
        seq![Payout { payee, amount }]
    }
}

/// The transfers a plan makes, in the fixed order platform, referrer,
/// reserve, protocol treasury, agent, leaving out zero amounts.
pub open spec fn payouts_of(plan: SettlementPlan) -> Seq<Payout> {
    payout_of(Payee::Platform, plan.platform_amount) + payout_of(
        Payee::Referrer,
        plan.referrer_amount,
    ) + payout_of(Payee::Reserve, plan.reserve_amount) + payout_of(
        Payee::ProtocolTreasury,
        plan.protocol_amount,
    ) + payout_of(Payee::Agent, plan.agent_amount)
}

impl SettlementPlan {
    /// The transfers to perform, in order, zero amounts left out.
    pub fn payouts(&self) -> (r: Vec<Payout>)
        ensures
            r@ == payouts_of(*self),
    {
        let mut v: Vec<Payout> = Vec::new();
        if self.platform_amount > 0 {
            v.push(Payout { payee: Payee::Platform, amount: self.platform_amount });
        }
        if self.referrer_amount > 0 {
            v.push(Payout { payee: Payee::Referrer, amount: self.referrer_amount });
        }
        if self.reserve_amount > 0 {
            v.push(Payout { payee: Payee::Reserve, amount: self.reserve_amount });
        }
        if self.protocol_amount > 0 {
            v.push(Payout { payee: Payee::ProtocolTreasury, amount: self.protocol_amount });
        }
        if self.agent_amount > 0 {
            v.push(Payout { payee: Payee::Agent, amount: self.agent_amount });
        }
        assert(v@ =~= payouts_of(*self));
        v
    }
}

/// A destination that receives a share must belong to `party` and hold the
/// settlement asset; one that receives none is not checked.
pub open spec fn destination_check(
    bps: u16,
    account: TokenAccountInfo,
    party: Pubkey,
    asset: Pubkey,
) -> Result<(), ErrorCode> {
    if bps > 0 && account.owner@ != party@ {
        Err(ErrorCode::InvalidTokenAccountOwner)
    } else if bps > 0 && account.mint@ != asset@ {
        Err(ErrorCode::InvalidTokenMint)
    } else {
        Ok(())
    }
}

/// The checks of a settlement that come before its basis-point check, in
/// their order: the protocol running, the caller an active revenue operator, the reference non-zero and the amount
/// positive; then the accounts must be the configured ones with matching
/// custodians and assets.
pub open spec fn binding_check(
    ctx: DistributeSettlement,
    reference: [u8; 32],
    amount: u64,
) -> Result<(), ErrorCode> {
    let cfg = ctx.protocol_config;
    let split = ctx.split_config;
    let vault = ctx.settlement_vault;
    let asset = vault.mint;
    let treasury = ctx.protocol_treasury_token_account;
    if cfg.paused {
        Err(ErrorCode::ProtocolPaused)
    } else if !holds_role(ctx.role_assignment, ctx.operator, ROLE_REVENUE_OPERATOR) {
        Err(ErrorCode::Unauthorized)
    } else if zero_bytes(reference@) {
        Err(ErrorCode::InvalidHash)
    } else if amount == 0 {
        Err(ErrorCode::InvalidAmount)
    } else if vault.key@ != cfg.settlement_vault@ {
        Err(ErrorCode::InvalidSettlementVault)
    } else if treasury.key@ != cfg.protocol_treasury_token_account@ {
        Err(ErrorCode::InvalidTreasuryAccount)
    } else if cfg.enforce_settlement_token && asset@ != cfg.settlement_mint@ {
        Err(ErrorCode::SettlementTokenMismatch)
    } else if vault.owner@ != ctx.vault_authority@ {
        Err(ErrorCode::InvalidTokenAccountOwner)
    } else if ctx.agent_token_account.owner@ != ctx.agent_identity.agent_wallet@ {
        Err(ErrorCode::InvalidTokenAccountOwner)
    } else if ctx.agent_token_account.mint@ != asset@ {
        Err(ErrorCode::InvalidTokenMint)
    } else if destination_check(split.platform_bps, ctx.platform_token_account, split.platform, asset)
        is Err {
        destination_check(split.platform_bps, ctx.platform_token_account, split.platform, asset)
    } else if destination_check(split.referrer_bps, ctx.referrer_token_account, split.referrer, asset)
        is Err {
        destination_check(split.referrer_bps, ctx.referrer_token_account, split.referrer, asset)
    } else if destination_check(
        split.reserve_bps,
        ctx.reserve_token_account,
        split.reserve_vault,
        asset,
    ) is Err {
        destination_check(split.reserve_bps, ctx.reserve_token_account, split.reserve_vault, asset)
    } else if treasury.mint@ != asset@ {
        Err(ErrorCode::InvalidTokenMint)
    } else {
        Ok(())
    }
}

/// The shares of the split and the protocol fee together, in basis points.
pub open spec fn total_bps(split: RevenueSplitConfig, fee_bps: u16) -> int {
    split.platform_bps + split.referrer_bps + split.reserve_bps + fee_bps
}

/// All checks of a settlement: those of `binding_check`; then the shares and
/// the fee together must be at most 10000 bps; last, no receipt may exist
/// yet for the (agent, reference) key, since creating it fails on a repeat.
pub open spec fn settlement_check(
    ctx: DistributeSettlement,
    reference: [u8; 32],
    amount: u64,
) -> Result<(), ErrorCode> {
    match binding_check(ctx, reference, amount) {
        Err(e) => Err(e),
        Ok(_) => if total_bps(ctx.split_config, ctx.protocol_config.protocol_fee_bps) > MAX_BPS {
            Err(ErrorCode::InvalidBps)
        } else if ctx.distribution_receipt is Some {
            Err(ErrorCode::AccountAlreadyInitialized)
        } else {
            Ok(())
        },
    }
}

/// The receipt a successful settlement writes.
pub open spec fn receipt_for(
    ctx: DistributeSettlement,
    reference: [u8; 32],
    amount: u64,
    now: i64,
) -> DistributionReceipt {
    DistributionReceipt {
        agent: ctx.agent_key,
        reference,
        amount,
        operator: ctx.operator,
        distributed_at: now,
        bump: ctx.distribution_receipt_bump,
    }
}

/// What a settlement does: on success the receipt slot holds the new receipt
/// and the plan partitions the amount; nothing else changes.
pub open spec fn settlement_result(
    ctx: DistributeSettlement,
    reference: [u8; 32],
    amount: u64,
    now: i64,
) -> Result<(DistributeSettlement, SettlementPlan), ErrorCode> {
    match settlement_check(ctx, reference, amount) {
        Err(e) => Err(e),
        Ok(_) => Ok(
            (
                DistributeSettlement {
                    distribution_receipt: Some(receipt_for(ctx, reference, amount, now)),
                    ..ctx
                },
                plan_for(amount, ctx.split_config, ctx.protocol_config.protocol_fee_bps),
            ),
        ),
    }
}

/// What setting a split does: the caller must own the agent and the protocol
/// be running; the split must pass `split_check`; then the split slot holds
/// the new split.
pub open spec fn set_split_result(
    ctx: SetSplit,
    platform: Pubkey,
    platform_bps: u16,
    referrer: Pubkey,
    referrer_bps: u16,
    reserve_vault: Pubkey,
    reserve_bps: u16,
) -> Result<SetSplit, ErrorCode> {
    if ctx.agent_identity.owner@ != ctx.owner@ {
        Err(ErrorCode::Unauthorized)
    } else if ctx.protocol_config.paused {
        Err(ErrorCode::ProtocolPaused)
    } else {
        match split_check(platform, platform_bps, referrer, referrer_bps, reserve_vault, reserve_bps) {
            Err(e) => Err(e),
            Ok(_) => Ok(
                SetSplit {
                    split_config: Some(
                        RevenueSplitConfig {
                            agent: ctx.agent_key,
                            platform,
                            platform_bps,
                            referrer,
                            referrer_bps,
                            reserve_vault,
                            reserve_bps,
                            bump: ctx.split_config_bump,
                        },
                    ),
                    ..ctx
                },
            ),
        }
    }
}

/// A share of at most 10000 bps is at most the amount.
pub proof fn lemma_share_bounded(amount: u64, bps: u16)
    requires
        bps <= MAX_BPS,
    ensures
        0 <= share(amount, bps) <= amount,
{
    let a = amount as int;
    let b = bps as int;
    assert(0 <= a * b <= a * 10000) by (nonlinear_arith)
        requires
            0 <= a,
            0 <= b <= 10000,
    ;
    assert((a * b) / 10000 <= (a * 10000) / 10000) by (nonlinear_arith)
        requires
            0 <= a * b <= a * 10000,
    ;
    assert((a * 10000) / 10000 == a) by (nonlinear_arith);
}

/// When the shares and the fee sum to at most 10000 bps, the four rounded-down
/// shares together are at most the amount, so the plan's five amounts sum to
/// exactly the amount.
pub proof fn lemma_plan_conserves(amount: u64, split: RevenueSplitConfig, fee_bps: u16)
    requires
        split.platform_bps + split.referrer_bps + split.reserve_bps + fee_bps <= MAX_BPS,
    ensures
        share(amount, split.platform_bps) + share(amount, split.referrer_bps) + share(
            amount,
            split.reserve_bps,
        ) + share(amount, fee_bps) <= amount,
        plan_total(plan_for(amount, split, fee_bps)) == amount,
{
    let a = amount as int;
    let b1 = split.platform_bps as int;
    let b2 = split.referrer_bps as int;
    let b3 = split.reserve_bps as int;
    let b4 = fee_bps as int;
    assert(a * b1 / 10000 + a * b2 / 10000 + a * b3 / 10000 + a * b4 / 10000 <= a)
        by (nonlinear_arith)
        requires
            0 <= a,
            0 <= b1,
            0 <= b2,
            0 <= b3,
            0 <= b4,
            b1 + b2 + b3 + b4 <= 10000,
    {
        assert((a * b1 / 10000) * 10000 <= a * b1);
        assert((a * b2 / 10000) * 10000 <= a * b2);
        assert((a * b3 / 10000) * 10000 <= a * b3);
        assert((a * b4 / 10000) * 10000 <= a * b4);
        assert(a * b1 + a * b2 + a * b3 + a * b4 == a * (b1 + b2 + b3 + b4));
        assert(a * (b1 + b2 + b3 + b4) <= a * 10000);
    }
    lemma_share_bounded(amount, split.platform_bps);
    lemma_share_bounded(amount, split.referrer_bps);
    lemma_share_bounded(amount, split.reserve_bps);
    lemma_share_bounded(amount, fee_bps);
}

/// `bps` basis points of `amount`, rounded down, computed in 128 bits.
fn share_of(amount: u64, bps: u16) -> (r: u64)
    requires
        bps <= MAX_BPS,
    ensures
        r == share(amount, bps),
{
    proof {
        lemma_share_bounded(amount, bps);
        assert(amount as int * bps as int <= 0xffff_ffff_ffff_ffffu64 as int * 0xffffu16 as int)
            by (nonlinear_arith)
            requires
                0 <= amount as int,
                0 <= bps as int <= 0xffff,
                amount as int <= 0xffff_ffff_ffff_ffffu64 as int,
        ;
    }
    let product: u128 = amount as u128 * bps as u128;
    (product / (MAX_BPS as u128)) as u64
}

/// Fails unless a destination with a share belongs to `party` and holds `asset`.
fn check_destination(bps: u16, account: &TokenAccountInfo, party: Pubkey, asset: Pubkey) -> (r:
    Result<(), ErrorCode>)
    ensures
        r == destination_check(bps, *account, party, asset),
{
    if bps > 0 {
        if !(account.owner == party) {
            return Err(ErrorCode::InvalidTokenAccountOwner);
        }
        if !(account.mint == asset) {
            return Err(ErrorCode::InvalidTokenMint);
        }
    }
    Ok(())
}

/// Checks a settlement against `settlement_check` and partitions the amount.
fn check_settlement(ctx: &DistributeSettlement, reference: &[u8; 32], amount: u64) -> (r: Result<
    SettlementPlan,
    ErrorCode,
>)
    ensures
        match settlement_check(*ctx, *reference, amount) {
            Ok(_) => r == Ok::<SettlementPlan, ErrorCode>(
                plan_for(amount, ctx.split_config, ctx.protocol_config.protocol_fee_bps),
            ),
            Err(e) => r == Err::<SettlementPlan, ErrorCode>(e),
        },
{
    if let Err(e) = require_not_paused(&ctx.protocol_config) {
        return Err(e);
    }
    if let Err(e) = assert_role(&ctx.role_assignment, ctx.operator, ROLE_REVENUE_OPERATOR) {
        return Err(e);
    }
    if crate::keys::is_zero_hash(reference) {
        return Err(ErrorCode::InvalidHash);
    }
    if amount == 0 {
        return Err(ErrorCode::InvalidAmount);
    }
    let protocol = &ctx.protocol_config;
    let split = &ctx.split_config;
    let asset = ctx.settlement_vault.mint;
    if !(ctx.settlement_vault.key == protocol.settlement_vault) {
        return Err(ErrorCode::InvalidSettlementVault);
    }
    if !(ctx.protocol_treasury_token_account.key == protocol.protocol_treasury_token_account) {
        return Err(ErrorCode::InvalidTreasuryAccount);
    }
    if protocol.enforce_settlement_token && !(asset == protocol.settlement_mint) {
        return Err(ErrorCode::SettlementTokenMismatch);
    }
    if !(ctx.settlement_vault.owner == ctx.vault_authority) {
        return Err(ErrorCode::InvalidTokenAccountOwner);
    }
    if !(ctx.agent_token_account.owner == ctx.agent_identity.agent_wallet) {
        return Err(ErrorCode::InvalidTokenAccountOwner);
    }
    if !(ctx.agent_token_account.mint == asset) {
        return Err(ErrorCode::InvalidTokenMint);
    }
    if let Err(e) = check_destination(
        split.platform_bps,
        &ctx.platform_token_account,
        split.platform,
        asset,
    ) {
        return Err(e);
    }
    if let Err(e) = check_destination(
        split.referrer_bps,
        &ctx.referrer_token_account,
        split.referrer,
        asset,
    ) {
        return Err(e);
    }
    if let Err(e) = check_destination(
        split.reserve_bps,
        &ctx.reserve_token_account,
        split.reserve_vault,
        asset,
    ) {
        return Err(e);
    }
    if !(ctx.protocol_treasury_token_account.mint == asset) {
        return Err(ErrorCode::InvalidTokenMint);
    }
    let total_bps: u32 = split.platform_bps as u32 + split.referrer_bps as u32
        + split.reserve_bps as u32 + protocol.protocol_fee_bps as u32;
    if total_bps > MAX_BPS as u32 {
        return Err(ErrorCode::InvalidBps);
    }
    if ctx.distribution_receipt.is_some() {
        return Err(ErrorCode::AccountAlreadyInitialized);
    }
    let platform_amount = share_of(amount, split.platform_bps);
    let referrer_amount = share_of(amount, split.referrer_bps);
    let reserve_amount = share_of(amount, split.reserve_bps);
    let protocol_amount = share_of(amount, protocol.protocol_fee_bps);
    proof {
        lemma_plan_conserves(amount, *split, protocol.protocol_fee_bps);
    }
    let agent_amount = amount - platform_amount - referrer_amount - reserve_amount
        - protocol_amount;
    Ok(
        SettlementPlan {
            platform_amount,
            referrer_amount,
            reserve_amount,
            protocol_amount,
            agent_amount,
        },
    )
}

/// Sets an agent's revenue split. Callable by the agent's owner while the
/// protocol runs; the shares must sum to at most 10000 bps and each party
/// with a share must have a non-default key. Creates or overwrites the split.
pub fn set_split(
    ctx: &mut SetSplit,
    platform: Pubkey,
    platform_bps: u16,
    referrer: Pubkey,
    referrer_bps: u16,
    reserve_vault: Pubkey,
    reserve_bps: u16,
) -> (r: Result<(), ErrorCode>)
    ensures
        takes_effect(
            set_split_result(
                *old(ctx),
                platform,
                platform_bps,
                referrer,
                referrer_bps,
                reserve_vault,
                reserve_bps,
            ),
            *old(ctx),
            r,
            *final(ctx),
        ),
{
    if !(ctx.agent_identity.owner == ctx.owner) {
        return Err(ErrorCode::Unauthorized);
    }
    require_not_paused(&ctx.protocol_config)?;
    validate_split(platform, platform_bps, referrer, referrer_bps, reserve_vault, reserve_bps)?;
    ctx.split_config = Some(
        RevenueSplitConfig {
            agent: ctx.agent_key,
            platform,
            platform_bps,
            referrer,
            referrer_bps,
            reserve_vault,
            reserve_bps,
            bump: ctx.split_config_bump,
        },
    );
    Ok(())
}

/// Settles `amount` for an agent. Callable by an active revenue operator while
/// the protocol runs, once per (agent, reference): every check of
/// `settlement_check` passes before anything is written. Returns the
/// partition, whose transfers the caller performs in the order that
/// `SettlementPlan::payouts` gives, and fills the receipt slot. The five
/// amounts sum to exactly `amount`; the rounding remainder goes to the agent.
pub fn distribute_settlement(
    ctx: &mut DistributeSettlement,
    reference: [u8; 32],
    amount: u64,
    now: i64,
) -> (r: Result<SettlementPlan, ErrorCode>)
    ensures
        match settlement_result(*old(ctx), reference, amount, now) {
            Ok((next, plan)) => r == Ok::<SettlementPlan, ErrorCode>(plan) && *final(ctx) == next,
            Err(e) => r == Err::<SettlementPlan, ErrorCode>(e) && *final(ctx) == *old(ctx),
        },
        r matches Ok(plan) ==> plan_total(plan) == amount,
{
    let plan = check_settlement(ctx, &reference, amount)?;
    proof {
        lemma_plan_conserves(
            amount,
            ctx.split_config,
            ctx.protocol_config.protocol_fee_bps,
        );
    }
    ctx.distribution_receipt = Some(
        DistributionReceipt {
            agent: ctx.agent_key,
            reference,
            amount,
            operator: ctx.operator,
            distributed_at: now,
            bump: ctx.distribution_receipt_bump,
        },
    );
    Ok(plan)
}

} // verus!
