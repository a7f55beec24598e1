//! Properties that hold across the actions, proved over their results.

use vstd::prelude::*;

use crate::constants::{MAX_BPS, STATUS_VERIFIED};
use crate::contexts::{DistributeSettlement, SetSplit, SubmitScore};
use crate::errors::ErrorCode;
use crate::helpers::verified_at;
use crate::keys::Pubkey;
use crate::reputation::{
    caller_check, effective_score, lemma_effective_bounded, lemma_rolling_between, next_rolling,
    reputation_or_empty, score_result,
};
use crate::revenue::{
    binding_check, lemma_plan_conserves, plan_total, set_split_result, settlement_result,
    total_bps, SettlementPlan,
};
use crate::state::VerificationRecord;

verus! {

/// A split whose shares sum to more than 10000 bps is never stored: setting
/// it fails, with `InvalidBps` once the caller owns the agent and the protocol
/// runs, and a failure changes nothing.
pub proof fn law_split_limit_on_set(
    ctx: SetSplit,
    platform: Pubkey,
    platform_bps: u16,
    referrer: Pubkey,
    referrer_bps: u16,
    reserve_vault: Pubkey,
    reserve_bps: u16,
)
    requires
        platform_bps + referrer_bps + reserve_bps > MAX_BPS,
    ensures
        set_split_result(
            ctx,
            platform,
            platform_bps,
            referrer,
            referrer_bps,
            reserve_vault,
            reserve_bps,
        ) is Err,
        ctx.agent_identity.owner@ == ctx.owner@ && !ctx.protocol_config.paused ==> set_split_result(
            ctx,
            platform,
            platform_bps,
            referrer,
            referrer_bps,
            reserve_vault,
            reserve_bps,
        ) == Err::<SetSplit, ErrorCode>(ErrorCode::InvalidBps),
{
}

/// A settlement whose split shares and protocol fee sum to more than 10000 bps
/// fails: with `InvalidBps` once every earlier check passes (the protocol
/// running, the caller an active revenue operator, a non-zero reference, a
/// positive amount, and the account checks), and a failure changes nothing
/// and returns no transfers. Every successful settlement had shares and fee
/// of at most 10000 bps.
pub proof fn law_split_limit_on_settle(
    ctx: DistributeSettlement,
    reference: [u8; 32],
    amount: u64,
    now: i64,
)
    ensures
        total_bps(ctx.split_config, ctx.protocol_config.protocol_fee_bps) > MAX_BPS
            ==> settlement_result(ctx, reference, amount, now) == match binding_check(
            ctx,
            reference,
            amount,
        ) {
            Err(e) => Err::<(DistributeSettlement, SettlementPlan), ErrorCode>(e),
            Ok(_) => Err(ErrorCode::InvalidBps),
        },
        total_bps(ctx.split_config, ctx.protocol_config.protocol_fee_bps) > MAX_BPS
            && binding_check(ctx, reference, amount) is Ok ==> settlement_result(
            ctx,
            reference,
            amount,
            now,
        ) == Err::<(DistributeSettlement, SettlementPlan), ErrorCode>(ErrorCode::InvalidBps),
        settlement_result(ctx, reference, amount, now) is Ok ==> total_bps(
            ctx.split_config,
            ctx.protocol_config.protocol_fee_bps,
        ) <= MAX_BPS,
{
}

/// Conservation: the five amounts of every successful settlement sum to
/// exactly the settled amount.
pub proof fn law_settlement_conserves(
    ctx: DistributeSettlement,
    reference: [u8; 32],
    amount: u64,
    now: i64,
)
    ensures
        settlement_result(ctx, reference, amount, now) matches Ok((_, plan)) ==> plan_total(plan)
            == amount,
{
    if settlement_result(ctx, reference, amount, now) is Ok {
        lemma_plan_conserves(amount, ctx.split_config, ctx.protocol_config.protocol_fee_bps);
    }
}

/// Idempotency: once a settlement for an (agent, reference) succeeds, its
/// receipt fills the slot of that key, and every later settlement that finds
/// that slot fails, whatever its amount, and returns no transfers: with
/// `AccountAlreadyInitialized` once all its other checks pass.
pub proof fn law_settlement_once(
    ctx: DistributeSettlement,
    reference: [u8; 32],
    amount: u64,
    now: i64,
    again: DistributeSettlement,
    amount2: u64,
    now2: i64,
)
    requires
        settlement_result(ctx, reference, amount, now) is Ok,
        again.distribution_receipt == settlement_result(
            ctx,
            reference,
            amount,
            now,
        )->Ok_0.0.distribution_receipt,
    ensures
        settlement_result(again, reference, amount2, now2) is Err,
        binding_check(again, reference, amount2) is Ok && total_bps(
            again.split_config,
            again.protocol_config.protocol_fee_bps,
        ) <= MAX_BPS ==> settlement_result(again, reference, amount2, now2) == Err::<
            (DistributeSettlement, SettlementPlan),
            ErrorCode,
        >(ErrorCode::AccountAlreadyInitialized),
{
}

/// Latch: once a signal is scored, every later scoring of that signal fails
/// with `ScoreAlreadySubmitted` whatever its score, confidence, hash and time,
/// once the protocol runs and the caller is an active oracle; otherwise with
/// the caller's error.
pub proof fn law_score_once(
    ctx: SubmitScore,
    score: u16,
    confidence_bps: u16,
    score_hash: [u8; 32],
    now: i64,
    again: SubmitScore,
    score2: u16,
    confidence2: u16,
    score_hash2: [u8; 32],
    now2: i64,
)
    requires
        score_result(ctx, score, confidence_bps, score_hash, now) is Ok,
        again.trade_signal == score_result(
            ctx,
            score,
            confidence_bps,
            score_hash,
            now,
        )->Ok_0.trade_signal,
    ensures
        score_result(again, score2, confidence2, score_hash2, now2) is Err,
        caller_check(again) is Ok ==> score_result(again, score2, confidence2, score_hash2, now2)
            == Err::<SubmitScore, ErrorCode>(ErrorCode::ScoreAlreadySubmitted),
        caller_check(again) is Err ==> score_result(again, score2, confidence2, score_hash2, now2)
            == Err::<SubmitScore, ErrorCode>(caller_check(again)->Err_0),
{
}

/// The moving average stays within [0, 10000] when the previous rolling
/// score, the score, the confidence and the smoothing factor are within it.
pub proof fn law_rolling_bounded(rolling: u16, score: u16, confidence_bps: u16, alpha: u16)
    requires
        rolling <= MAX_BPS,
        score <= MAX_BPS,
        confidence_bps <= MAX_BPS,
        alpha <= MAX_BPS,
    ensures
        0 <= next_rolling(rolling, effective_score(score, confidence_bps), alpha) <= MAX_BPS,
{
    lemma_effective_bounded(score, confidence_bps);
    lemma_rolling_between(rolling, effective_score(score, confidence_bps), alpha);
}

/// A successful scoring keeps an agent's rolling score within [0, 10000]
/// when it was within before.
pub proof fn law_scoring_keeps_rolling_bounded(
    ctx: SubmitScore,
    score: u16,
    confidence_bps: u16,
    score_hash: [u8; 32],
    now: i64,
)
    requires
        ctx.protocol_config.score_alpha_bps <= MAX_BPS,
        reputation_or_empty(ctx).rolling_score <= MAX_BPS,
        score_result(ctx, score, confidence_bps, score_hash, now) is Ok,
    ensures
        score_result(ctx, score, confidence_bps, score_hash, now)->Ok_0.reputation_state matches Some(
            rep,
        ) && rep.rolling_score <= MAX_BPS,
{
    law_rolling_bounded(
        reputation_or_empty(ctx).rolling_score,
        score,
        confidence_bps,
        ctx.protocol_config.score_alpha_bps,
    );
}

/// Verification expiry: a verified record with a nonzero expiry before `now`
/// does not count as verified; one that never expires, or expires at `now` or
/// later, does; a record of any other status never does.
pub proof fn law_verification_expiry(record: VerificationRecord, now: i64)
    ensures
        record.status == STATUS_VERIFIED && record.expires_at != 0 && record.expires_at < now
            ==> !verified_at(record, now),
        record.status == STATUS_VERIFIED && (record.expires_at == 0 || record.expires_at >= now)
            ==> verified_at(record, now),
        record.status != STATUS_VERIFIED ==> !verified_at(record, now),
{
}

/// A successful scoring never decreases an agent's accumulated weighted
/// score or weight, and counts one more event.
pub proof fn law_reputation_totals_grow(
    ctx: SubmitScore,
    score: u16,
    confidence_bps: u16,
    score_hash: [u8; 32],
    now: i64,
)
    requires
        score_result(ctx, score, confidence_bps, score_hash, now) is Ok,
    ensures
        score_result(ctx, score, confidence_bps, score_hash, now)->Ok_0.reputation_state matches Some(
            rep,
        ) && rep.total_weighted_score >= reputation_or_empty(ctx).total_weighted_score
            && rep.total_weight >= reputation_or_empty(ctx).total_weight && rep.score_count
            == reputation_or_empty(ctx).score_count + 1,
{
}

/// Every split that setting a split stores is well formed.
pub proof fn law_stored_split_wf(
    ctx: SetSplit,
    platform: Pubkey,
    platform_bps: u16,
    referrer: Pubkey,
    referrer_bps: u16,
    reserve_vault: Pubkey,
    reserve_bps: u16,
)
    requires
        set_split_result(
            ctx,
            platform,
            platform_bps,
            referrer,
            referrer_bps,
            reserve_vault,
            reserve_bps,
        ) is Ok,
    ensures
        set_split_result(
            ctx,
            platform,
            platform_bps,
            referrer,
            referrer_bps,
            reserve_vault,
            reserve_bps,
        )->Ok_0.split_config matches Some(split) && split.wf(),
{
}

} // verus!
