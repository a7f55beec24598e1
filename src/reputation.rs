//! Trade signals, oracle scores and the reputation they accumulate.

use vstd::prelude::*;

use crate::constants::{MAX_BPS, ROLE_ORACLE, ROLE_SIGNALER};
use crate::contexts::{takes_effect, SubmitScore, SubmitSignal};
use crate::errors::ErrorCode;
use crate::helpers::{assert_role, holds_role, is_verified, require_not_paused, verified_at};
use crate::keys::{default_key, is_zero_hash, zero_bytes, zero_hash, Pubkey};
use crate::state::{ProtocolConfig, ReputationState, TradeSignal, VerificationRecord};

verus! {

/// The confidence-discounted score of one event: `score * confidence / 10000`,
/// rounded down.
pub open spec fn effective_score(score: u16, confidence_bps: u16) -> int {
    (score as int * confidence_bps as int) / 10000
}

/// The rolling score after an event of effective score `effective`. A rolling
/// score of zero marks an agent never scored, whose rolling score becomes the
/// event's; otherwise the exponential moving average with weight `alpha` on
/// the new event, rounded down. (A genuine average of zero is taken for
/// "never scored" as well.)
pub open spec fn next_rolling(rolling: u16, effective: int, alpha: u16) -> int {
    if rolling == 0 {
        effective
    } else {
        (rolling as int * (10000 - alpha as int) + effective * alpha as int) / 10000
    }
}

/// What submitting a signal does: the slot for (agent, trade id) must be
/// free, the protocol running, the caller an active signaler, and both the
/// trade id and the result hash non-zero; then the slot holds a new unscored
/// signal.
pub open spec fn signal_result(
    ctx: SubmitSignal,
    trade_id_hash: [u8; 32],
    result_hash: [u8; 32],
    context_hash: [u8; 32],
    risk_flags: u8,
    now: i64,
) -> Result<SubmitSignal, ErrorCode> {
    if ctx.trade_signal is Some {
        Err(ErrorCode::AccountAlreadyInitialized)
    } else if ctx.protocol_config.paused {
        Err(ErrorCode::ProtocolPaused)
    } else if !holds_role(ctx.role_assignment, ctx.signaler, ROLE_SIGNALER) {
        Err(ErrorCode::Unauthorized)
    } else if zero_bytes(trade_id_hash@) || zero_bytes(result_hash@) {
        Err(ErrorCode::InvalidHash)
    } else {
        Ok(
            SubmitSignal {
                trade_signal: Some(
                    TradeSignal {
                        agent: ctx.agent_key,
                        trade_id_hash,
                        result_hash,
                        context_hash,
                        reporter: ctx.signaler,
                        submitted_at: now,
                        risk_flags,
                        score_submitted: false,
                        score_hash: zero_hash(),
                        score: 0,
                        confidence_bps: 0,
                        oracle: default_key(),
                        score_submitted_at: 0,
                        bump: ctx.trade_signal_bump,
                    },
                ),
                ..ctx
            },
        )
    }
}

/// The verification record a scoring reads: the stored one, or the empty
/// record bound to the agent.
pub open spec fn record_or_empty(ctx: SubmitScore) -> VerificationRecord {
    match ctx.verification_record {
        Some(r) => r,
        None => VerificationRecord::empty_spec(ctx.agent_key, ctx.verification_record_bump),
    }
}

/// The reputation a scoring updates: the stored one, or the empty state bound
/// to the agent.
pub open spec fn reputation_or_empty(ctx: SubmitScore) -> ReputationState {
    match ctx.reputation_state {
        Some(r) => r,
        None => ReputationState::empty_spec(ctx.agent_key, ctx.reputation_state_bump),
    }
}

/// The age check: with a maximum age set, the time since submission, taken
/// as a 64-bit signed difference, must exist and be at most the maximum.
pub open spec fn age_check(cfg: ProtocolConfig, submitted_at: i64, now: i64) -> Result<
    (),
    ErrorCode,
> {
    if cfg.max_signal_age <= 0 {
        Ok(())
    } else if now - submitted_at < i64::MIN || now - submitted_at > i64::MAX {
        Err(ErrorCode::MathOverflow)
    } else if now - submitted_at > cfg.max_signal_age {
        Err(ErrorCode::SignalTooOld)
    } else {
        Ok(())
    }
}

/// The accumulated totals and the count of `rep` can take one more event of
/// this score and confidence within their widths.
pub open spec fn accumulates(rep: ReputationState, score: u16, confidence_bps: u16) -> bool {
    &&& rep.total_weighted_score + score * confidence_bps <= u128::MAX
    &&& rep.total_weight + confidence_bps <= u64::MAX
    &&& rep.score_count + 1 <= u32::MAX
}

/// The checks of a scoring on the caller, in their order: the protocol
/// running, the caller an active oracle.
pub open spec fn caller_check(ctx: SubmitScore) -> Result<(), ErrorCode> {
    if ctx.protocol_config.paused {
        Err(ErrorCode::ProtocolPaused)
    } else if !holds_role(ctx.role_assignment, ctx.oracle, ROLE_ORACLE) {
        Err(ErrorCode::Unauthorized)
    } else {
        Ok(())
    }
}

/// The checks of a scoring on the submitted values, in their order: the
/// score at most 10000, the confidence at most 10000 and at least the
/// minimum, the score hash non-zero.
pub open spec fn value_check(
    cfg: ProtocolConfig,
    score: u16,
    confidence_bps: u16,
    score_hash: [u8; 32],
) -> Result<(), ErrorCode> {
    if score > MAX_BPS {
        Err(ErrorCode::InvalidScore)
    } else if confidence_bps > MAX_BPS || confidence_bps < cfg.min_confidence_bps {
        Err(ErrorCode::InvalidConfidence)
    } else if zero_bytes(score_hash@) {
        Err(ErrorCode::InvalidHash)
    } else {
        Ok(())
    }
}

/// All checks of a scoring, in their order: those of `caller_check`; the
/// signal not scored yet, whatever the submitted values; those of
/// `value_check`; the signal's age; the agent's verification when required;
/// room in the reputation's totals.
pub open spec fn score_check(
    ctx: SubmitScore,
    score: u16,
    confidence_bps: u16,
    score_hash: [u8; 32],
    now: i64,
) -> Result<(), ErrorCode> {
    let cfg = ctx.protocol_config;
    if caller_check(ctx) is Err {
        caller_check(ctx)
    } else if ctx.trade_signal.score_submitted {
        Err(ErrorCode::ScoreAlreadySubmitted)
    } else if value_check(cfg, score, confidence_bps, score_hash) is Err {
        value_check(cfg, score, confidence_bps, score_hash)
    } else if age_check(cfg, ctx.trade_signal.submitted_at, now) is Err {
        age_check(cfg, ctx.trade_signal.submitted_at, now)
    } else if cfg.require_verified_for_score && !verified_at(record_or_empty(ctx), now) {
        Err(ErrorCode::VerificationRequired)
    } else if !accumulates(reputation_or_empty(ctx), score, confidence_bps) {
        Err(ErrorCode::MathOverflow)
    } else {
        Ok(())
    }
}

/// The reputation after one scored event.
pub open spec fn scored_reputation(
    rep: ReputationState,
    score: u16,
    confidence_bps: u16,
    alpha: u16,
    now: i64,
) -> ReputationState {
    ReputationState {
        total_weighted_score: (rep.total_weighted_score + score * confidence_bps) as u128,
        total_weight: (rep.total_weight + confidence_bps) as u64,
        rolling_score: next_rolling(
            rep.rolling_score,
            effective_score(score, confidence_bps),
            alpha,
        ) as u16,
        last_score: score,
        last_confidence_bps: confidence_bps,
        score_count: (rep.score_count + 1) as u32,
        last_updated: now,
        ..rep
    }
}

/// What scoring a signal does: once `score_check` passes, the signal is
/// latched as scored with this oracle, score, confidence, hash and time; the
/// verification record exists; the reputation takes the event.
pub open spec fn score_result(
    ctx: SubmitScore,
    score: u16,
    confidence_bps: u16,
    score_hash: [u8; 32],
    now: i64,
) -> Result<SubmitScore, ErrorCode> {
    match score_check(ctx, score, confidence_bps, score_hash, now) {
        Err(e) => Err(e),
        Ok(_) => Ok(
            SubmitScore {
                trade_signal: TradeSignal {
                    score_submitted: true,
                    score_hash,
                    score,
                    confidence_bps,
                    oracle: ctx.oracle,
                    score_submitted_at: now,
                    ..ctx.trade_signal
                },
                verification_record: Some(record_or_empty(ctx)),
                reputation_state: Some(
                    scored_reputation(
                        reputation_or_empty(ctx),
                        score,
                        confidence_bps,
                        ctx.protocol_config.score_alpha_bps,
                        now,
                    ),
                ),
                ..ctx
            },
        ),
    }
}

/// The effective score is at most the smaller of score and confidence.
pub proof fn lemma_effective_bounded(score: u16, confidence_bps: u16)
    requires
        confidence_bps <= MAX_BPS,
    ensures
        0 <= effective_score(score, confidence_bps) <= score,
{
    let s = score as int;
    let c = confidence_bps as int;
    assert(0 <= s * c <= s * 10000) by (nonlinear_arith)
        requires
            0 <= s,
            0 <= c <= 10000,
    ;
    assert((s * c) / 10000 <= (s * 10000) / 10000) by (nonlinear_arith)
        requires
            0 <= s * c <= s * 10000,
    ;
    assert((s * 10000) / 10000 == s) by (nonlinear_arith);
}

/// The moving average lies between zero and the larger of the previous
/// rolling score and the effective score.
pub proof fn lemma_rolling_between(rolling: u16, effective: int, alpha: u16)
    requires
        0 <= effective,
        alpha <= MAX_BPS,
    ensures
        0 <= next_rolling(rolling, effective, alpha),
        next_rolling(rolling, effective, alpha) <= rolling || next_rolling(
            rolling,
            effective,
            alpha,
        ) <= effective,
{
    if rolling != 0 {
        let r = rolling as int;
        let a = alpha as int;
        let m = if r >= effective {
            r
        } else {
            effective
        };
        assert(0 <= r * (10000 - a) + effective * a <= m * 10000) by (nonlinear_arith)
            requires
                0 <= r <= m,
                0 <= effective <= m,
                0 <= a <= 10000,
        ;
        assert((r * (10000 - a) + effective * a) / 10000 <= (m * 10000) / 10000)
            by (nonlinear_arith)
            requires
                0 <= r * (10000 - a) + effective * a <= m * 10000,
        ;
        assert((m * 10000) / 10000 == m) by (nonlinear_arith);
        assert(0 <= (r * (10000 - a) + effective * a) / 10000) by (nonlinear_arith)
            requires
                0 <= r * (10000 - a) + effective * a,
        ;
    }
}

/// Records a trade outcome for an agent. Callable by an active signaler while
/// the protocol runs, once per (agent, trade id); both the trade id and the
/// result hash must be non-zero. The new signal is unscored.
pub fn submit_signal(
    ctx: &mut SubmitSignal,
    trade_id_hash: [u8; 32],
    result_hash: [u8; 32],
    context_hash: [u8; 32],
    risk_flags: u8,
    now: i64,
) -> (r: Result<(), ErrorCode>)
    ensures
        takes_effect(
            signal_result(*old(ctx), trade_id_hash, result_hash, context_hash, risk_flags, now),
            *old(ctx),
            r,
            *final(ctx),
        ),
{
    if ctx.trade_signal.is_some() {
        return Err(ErrorCode::AccountAlreadyInitialized);
    }
    require_not_paused(&ctx.protocol_config)?;
    assert_role(&ctx.role_assignment, ctx.signaler, ROLE_SIGNALER)?;
    if is_zero_hash(&trade_id_hash) {
        return Err(ErrorCode::InvalidHash);
    }
    if is_zero_hash(&result_hash) {
        return Err(ErrorCode::InvalidHash);
    }
    ctx.trade_signal = Some(
        TradeSignal {
            agent: ctx.agent_key,
            trade_id_hash,
            result_hash,
            context_hash,
            reporter: ctx.signaler,
            submitted_at: now,
            risk_flags,
            score_submitted: false,
            score_hash: [0u8; 32],
            score: 0,
            confidence_bps: 0,
            oracle: Pubkey::zero(),
            score_submitted_at: 0,
            bump: ctx.trade_signal_bump,
        },
    );
    Ok(())
}

/// Scores a trade signal and folds the score into the agent's reputation.
/// Callable by an active oracle while the protocol runs; `trade_id_hash`
/// names the signal that `ctx` holds. A signal already scored fails with
/// `ScoreAlreadySubmitted` whatever the new values. Score and confidence are
/// at most 10000, the confidence at least the configured minimum, the score
/// hash non-zero; with a maximum age set the signal must not
/// be older; with verification required the agent must be verified now.
/// Every accumulation is checked: an overflow fails with `MathOverflow`. The
/// configured smoothing factor must be at most 10000, as the configuration's
/// invariant keeps it.
pub fn submit_score(
    ctx: &mut SubmitScore,
    trade_id_hash: [u8; 32],
    score: u16,
    confidence_bps: u16,
    score_hash: [u8; 32],
    now: i64,
) -> (r: Result<(), ErrorCode>)
    requires
        old(ctx).protocol_config.score_alpha_bps <= MAX_BPS,
    ensures
        takes_effect(
            score_result(*old(ctx), score, confidence_bps, score_hash, now),
            *old(ctx),
            r,
            *final(ctx),
        ),
{
    let _ = trade_id_hash;
    require_not_paused(&ctx.protocol_config)?;
    assert_role(&ctx.role_assignment, ctx.oracle, ROLE_ORACLE)?;
    if ctx.trade_signal.score_submitted {
        return Err(ErrorCode::ScoreAlreadySubmitted);
    }
    if score > MAX_BPS {
        return Err(ErrorCode::InvalidScore);
    }
    if confidence_bps > MAX_BPS {
        return Err(ErrorCode::InvalidConfidence);
    }
    if confidence_bps < ctx.protocol_config.min_confidence_bps {
        return Err(ErrorCode::InvalidConfidence);
    }
    if is_zero_hash(&score_hash) {
        return Err(ErrorCode::InvalidHash);
    }
    if ctx.protocol_config.max_signal_age > 0 {
        let elapsed = match now.checked_sub(ctx.trade_signal.submitted_at) {
            Some(e) => e,
            None => return Err(ErrorCode::MathOverflow),
        };
        if elapsed > ctx.protocol_config.max_signal_age {
            return Err(ErrorCode::SignalTooOld);
        }
    }
    let record = match ctx.verification_record {
        Some(r) => r,
        None => VerificationRecord::empty(ctx.agent_key, ctx.verification_record_bump),
    };
    if ctx.protocol_config.require_verified_for_score && !is_verified(&record, now) {
        return Err(ErrorCode::VerificationRequired);
    }
    let rep = match ctx.reputation_state {
        Some(r) => r,
        None => ReputationState::empty(ctx.agent_key, ctx.reputation_state_bump),
    };
    proof {
        lemma_effective_bounded(score, confidence_bps);
        assert(score as int * confidence_bps as int <= 10000 * 10000) by (nonlinear_arith)
            requires
                0 <= score as int <= 10000,
                0 <= confidence_bps as int <= 10000,
        ;
    }
    let weighted: u128 = score as u128 * confidence_bps as u128;
    let total_weighted_score = match rep.total_weighted_score.checked_add(weighted) {
        Some(t) => t,
        None => return Err(ErrorCode::MathOverflow),
    };
    let total_weight = match rep.total_weight.checked_add(confidence_bps as u64) {
        Some(t) => t,
        None => return Err(ErrorCode::MathOverflow),
    };
    let score_count = match rep.score_count.checked_add(1) {
        Some(c) => c,
        None => return Err(ErrorCode::MathOverflow),
    };
    let effective: u32 = (score as u32 * confidence_bps as u32) / (MAX_BPS as u32);
    let alpha = ctx.protocol_config.score_alpha_bps;
    let rolling_score: u16 = if rep.rolling_score == 0 {
        effective as u16
    } else {
        proof {
            lemma_rolling_between(rep.rolling_score, effective as int, alpha);
            assert(rep.rolling_score as int * (10000 - alpha as int) <= 65535 * 10000)
                by (nonlinear_arith)
                requires
                    0 <= rep.rolling_score as int <= 65535,
                    0 <= 10000 - alpha as int <= 10000,
            ;
            assert(effective as int * alpha as int <= 10000 * 10000) by (nonlinear_arith)
                requires
                    0 <= effective as int <= 10000,
                    0 <= alpha as int <= 10000,
            ;
        }
        let inv_alpha: u32 = (MAX_BPS - alpha) as u32;
        let smoothed: u32 = (rep.rolling_score as u32 * inv_alpha + effective * alpha as u32)
            / (MAX_BPS as u32);
        smoothed as u16
    };
    ctx.trade_signal.score_submitted = true;
    ctx.trade_signal.score_hash = score_hash;
    ctx.trade_signal.score = score;
    ctx.trade_signal.confidence_bps = confidence_bps;
    ctx.trade_signal.oracle = ctx.oracle;
    ctx.trade_signal.score_submitted_at = now;
    ctx.verification_record = Some(record);
    ctx.reputation_state = Some(
        ReputationState {
            total_weighted_score,
            total_weight,
            rolling_score,
            last_score: score,
            last_confidence_bps: confidence_bps,
            score_count,
            last_updated: now,
            ..rep
        },
    );
    Ok(())
}

} // verus!
