use n3roai_solana::constants::{ROLE_ORACLE, ROLE_SIGNALER, STATUS_NONE, STATUS_VERIFIED};
use n3roai_solana::contexts::{SubmitScore, SubmitSignal};
use n3roai_solana::errors::ErrorCode;
use n3roai_solana::keys::Pubkey;
use n3roai_solana::reputation::{submit_score, submit_signal};
use n3roai_solana::state::{
    ProtocolConfig, ReputationState, RoleAssignment, TradeSignal, VerificationRecord,
};

fn key(n: u8) -> Pubkey {
    Pubkey::new_from_array([n; 32])
}

const ORACLE: u8 = 40;
const SIGNALER: u8 = 41;
const AGENT: u8 = 42;

fn config() -> ProtocolConfig {
    ProtocolConfig {
        admin: key(1),
        settlement_mint: key(2),
        settlement_vault: key(3),
        protocol_treasury_token_account: key(4),
        protocol_fee_bps: 0,
        min_confidence_bps: 5000,
        score_alpha_bps: 2000,
        max_signal_age: 0,
        require_verified_for_score: false,
        enforce_settlement_token: false,
        paused: false,
        vault_authority_bump: 255,
        bump: 254,
    }
}

fn role(member: u8, kind: u8) -> RoleAssignment {
    RoleAssignment { member: key(member), role: kind, active: true, updated_at: 0, bump: 1 }
}

fn signal_ctx() -> SubmitSignal {
    SubmitSignal {
        protocol_config: config(),
        signaler: key(SIGNALER),
        role_assignment: role(SIGNALER, ROLE_SIGNALER),
        agent_key: key(AGENT),
        trade_signal: None,
        trade_signal_bump: 6,
    }
}

fn fresh_signal(submitted_at: i64) -> TradeSignal {
    let mut ctx = signal_ctx();
    submit_signal(&mut ctx, [1; 32], [2; 32], [3; 32], 0b101, submitted_at).unwrap();
    ctx.trade_signal.unwrap()
}

fn score_ctx(signal: TradeSignal, reputation: Option<ReputationState>) -> SubmitScore {
    SubmitScore {
        protocol_config: config(),
        oracle: key(ORACLE),
        role_assignment: role(ORACLE, ROLE_ORACLE),
        agent_key: key(AGENT),
        trade_signal: signal,
        verification_record: None,
        reputation_state: reputation,
        verification_record_bump: 7,
        reputation_state_bump: 8,
    }
}

#[test]
fn submit_signal_creates_unscored_signal() {
    let mut ctx = signal_ctx();
    assert_eq!(submit_signal(&mut ctx, [1; 32], [2; 32], [0; 32], 9, 1234), Ok(()));
    let s = ctx.trade_signal.unwrap();
    assert_eq!(s.agent, key(AGENT));
    assert_eq!(s.trade_id_hash, [1; 32]);
    assert_eq!(s.result_hash, [2; 32]);
    assert_eq!(s.context_hash, [0; 32]);
    assert_eq!(s.reporter, key(SIGNALER));
    assert_eq!(s.submitted_at, 1234);
    assert_eq!(s.risk_flags, 9);
    assert!(!s.score_submitted);
    assert_eq!(s.score, 0);
    assert_eq!(s.oracle, Pubkey::zero());
    assert_eq!(s.bump, 6);
}

#[test]
fn submit_signal_errors() {
    let mut ctx = signal_ctx();
    assert!(submit_signal(&mut ctx, [1; 32], [2; 32], [3; 32], 0, 0).is_ok());
    assert_eq!(submit_signal(&mut ctx, [1; 32], [2; 32], [3; 32], 0, 0), Err(ErrorCode::AccountAlreadyInitialized));
    let mut ctx = signal_ctx();
    assert_eq!(submit_signal(&mut ctx, [0; 32], [2; 32], [3; 32], 0, 0), Err(ErrorCode::InvalidHash));
    assert_eq!(submit_signal(&mut ctx, [1; 32], [0; 32], [3; 32], 0, 0), Err(ErrorCode::InvalidHash));
    let mut ctx = signal_ctx();
    ctx.protocol_config.paused = true;
    assert_eq!(submit_signal(&mut ctx, [1; 32], [2; 32], [3; 32], 0, 0), Err(ErrorCode::ProtocolPaused));
    let mut ctx = signal_ctx();
    ctx.role_assignment.role = ROLE_ORACLE;
    assert_eq!(submit_signal(&mut ctx, [1; 32], [2; 32], [3; 32], 0, 0), Err(ErrorCode::Unauthorized));
    assert!(ctx.trade_signal.is_none());
}

#[test]
fn rolling_score_over_two_events() {
    let mut ctx = score_ctx(fresh_signal(10), None);
    assert_eq!(submit_score(&mut ctx, [1; 32], 8000, 9000, [4; 32], 20), Ok(()));
    let rep = ctx.reputation_state.unwrap();
    assert_eq!(rep.rolling_score, 7200);
    assert_eq!(rep.total_weighted_score, 72_000_000);
    assert_eq!(rep.total_weight, 9000);
    assert_eq!(rep.score_count, 1);
    assert_eq!(rep.agent, key(AGENT));
    assert_eq!(rep.bump, 8);

    let mut ctx = score_ctx(fresh_signal(30), Some(rep));
    assert_eq!(submit_score(&mut ctx, [1; 32], 6000, 5000, [4; 32], 40), Ok(()));
    let rep = ctx.reputation_state.unwrap();
    assert_eq!(rep.rolling_score, 6360);
    assert_eq!(rep.total_weighted_score, 72_000_000 + 30_000_000);
    assert_eq!(rep.total_weight, 14_000);
    assert_eq!(rep.score_count, 2);
    assert_eq!(rep.last_score, 6000);
    assert_eq!(rep.last_confidence_bps, 5000);
    assert_eq!(rep.last_updated, 40);
}

#[test]
fn scored_signal_is_latched() {
    let mut ctx = score_ctx(fresh_signal(10), None);
    assert_eq!(submit_score(&mut ctx, [1; 32], 8000, 9000, [4; 32], 20), Ok(()));
    let s = ctx.trade_signal;
    assert!(s.score_submitted);
    assert_eq!(s.score, 8000);
    assert_eq!(s.confidence_bps, 9000);
    assert_eq!(s.score_hash, [4; 32]);
    assert_eq!(s.oracle, key(ORACLE));
    assert_eq!(s.score_submitted_at, 20);
    let rep = ctx.reputation_state;
    assert_eq!(submit_score(&mut ctx, [1; 32], 100, 6000, [5; 32], 21), Err(ErrorCode::ScoreAlreadySubmitted));
    assert_eq!(submit_score(&mut ctx, [1; 32], 8000, 9000, [4; 32], 20), Err(ErrorCode::ScoreAlreadySubmitted));
    assert_eq!(ctx.trade_signal.score, 8000);
    assert_eq!(ctx.reputation_state.unwrap().score_count, rep.unwrap().score_count);
}

#[test]
fn scored_signal_latch_precedes_value_checks() {
    let mut ctx = score_ctx(fresh_signal(10), None);
    assert_eq!(submit_score(&mut ctx, [1; 32], 8000, 9000, [4; 32], 20), Ok(()));
    assert_eq!(submit_score(&mut ctx, [1; 32], 10001, 9000, [4; 32], 21), Err(ErrorCode::ScoreAlreadySubmitted));
    assert_eq!(submit_score(&mut ctx, [1; 32], 100, 10001, [4; 32], 21), Err(ErrorCode::ScoreAlreadySubmitted));
    assert_eq!(submit_score(&mut ctx, [1; 32], 100, 4999, [4; 32], 21), Err(ErrorCode::ScoreAlreadySubmitted));
    assert_eq!(submit_score(&mut ctx, [1; 32], 100, 9000, [0; 32], 21), Err(ErrorCode::ScoreAlreadySubmitted));
    ctx.protocol_config.paused = true;
    assert_eq!(submit_score(&mut ctx, [1; 32], 100, 9000, [4; 32], 21), Err(ErrorCode::ProtocolPaused));
    ctx.protocol_config.paused = false;
    ctx.oracle = key(90);
    assert_eq!(submit_score(&mut ctx, [1; 32], 100, 9000, [4; 32], 21), Err(ErrorCode::Unauthorized));
    assert_eq!(ctx.trade_signal.score, 8000);
}

#[test]
fn low_confidence_rejected_without_changes() {
    let signal = fresh_signal(10);
    let mut ctx = score_ctx(signal, None);
    assert_eq!(submit_score(&mut ctx, [1; 32], 8000, 4999, [4; 32], 20), Err(ErrorCode::InvalidConfidence));
    assert!(!ctx.trade_signal.score_submitted);
    assert_eq!(ctx.trade_signal.score, 0);
    assert!(ctx.reputation_state.is_none());
    assert!(ctx.verification_record.is_none());
}

#[test]
fn rolling_score_stays_in_range() {
    let mut rep: Option<ReputationState> = None;
    let inputs: [(u16, u16); 5] = [(10000, 10000), (0, 5000), (10000, 10000), (1, 10000), (9999, 7000)];
    for (i, (score, conf)) in inputs.iter().enumerate() {
        let mut ctx = score_ctx(fresh_signal(0), rep);
        ctx.protocol_config.score_alpha_bps = 10000 - i as u16 * 2000;
        assert_eq!(submit_score(&mut ctx, [1; 32], *score, *conf, [4; 32], 1), Ok(()));
        let r = ctx.reputation_state.unwrap();
        assert!(r.rolling_score <= 10000);
        rep = Some(r);
    }
    let mut ctx = score_ctx(fresh_signal(0), None);
    assert_eq!(submit_score(&mut ctx, [1; 32], 10000, 10000, [4; 32], 1), Ok(()));
    assert_eq!(ctx.reputation_state.unwrap().rolling_score, 10000);
}

#[test]
fn zero_rolling_score_counts_as_first_event() {
    let mut ctx = score_ctx(fresh_signal(0), None);
    ctx.protocol_config.min_confidence_bps = 0;
    assert_eq!(submit_score(&mut ctx, [1; 32], 0, 0, [4; 32], 1), Ok(()));
    let rep = ctx.reputation_state.unwrap();
    assert_eq!(rep.rolling_score, 0);
    let mut ctx = score_ctx(fresh_signal(0), Some(rep));
    assert_eq!(submit_score(&mut ctx, [1; 32], 5000, 10000, [4; 32], 1), Ok(()));
    assert_eq!(ctx.reputation_state.unwrap().rolling_score, 5000);
}

#[test]
fn submit_score_input_errors() {
    let run = |mut c: SubmitScore, score: u16, conf: u16, hash: [u8; 32]| {
        submit_score(&mut c, [1; 32], score, conf, hash, 5)
    };
    let mut c = score_ctx(fresh_signal(0), None);
    c.protocol_config.paused = true;
    assert_eq!(run(c, 1, 6000, [4; 32]), Err(ErrorCode::ProtocolPaused));
    let mut c = score_ctx(fresh_signal(0), None);
    c.oracle = key(90);
    assert_eq!(run(c, 1, 6000, [4; 32]), Err(ErrorCode::Unauthorized));
    let c = score_ctx(fresh_signal(0), None);
    assert_eq!(run(c, 10001, 6000, [4; 32]), Err(ErrorCode::InvalidScore));
    let c = score_ctx(fresh_signal(0), None);
    assert_eq!(run(c, 1, 10001, [4; 32]), Err(ErrorCode::InvalidConfidence));
    let c = score_ctx(fresh_signal(0), None);
    assert_eq!(run(c, 1, 6000, [0; 32]), Err(ErrorCode::InvalidHash));
}

#[test]
fn submit_score_signal_age() {
    let mut c = score_ctx(fresh_signal(100), None);
    c.protocol_config.max_signal_age = 50;
    assert_eq!(submit_score(&mut c.clone(), [1; 32], 1, 6000, [4; 32], 150), Ok(()));
    assert_eq!(submit_score(&mut c, [1; 32], 1, 6000, [4; 32], 151), Err(ErrorCode::SignalTooOld));
    let mut c = score_ctx(fresh_signal(i64::MIN), None);
    c.protocol_config.max_signal_age = 50;
    assert_eq!(submit_score(&mut c, [1; 32], 1, 6000, [4; 32], 1), Err(ErrorCode::MathOverflow));
    let mut c = score_ctx(fresh_signal(i64::MIN), None);
    assert_eq!(submit_score(&mut c, [1; 32], 1, 6000, [4; 32], 1), Ok(()));
}

#[test]
fn submit_score_requires_verification() {
    let mut c = score_ctx(fresh_signal(0), None);
    c.protocol_config.require_verified_for_score = true;
    assert_eq!(submit_score(&mut c.clone(), [1; 32], 1, 6000, [4; 32], 5), Err(ErrorCode::VerificationRequired));
    c.verification_record = Some(VerificationRecord {
        agent: key(AGENT),
        status: STATUS_VERIFIED,
        operator: key(3),
        updated_at: 0,
        expires_at: 4,
        evidence_hash: [1; 32],
        policy_hash: [0; 32],
        bump: 7,
    });
    assert_eq!(submit_score(&mut c.clone(), [1; 32], 1, 6000, [4; 32], 5), Err(ErrorCode::VerificationRequired));
    assert_eq!(submit_score(&mut c, [1; 32], 1, 6000, [4; 32], 4), Ok(()));
}

#[test]
fn submit_score_creates_empty_verification_record() {
    let mut c = score_ctx(fresh_signal(0), None);
    assert_eq!(submit_score(&mut c, [1; 32], 1, 6000, [4; 32], 5), Ok(()));
    let v = c.verification_record.unwrap();
    assert_eq!(v.agent, key(AGENT));
    assert_eq!(v.status, STATUS_NONE);
    assert_eq!(v.bump, 7);
    assert_eq!(v.evidence_hash, [0; 32]);
}

#[test]
fn submit_score_accumulation_overflow() {
    let mut rep = ReputationState {
        agent: key(AGENT),
        total_weighted_score: u128::MAX,
        total_weight: 0,
        rolling_score: 0,
        last_score: 0,
        last_confidence_bps: 0,
        score_count: 0,
        last_updated: 0,
        bump: 8,
    };
    let mut c = score_ctx(fresh_signal(0), Some(rep));
    assert_eq!(submit_score(&mut c, [1; 32], 1, 6000, [4; 32], 5), Err(ErrorCode::MathOverflow));
    assert!(!c.trade_signal.score_submitted);
    rep.total_weighted_score = 0;
    rep.total_weight = u64::MAX;
    let mut c = score_ctx(fresh_signal(0), Some(rep));
    assert_eq!(submit_score(&mut c, [1; 32], 1, 6000, [4; 32], 5), Err(ErrorCode::MathOverflow));
    rep.total_weight = 0;
    rep.score_count = u32::MAX;
    let mut c = score_ctx(fresh_signal(0), Some(rep));
    assert_eq!(submit_score(&mut c, [1; 32], 1, 6000, [4; 32], 5), Err(ErrorCode::MathOverflow));
}
