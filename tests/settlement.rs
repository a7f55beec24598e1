use n3roai_solana::contexts::{DistributeSettlement, SetSplit, TokenAccountInfo};
use n3roai_solana::errors::ErrorCode;
use n3roai_solana::helpers::validate_split;
use n3roai_solana::keys::Pubkey;
use n3roai_solana::revenue::{distribute_settlement, set_split, Payee, Payout, SettlementPlan};
use n3roai_solana::state::{AgentIdentity, ProtocolConfig, RevenueSplitConfig, RoleAssignment};
use n3roai_solana::constants::ROLE_REVENUE_OPERATOR;

fn key(n: u8) -> Pubkey {
    Pubkey::new_from_array([n; 32])
}

const MINT: u8 = 10;
const VAULT: u8 = 11;
const TREASURY: u8 = 12;
const AUTHORITY: u8 = 13;
const OPERATOR: u8 = 14;
const OWNER: u8 = 15;
const WALLET: u8 = 16;
const AGENT: u8 = 17;
const PLATFORM: u8 = 20;
const REFERRER: u8 = 21;
const RESERVE: u8 = 22;

fn config(fee: u16) -> ProtocolConfig {
    ProtocolConfig {
        admin: key(1),
        settlement_mint: key(MINT),
        settlement_vault: key(VAULT),
        protocol_treasury_token_account: key(TREASURY),
        protocol_fee_bps: fee,
        min_confidence_bps: 5000,
        score_alpha_bps: 2000,
        max_signal_age: 0,
        require_verified_for_score: false,
        enforce_settlement_token: true,
        paused: false,
        vault_authority_bump: 255,
        bump: 254,
    }
}

fn agent() -> AgentIdentity {
    AgentIdentity {
        id: 1,
        owner: key(OWNER),
        agent_wallet: key(WALLET),
        uri: String::from("https://agent.example"),
        metadata_hash: [7; 32],
        created_at: 100,
        updated_at: 100,
        bump: 1,
    }
}

fn split(platform_bps: u16, referrer_bps: u16, reserve_bps: u16) -> RevenueSplitConfig {
    RevenueSplitConfig {
        agent: key(AGENT),
        platform: key(PLATFORM),
        platform_bps,
        referrer: key(REFERRER),
        referrer_bps,
        reserve_vault: key(RESERVE),
        reserve_bps,
        bump: 3,
    }
}

fn account(address: u8, owner: u8) -> TokenAccountInfo {
    TokenAccountInfo { key: key(address), mint: key(MINT), owner: key(owner) }
}

fn settle_ctx(fee: u16, s: RevenueSplitConfig) -> DistributeSettlement {
    DistributeSettlement {
        protocol_config: config(fee),
        operator: key(OPERATOR),
        role_assignment: RoleAssignment {
            member: key(OPERATOR),
            role: ROLE_REVENUE_OPERATOR,
            active: true,
            updated_at: 0,
            bump: 2,
        },
        agent_key: key(AGENT),
        agent_identity: agent(),
        split_config: s,
        settlement_vault: account(VAULT, AUTHORITY),
        vault_authority: key(AUTHORITY),
        agent_token_account: account(30, WALLET),
        platform_token_account: account(31, PLATFORM),
        referrer_token_account: account(32, REFERRER),
        reserve_token_account: account(33, RESERVE),
        protocol_treasury_token_account: account(TREASURY, 40),
        distribution_receipt: None,
        distribution_receipt_bump: 9,
    }
}

fn sum(p: &SettlementPlan) -> u128 {
    p.platform_amount as u128
        + p.referrer_amount as u128
        + p.reserve_amount as u128
        + p.protocol_amount as u128
        + p.agent_amount as u128
}

#[test]
fn fee_and_platform_share_partition() {
    let mut ctx = settle_ctx(500, split(1000, 0, 0));
    let plan = distribute_settlement(&mut ctx, [1; 32], 1_000_000, 500).unwrap();
    assert_eq!(plan.platform_amount, 100_000);
    assert_eq!(plan.protocol_amount, 50_000);
    assert_eq!(plan.agent_amount, 850_000);
    assert_eq!(plan.referrer_amount, 0);
    assert_eq!(plan.reserve_amount, 0);
    let receipt = ctx.distribution_receipt.unwrap();
    assert_eq!(receipt.amount, 1_000_000);
    assert_eq!(receipt.reference, [1; 32]);
    assert_eq!(receipt.agent, key(AGENT));
    assert_eq!(receipt.operator, key(OPERATOR));
    assert_eq!(receipt.distributed_at, 500);
    assert_eq!(receipt.bump, 9);
}

#[test]
fn payouts_skip_zero_amounts_in_fixed_order() {
    let mut ctx = settle_ctx(500, split(1000, 0, 0));
    let plan = distribute_settlement(&mut ctx, [1; 32], 1_000_000, 500).unwrap();
    let payouts = plan.payouts();
    assert_eq!(
        payouts,
        vec![
            Payout { payee: Payee::Platform, amount: 100_000 },
            Payout { payee: Payee::ProtocolTreasury, amount: 50_000 },
            Payout { payee: Payee::Agent, amount: 850_000 },
        ]
    );
}

#[test]
fn payouts_all_five_when_all_positive() {
    let mut ctx = settle_ctx(100, split(1000, 200, 300));
    let plan = distribute_settlement(&mut ctx, [1; 32], 10_000, 0).unwrap();
    let payees: Vec<Payee> = plan.payouts().iter().map(|p| p.payee).collect();
    assert_eq!(
        payees,
        vec![Payee::Platform, Payee::Referrer, Payee::Reserve, Payee::ProtocolTreasury, Payee::Agent]
    );
    assert_eq!(plan.platform_amount, 1000);
    assert_eq!(plan.referrer_amount, 200);
    assert_eq!(plan.reserve_amount, 300);
    assert_eq!(plan.protocol_amount, 100);
    assert_eq!(plan.agent_amount, 8400);
}

#[test]
fn conservation_with_rounding_remainder_to_agent() {
    let cases: [(u64, u16, u16, u16, u16); 5] = [
        (1, 3333, 3333, 3333, 1),
        (999_999, 1234, 4321, 17, 999),
        (7, 2500, 2500, 2500, 2500),
        (u64::MAX, 3000, 3000, 3000, 1000),
        (u64::MAX, 0, 0, 0, 0),
    ];
    for (amount, p, r, s, fee) in cases {
        let mut ctx = settle_ctx(fee, split(p, r, s));
        let plan = distribute_settlement(&mut ctx, [1; 32], amount, 0).unwrap();
        assert_eq!(sum(&plan), amount as u128);
        assert_eq!(plan.platform_amount as u128, amount as u128 * p as u128 / 10_000);
        assert_eq!(plan.protocol_amount as u128, amount as u128 * fee as u128 / 10_000);
    }
    let mut ctx = settle_ctx(1, split(3333, 3333, 3333));
    let plan = distribute_settlement(&mut ctx, [1; 32], 1, 0).unwrap();
    assert_eq!(plan.agent_amount, 1);
}

#[test]
fn duplicate_reference_fails_without_transfers() {
    let mut ctx = settle_ctx(500, split(1000, 0, 0));
    assert!(distribute_settlement(&mut ctx, [5; 32], 1_000, 0).is_ok());
    let receipt = ctx.distribution_receipt;
    let second = distribute_settlement(&mut ctx, [5; 32], 2_000, 1);
    assert_eq!(second, Err(ErrorCode::AccountAlreadyInitialized));
    assert_eq!(ctx.distribution_receipt.unwrap().amount, receipt.unwrap().amount);
    assert_eq!(ctx.distribution_receipt.unwrap().distributed_at, 0);
}

#[test]
fn settlement_fee_over_limit_is_invalid_bps() {
    let mut ctx = settle_ctx(501, split(9000, 0, 500));
    assert_eq!(distribute_settlement(&mut ctx, [1; 32], 100, 0), Err(ErrorCode::InvalidBps));
    assert!(ctx.distribution_receipt.is_none());
    let mut ctx = settle_ctx(500, split(9000, 0, 500));
    assert!(distribute_settlement(&mut ctx, [1; 32], 100, 0).is_ok());
}

#[test]
fn settlement_over_limit_is_invalid_bps_even_for_a_used_reference() {
    let mut ctx = settle_ctx(500, split(1000, 0, 0));
    assert!(distribute_settlement(&mut ctx, [5; 32], 1_000, 0).is_ok());
    ctx.protocol_config.protocol_fee_bps = 9001;
    assert_eq!(distribute_settlement(&mut ctx, [5; 32], 1_000, 1), Err(ErrorCode::InvalidBps));
    assert_eq!(ctx.distribution_receipt.unwrap().distributed_at, 0);
}

#[test]
fn settlement_errors_each_condition() {
    let base = || settle_ctx(500, split(1000, 1000, 1000));
    let run = |mut c: DistributeSettlement| distribute_settlement(&mut c, [1; 32], 100, 0);

    let mut c = base();
    c.protocol_config.paused = true;
    assert_eq!(run(c), Err(ErrorCode::ProtocolPaused));

    let mut c = base();
    c.role_assignment.active = false;
    assert_eq!(run(c), Err(ErrorCode::Unauthorized));
    let mut c = base();
    c.role_assignment.role = 2;
    assert_eq!(run(c), Err(ErrorCode::Unauthorized));
    let mut c = base();
    c.operator = key(99);
    assert_eq!(run(c), Err(ErrorCode::Unauthorized));

    let mut c = base();
    assert_eq!(distribute_settlement(&mut c, [0; 32], 100, 0), Err(ErrorCode::InvalidHash));
    let mut c = base();
    assert_eq!(distribute_settlement(&mut c, [1; 32], 0, 0), Err(ErrorCode::InvalidAmount));

    let mut c = base();
    c.settlement_vault.key = key(98);
    assert_eq!(run(c), Err(ErrorCode::InvalidSettlementVault));
    let mut c = base();
    c.protocol_treasury_token_account.key = key(98);
    assert_eq!(run(c), Err(ErrorCode::InvalidTreasuryAccount));
    let mut c = base();
    c.settlement_vault.mint = key(97);
    assert_eq!(run(c), Err(ErrorCode::SettlementTokenMismatch));
    let mut c = base();
    c.settlement_vault.owner = key(96);
    assert_eq!(run(c), Err(ErrorCode::InvalidTokenAccountOwner));
    let mut c = base();
    c.agent_token_account.owner = key(96);
    assert_eq!(run(c), Err(ErrorCode::InvalidTokenAccountOwner));
    let mut c = base();
    c.agent_token_account.mint = key(95);
    assert_eq!(run(c), Err(ErrorCode::InvalidTokenMint));
    let mut c = base();
    c.platform_token_account.owner = key(96);
    assert_eq!(run(c), Err(ErrorCode::InvalidTokenAccountOwner));
    let mut c = base();
    c.referrer_token_account.mint = key(95);
    assert_eq!(run(c), Err(ErrorCode::InvalidTokenMint));
    let mut c = base();
    c.reserve_token_account.owner = key(96);
    assert_eq!(run(c), Err(ErrorCode::InvalidTokenAccountOwner));
    let mut c = base();
    c.protocol_treasury_token_account.mint = key(95);
    assert_eq!(run(c), Err(ErrorCode::InvalidTokenMint));
}

#[test]
fn settlement_unchecked_destinations_without_share() {
    let mut c = settle_ctx(500, split(1000, 0, 0));
    c.referrer_token_account.owner = key(96);
    c.reserve_token_account.mint = key(95);
    assert!(distribute_settlement(&mut c, [1; 32], 100, 0).is_ok());
}

#[test]
fn settlement_mint_not_enforced() {
    let mut c = settle_ctx(0, split(0, 0, 0));
    c.protocol_config.enforce_settlement_token = false;
    c.settlement_vault.mint = key(50);
    c.agent_token_account.mint = key(50);
    c.protocol_treasury_token_account.mint = key(50);
    let plan = distribute_settlement(&mut c, [1; 32], 77, 0).unwrap();
    assert_eq!(plan.agent_amount, 77);
}

fn split_ctx() -> SetSplit {
    SetSplit {
        protocol_config: config(500),
        agent_key: key(AGENT),
        agent_identity: agent(),
        split_config: None,
        owner: key(OWNER),
        split_config_bump: 4,
    }
}

#[test]
fn set_split_stores_split() {
    let mut c = split_ctx();
    assert_eq!(set_split(&mut c, key(PLATFORM), 4000, key(REFERRER), 3000, key(RESERVE), 3000), Ok(()));
    let s = c.split_config.unwrap();
    assert_eq!(s.agent, key(AGENT));
    assert_eq!(s.platform_bps, 4000);
    assert_eq!(s.referrer, key(REFERRER));
    assert_eq!(s.reserve_bps, 3000);
    assert_eq!(s.bump, 4);
    assert_eq!(set_split(&mut c, key(PLATFORM), 1, Pubkey::zero(), 0, Pubkey::zero(), 0), Ok(()));
    assert_eq!(c.split_config.unwrap().platform_bps, 1);
}

#[test]
fn set_split_over_limit_is_invalid_bps_and_changes_nothing() {
    let mut c = split_ctx();
    assert_eq!(set_split(&mut c, key(PLATFORM), 4000, key(REFERRER), 3000, key(RESERVE), 3001), Err(ErrorCode::InvalidBps));
    assert!(c.split_config.is_none());
    assert_eq!(set_split(&mut c, key(PLATFORM), 10000, key(REFERRER), 0, key(RESERVE), 0), Ok(()));
    assert_eq!(
        set_split(&mut c, key(PLATFORM), u16::MAX, key(REFERRER), u16::MAX, key(RESERVE), u16::MAX),
        Err(ErrorCode::InvalidBps)
    );
    assert_eq!(c.split_config.unwrap().platform_bps, 10000);
}

#[test]
fn set_split_errors() {
    let mut c = split_ctx();
    c.owner = key(99);
    assert_eq!(set_split(&mut c, key(PLATFORM), 1, key(REFERRER), 1, key(RESERVE), 1), Err(ErrorCode::Unauthorized));
    let mut c = split_ctx();
    c.protocol_config.paused = true;
    assert_eq!(set_split(&mut c, key(PLATFORM), 1, key(REFERRER), 1, key(RESERVE), 1), Err(ErrorCode::ProtocolPaused));
    let mut c = split_ctx();
    assert_eq!(set_split(&mut c, key(PLATFORM), 1, Pubkey::zero(), 1, key(RESERVE), 1), Err(ErrorCode::InvalidAddress));
    assert!(c.split_config.is_none());
}

#[test]
fn validate_split_cases() {
    assert_eq!(validate_split(key(1), 5000, key(2), 5000, key(3), 0), Ok(()));
    assert_eq!(validate_split(key(1), 5000, key(2), 5000, key(3), 1), Err(ErrorCode::InvalidBps));
    assert_eq!(validate_split(Pubkey::zero(), 1, key(2), 0, key(3), 0), Err(ErrorCode::InvalidAddress));
    assert_eq!(validate_split(key(1), 0, key(2), 0, Pubkey::zero(), 10), Err(ErrorCode::InvalidAddress));
    assert_eq!(validate_split(Pubkey::zero(), 0, Pubkey::zero(), 0, Pubkey::zero(), 0), Ok(()));
}
