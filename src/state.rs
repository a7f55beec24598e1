//! The durable records of the protocol, as plain values.

use vstd::prelude::*;

use crate::constants::{MAX_BPS, STATUS_NONE};
use crate::keys::{default_key, zero_bytes, zero_hash, Pubkey};

verus! {

/// The registry that numbers agents.
#[derive(Clone, Copy, Debug)]
pub struct IdentityRegistryState {
    pub admin: Pubkey,
    pub next_agent_id: u64,
    pub bump: u8,
}

/// A registered agent: who owns it, where its payouts go, and its metadata.
#[derive(Clone, Debug)]
pub struct AgentIdentity {
    pub id: u64,
    pub owner: Pubkey,
    pub agent_wallet: Pubkey,
    pub uri: String,
    pub metadata_hash: [u8; 32],
    pub created_at: i64,
    pub updated_at: i64,
    pub bump: u8,
}

/// The protocol-wide configuration, read by every action and changed only by
/// its administrator.
#[derive(Clone, Copy, Debug)]
pub struct ProtocolConfig {
    pub admin: Pubkey,
    pub settlement_mint: Pubkey,
    pub settlement_vault: Pubkey,
    pub protocol_treasury_token_account: Pubkey,
    pub protocol_fee_bps: u16,
    pub min_confidence_bps: u16,
    pub score_alpha_bps: u16,
    pub max_signal_age: i64,
    pub require_verified_for_score: bool,
    pub enforce_settlement_token: bool,
    pub paused: bool,
    pub vault_authority_bump: u8,
    pub bump: u8,
}

impl ProtocolConfig {
    /// The configuration's invariant: the fee and the minimum confidence are at
    /// most one hundred percent, and the smoothing factor lies in (0, 10000].
    pub open spec fn wf(&self) -> bool {
        &&& self.protocol_fee_bps <= MAX_BPS
        &&& self.min_confidence_bps <= MAX_BPS
        &&& 0 < self.score_alpha_bps <= MAX_BPS
    }
}

/// A role granted to a member; deactivation flips `active` and keeps the record.
#[derive(Clone, Copy, Debug)]
pub struct RoleAssignment {
    pub member: Pubkey,
    pub role: u8,
    pub active: bool,
    pub updated_at: i64,
    pub bump: u8,
}

/// Where an agent stands in the verification workflow.
#[derive(Clone, Copy, Debug)]
pub struct VerificationRecord {
    pub agent: Pubkey,
    pub status: u8,
    pub operator: Pubkey,
    pub updated_at: i64,
    pub expires_at: i64,
    pub evidence_hash: [u8; 32],
    pub policy_hash: [u8; 32],
    pub bump: u8,
}

impl VerificationRecord {
    /// The record bound to `agent` before anything was decided: status none,
    /// no operator, no expiry, zero hashes.
    pub open spec fn empty_spec(agent: Pubkey, bump: u8) -> VerificationRecord {
        VerificationRecord {
            agent,
            status: STATUS_NONE,
            operator: default_key(),
            updated_at: 0,
            expires_at: 0,
            evidence_hash: zero_hash(),
            policy_hash: zero_hash(),
            bump,
        }
    }

    /// The record bound to `agent` before anything was decided.
    pub fn empty(agent: Pubkey, bump: u8) -> (r: VerificationRecord)
        ensures
            r == VerificationRecord::empty_spec(agent, bump),
    {
        VerificationRecord {
            agent,
            status: STATUS_NONE,
            operator: Pubkey { bytes: [0u8; 32] },
            updated_at: 0,
            expires_at: 0,
            evidence_hash: [0u8; 32],
            policy_hash: [0u8; 32],
            bump,
        }
    }
}

/// How an agent's settlements are shared out, in basis points of each amount.
#[derive(Clone, Copy, Debug)]
pub struct RevenueSplitConfig {
    pub agent: Pubkey,
    pub platform: Pubkey,
    pub platform_bps: u16,
    pub referrer: Pubkey,
    pub referrer_bps: u16,
    pub reserve_vault: Pubkey,
    pub reserve_bps: u16,
    pub bump: u8,
}

impl RevenueSplitConfig {
    /// The split's invariant: the three shares together are at most one
    /// hundred percent, and each party with a share has a non-default key.
    pub open spec fn wf(&self) -> bool {
        &&& self.platform_bps + self.referrer_bps + self.reserve_bps <= MAX_BPS
        &&& self.platform_bps > 0 ==> !zero_bytes(self.platform@)
        &&& self.referrer_bps > 0 ==> !zero_bytes(self.referrer@)
        &&& self.reserve_bps > 0 ==> !zero_bytes(self.reserve_vault@)
    }
}

/// A reported trade outcome, and the one score an oracle may give it.
#[derive(Clone, Copy, Debug)]
pub struct TradeSignal {
    pub agent: Pubkey,
    pub trade_id_hash: [u8; 32],
    pub result_hash: [u8; 32],
    pub context_hash: [u8; 32],
    pub reporter: Pubkey,
    pub submitted_at: i64,
    pub risk_flags: u8,
    pub score_submitted: bool,
    pub score_hash: [u8; 32],
    pub score: u16,
    pub confidence_bps: u16,
    pub oracle: Pubkey,
    pub score_submitted_at: i64,
    pub bump: u8,
}

/// An agent's accumulated trust metrics.
#[derive(Clone, Copy, Debug)]
pub struct ReputationState {
    pub agent: Pubkey,
    pub total_weighted_score: u128,
    pub total_weight: u64,
    pub rolling_score: u16,
    pub last_score: u16,
    pub last_confidence_bps: u16,
    pub score_count: u32,
    pub last_updated: i64,
    pub bump: u8,
}

impl ReputationState {
    /// The state bound to `agent` before its first scored signal: all zero.
    pub open spec fn empty_spec(agent: Pubkey, bump: u8) -> ReputationState {
        ReputationState {
            agent,
            total_weighted_score: 0,
            total_weight: 0,
            rolling_score: 0,
            last_score: 0,
            last_confidence_bps: 0,
            score_count: 0,
            last_updated: 0,
            bump,
        }
    }

    /// The state bound to `agent` before its first scored signal.
    pub fn empty(agent: Pubkey, bump: u8) -> (r: ReputationState)
        ensures
            r == ReputationState::empty_spec(agent, bump),
    {
        ReputationState {
            agent,
            total_weighted_score: 0,
            total_weight: 0,
            rolling_score: 0,
            last_score: 0,
            last_confidence_bps: 0,
            score_count: 0,
            last_updated: 0,
            bump,
        }
    }
}

/// The permanent record of one settlement, keyed by agent and reference.
#[derive(Clone, Copy, Debug)]
pub struct DistributionReceipt {
    pub agent: Pubkey,
    pub reference: [u8; 32],
    pub amount: u64,
    pub operator: Pubkey,
    pub distributed_at: i64,
    pub bump: u8,
}

} // verus!
