//! The records and identities that each action reads and writes.
//!
//! A field of type `Option<..>` is a slot that may be empty: the record under
//! that key, if it exists. Actions that create a record fail when the slot is
//! already filled; actions that create a record on first use fill it with the
//! record's empty value. `*_bump` fields carry the address seed bump that a
//! newly written record keeps.

use vstd::prelude::*;

use crate::errors::ErrorCode;
use crate::keys::Pubkey;
use crate::state::{
    AgentIdentity, DistributionReceipt, IdentityRegistryState, ProtocolConfig, ReputationState,
    RevenueSplitConfig, RoleAssignment, TradeSignal, VerificationRecord,
};

verus! {

/// A token account as settlement reads it: its address, the asset it holds,
/// and the custodian that may move it.
#[derive(Clone, Copy, Debug)]
pub struct TokenAccountInfo {
    pub key: Pubkey,
    pub mint: Pubkey,
    pub owner: Pubkey,
}

/// `r` and `post` are what `outcome` prescribes: on success `Ok` and the new
/// value, on failure the same error and `pre` unchanged.
pub open spec fn takes_effect<C>(
    outcome: Result<C, ErrorCode>,
    pre: C,
    r: Result<(), ErrorCode>,
    post: C,
) -> bool {
    match outcome {
        Ok(next) => r == Ok::<(), ErrorCode>(()) && post == next,
        Err(e) => r == Err::<(), ErrorCode>(e) && post == pre,
    }
}

/// Creating the identity registry.
#[derive(Clone, Copy, Debug)]
pub struct InitializeIdentityRegistry {
    pub identity_registry: Option<IdentityRegistryState>,
    pub admin: Pubkey,
    pub identity_registry_bump: u8,
}

/// Registering a new agent under the registry's next id.
#[derive(Clone, Debug)]
pub struct RegisterAgent {
    pub identity_registry: IdentityRegistryState,
    pub agent_identity: Option<AgentIdentity>,
    pub owner: Pubkey,
    pub agent_identity_bump: u8,
}

/// Changing an agent's payout wallet.
#[derive(Clone, Debug)]
pub struct SetAgentWallet {
    pub agent_identity: AgentIdentity,
    pub owner: Pubkey,
}

/// Changing an agent's URI.
#[derive(Clone, Debug)]
pub struct SetAgentUri {
    pub agent_identity: AgentIdentity,
    pub owner: Pubkey,
}

/// Changing an agent's metadata hash.
#[derive(Clone, Debug)]
pub struct SetAgentMetadataHash {
    pub agent_identity: AgentIdentity,
    pub owner: Pubkey,
}

/// Creating the protocol configuration.
#[derive(Clone, Copy, Debug)]
pub struct InitializeProtocol {
    pub protocol_config: Option<ProtocolConfig>,
    pub admin: Pubkey,
    pub vault_authority_bump: u8,
    pub protocol_config_bump: u8,
}

/// Granting or revoking a role of `member`.
#[derive(Clone, Copy, Debug)]
pub struct SetRole {
    pub protocol_config: ProtocolConfig,
    pub admin: Pubkey,
    pub member: Pubkey,
    pub role_assignment: Option<RoleAssignment>,
    pub role_assignment_bump: u8,
}

/// An administrator's change of the protocol configuration.
#[derive(Clone, Copy, Debug)]
pub struct AdminUpdate {
    pub protocol_config: ProtocolConfig,
    pub admin: Pubkey,
}

/// An agent owner's request to be verified.
#[derive(Clone, Debug)]
pub struct RequestVerification {
    pub protocol_config: ProtocolConfig,
    pub agent_key: Pubkey,
    pub agent_identity: AgentIdentity,
    pub verification_record: Option<VerificationRecord>,
    pub owner: Pubkey,
    pub verification_record_bump: u8,
}

/// A verification operator's decision on an agent.
#[derive(Clone, Copy, Debug)]
pub struct SetVerificationStatus {
    pub protocol_config: ProtocolConfig,
    pub operator: Pubkey,
    pub role_assignment: RoleAssignment,
    pub agent_key: Pubkey,
    pub verification_record: Option<VerificationRecord>,
    pub verification_record_bump: u8,
}

/// An agent owner's revenue split.
#[derive(Clone, Debug)]
pub struct SetSplit {
    pub protocol_config: ProtocolConfig,
    pub agent_key: Pubkey,
    pub agent_identity: AgentIdentity,
    pub split_config: Option<RevenueSplitConfig>,
    pub owner: Pubkey,
    pub split_config_bump: u8,
}

/// A signaler's report of a trade outcome.
#[derive(Clone, Copy, Debug)]
pub struct SubmitSignal {
    pub protocol_config: ProtocolConfig,
    pub signaler: Pubkey,
    pub role_assignment: RoleAssignment,
    pub agent_key: Pubkey,
    pub trade_signal: Option<TradeSignal>,
    pub trade_signal_bump: u8,
}

/// An oracle's score of a reported trade signal.
#[derive(Clone, Copy, Debug)]
pub struct SubmitScore {
    pub protocol_config: ProtocolConfig,
    pub oracle: Pubkey,
    pub role_assignment: RoleAssignment,
    pub agent_key: Pubkey,
    pub trade_signal: TradeSignal,
    pub verification_record: Option<VerificationRecord>,
    pub reputation_state: Option<ReputationState>,
    pub verification_record_bump: u8,
    pub reputation_state_bump: u8,
}

/// A revenue operator's settlement of an amount for an agent.
#[derive(Clone, Debug)]
pub struct DistributeSettlement {
    pub protocol_config: ProtocolConfig,
    pub operator: Pubkey,
    pub role_assignment: RoleAssignment,
    pub agent_key: Pubkey,
    pub agent_identity: AgentIdentity,
    pub split_config: RevenueSplitConfig,
    pub settlement_vault: TokenAccountInfo,
    pub vault_authority: Pubkey,
    pub agent_token_account: TokenAccountInfo,
    pub platform_token_account: TokenAccountInfo,
    pub referrer_token_account: TokenAccountInfo,
    pub reserve_token_account: TokenAccountInfo,
    pub protocol_treasury_token_account: TokenAccountInfo,
    pub distribution_receipt: Option<DistributionReceipt>,
    pub distribution_receipt_bump: u8,
}

} // verus!
