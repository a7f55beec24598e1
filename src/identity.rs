//! The agent registry: numbering agents and keeping their owner, wallet, URI
//! and metadata.

use vstd::prelude::*;

use crate::constants::MAX_URI_LEN;
use crate::contexts::{
    takes_effect, InitializeIdentityRegistry, RegisterAgent, SetAgentMetadataHash, SetAgentUri,
    SetAgentWallet,
};
use crate::errors::ErrorCode;
use crate::keys::{zero_bytes, Pubkey};
use crate::state::{AgentIdentity, IdentityRegistryState};

verus! {

/// The length of a string in UTF-8 bytes.
pub open spec fn byte_len(s: Seq<char>) -> nat {
    vstd::utf8::encode_utf8(s).len()
}

/// What creating the registry does: the slot must be free; then it holds a
/// registry administered by the caller whose next id is 1.
pub open spec fn initialize_registry_result(ctx: InitializeIdentityRegistry) -> Result<
    InitializeIdentityRegistry,
    ErrorCode,
> {
    if ctx.identity_registry is Some {
        Err(ErrorCode::AccountAlreadyInitialized)
    } else {
        Ok(
            InitializeIdentityRegistry {
                identity_registry: Some(
                    IdentityRegistryState {
                        admin: ctx.admin,
                        next_agent_id: 1,
                        bump: ctx.identity_registry_bump,
                    },
                ),
                ..ctx
            },
        )
    }
}

/// What registering an agent does: the agent slot must be free, the wallet
/// non-default, the URI at most `MAX_URI_LEN` bytes and the next id below the
/// largest; then the agent takes the next id and the registry counts on.
pub open spec fn register_result(
    ctx: RegisterAgent,
    agent_wallet: Pubkey,
    uri: String,
    metadata_hash: [u8; 32],
    now: i64,
) -> Result<RegisterAgent, ErrorCode> {
    if ctx.agent_identity is Some {
        Err(ErrorCode::AccountAlreadyInitialized)
    } else if zero_bytes(agent_wallet@) {
        Err(ErrorCode::InvalidAddress)
    } else if byte_len(uri@) > MAX_URI_LEN {
        Err(ErrorCode::UriTooLong)
    } else if ctx.identity_registry.next_agent_id == u64::MAX {
        Err(ErrorCode::MathOverflow)
    } else {
        Ok(
            RegisterAgent {
                identity_registry: IdentityRegistryState {
                    next_agent_id: (ctx.identity_registry.next_agent_id + 1) as u64,
                    ..ctx.identity_registry
                },
                agent_identity: Some(
                    AgentIdentity {
                        id: ctx.identity_registry.next_agent_id,
                        owner: ctx.owner,
                        agent_wallet,
                        uri,
                        metadata_hash,
                        created_at: now,
                        updated_at: now,
                        bump: ctx.agent_identity_bump,
                    },
                ),
                ..ctx
            },
        )
    }
}

/// Creates the identity registry, administered by the caller; the first
/// agent gets id 1.
pub fn initialize_identity_registry(ctx: &mut InitializeIdentityRegistry) -> (r: Result<
    (),
    ErrorCode,
>)
    ensures
        takes_effect(initialize_registry_result(*old(ctx)), *old(ctx), r, *final(ctx)),
{
    if ctx.identity_registry.is_some() {
        return Err(ErrorCode::AccountAlreadyInitialized);
    }
    ctx.identity_registry = Some(
        IdentityRegistryState { admin: ctx.admin, next_agent_id: 1, bump: ctx.identity_registry_bump },
    );
    Ok(())
}

/// Registers an agent owned by the caller under the registry's next id. The
/// wallet must be non-default and the URI at most `MAX_URI_LEN` bytes.
pub fn register_agent(
    ctx: &mut RegisterAgent,
    agent_wallet: Pubkey,
    uri: String,
    metadata_hash: [u8; 32],
    now: i64,
) -> (r: Result<(), ErrorCode>)
    ensures
        takes_effect(
            register_result(*old(ctx), agent_wallet, uri, metadata_hash, now),
            *old(ctx),
            r,
            *final(ctx),
        ),
{
    if ctx.agent_identity.is_some() {
        return Err(ErrorCode::AccountAlreadyInitialized);
    }
    if agent_wallet.is_default() {
        return Err(ErrorCode::InvalidAddress);
    }
    if uri.as_str().as_bytes().len() > MAX_URI_LEN {
        return Err(ErrorCode::UriTooLong);
    }
    let id = ctx.identity_registry.next_agent_id;
    let next = match id.checked_add(1) {
        Some(n) => n,
        None => return Err(ErrorCode::MathOverflow),
    };
    ctx.identity_registry.next_agent_id = next;
    ctx.agent_identity = Some(
        AgentIdentity {
            id,
            owner: ctx.owner,
            agent_wallet,
            uri,
            metadata_hash,
            created_at: now,
            updated_at: now,
            bump: ctx.agent_identity_bump,
        },
    );
    Ok(())
}

/// Changes an agent's payout wallet. Only the agent's owner may; the wallet
/// must be non-default.
pub fn set_agent_wallet(ctx: &mut SetAgentWallet, new_wallet: Pubkey, now: i64) -> (r: Result<
    (),
    ErrorCode,
>)
    ensures
        takes_effect(
            if old(ctx).agent_identity.owner@ != old(ctx).owner@ {
                Err(ErrorCode::Unauthorized)
            } else if zero_bytes(new_wallet@) {
                Err(ErrorCode::InvalidAddress)
            } else {
                Ok(
                    SetAgentWallet {
                        agent_identity: AgentIdentity {
                            agent_wallet: new_wallet,
                            updated_at: now,
                            ..old(ctx).agent_identity
                        },
                        ..*old(ctx)
                    },
                )
            },
            *old(ctx),
            r,
            *final(ctx),
        ),
{
    if !(ctx.agent_identity.owner == ctx.owner) {
        return Err(ErrorCode::Unauthorized);
    }
    if new_wallet.is_default() {
        return Err(ErrorCode::InvalidAddress);
    }
    ctx.agent_identity.agent_wallet = new_wallet;
    ctx.agent_identity.updated_at = now;
    Ok(())
}

/// Changes an agent's URI. Only the agent's owner may; the URI must be at
/// most `MAX_URI_LEN` bytes.
pub fn set_agent_uri(ctx: &mut SetAgentUri, uri: String, now: i64) -> (r: Result<(), ErrorCode>)
    ensures
        takes_effect(
            if old(ctx).agent_identity.owner@ != old(ctx).owner@ {
                Err(ErrorCode::Unauthorized)
            } else if byte_len(uri@) > MAX_URI_LEN {
                Err(ErrorCode::UriTooLong)
            } else {
                Ok(
                    SetAgentUri {
                        agent_identity: AgentIdentity {
                            uri,
                            updated_at: now,
                            ..old(ctx).agent_identity
                        },
                        ..*old(ctx)
                    },
                )
            },
            *old(ctx),
            r,
            *final(ctx),
        ),
{
    if !(ctx.agent_identity.owner == ctx.owner) {
        return Err(ErrorCode::Unauthorized);
    }
    if uri.as_str().as_bytes().len() > MAX_URI_LEN {
        return Err(ErrorCode::UriTooLong);
    }
    ctx.agent_identity.uri = uri;
    ctx.agent_identity.updated_at = now;
    Ok(())
}

/// Changes an agent's metadata hash. Only the agent's owner may.
pub fn set_agent_metadata_hash(
    ctx: &mut SetAgentMetadataHash,
    metadata_hash: [u8; 32],
    now: i64,
) -> (r: Result<(), ErrorCode>)
    ensures
        takes_effect(
            if old(ctx).agent_identity.owner@ != old(ctx).owner@ {
                Err(ErrorCode::Unauthorized)
            } else {
                Ok(
                    SetAgentMetadataHash {
                        agent_identity: AgentIdentity {
                            metadata_hash,
                            updated_at: now,
                            ..old(ctx).agent_identity
                        },
                        ..*old(ctx)
                    },
                )
            },
            *old(ctx),
            r,
            *final(ctx),
        ),
{
    if !(ctx.agent_identity.owner == ctx.owner) {
        return Err(ErrorCode::Unauthorized);
    }
    ctx.agent_identity.metadata_hash = metadata_hash;
    ctx.agent_identity.updated_at = now;
    Ok(())
}

} // verus!
