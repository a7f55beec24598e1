//! The named conditions on which an action fails.

use vstd::prelude::*;

verus! {

/// Why an action failed. Every failure leaves the records it touches as they were.
#[derive(Clone, Copy, Debug, PartialEq, Eq, Structural)]
pub enum ErrorCode {
    Unauthorized,
    InvalidAddress,
    InvalidRole,
    InvalidAmount,
    InvalidBps,
    InvalidHash,
    InvalidConfidence,
    InvalidScore,
    InvalidStatus,
    UriTooLong,
    ProtocolPaused,
    MathOverflow,
    VerificationRequired,
    ScoreAlreadySubmitted,
    SignalTooOld,
    SettlementTokenMismatch,
    InvalidSettlementVault,
    InvalidTreasuryAccount,
    InvalidTokenAccountOwner,
    InvalidTokenMint,
    /// A record that may only be created once already exists under its key.
    AccountAlreadyInitialized,
}

impl ErrorCode {
    /// A short human-readable description of the condition.
    pub fn message(&self) -> (r: &'static str) {
        match self {
            ErrorCode::Unauthorized => "Unauthorized",
            ErrorCode::InvalidAddress => "Invalid address",
            ErrorCode::InvalidRole => "Invalid role",
            ErrorCode::InvalidAmount => "Invalid amount",
            ErrorCode::InvalidBps => "Invalid bps",
            ErrorCode::InvalidHash => "Invalid hash",
            ErrorCode::InvalidConfidence => "Invalid confidence",
            ErrorCode::InvalidScore => "Invalid score",
            ErrorCode::InvalidStatus => "Invalid verification status",
            ErrorCode::UriTooLong => "URI is too long",
            ErrorCode::ProtocolPaused => "Protocol is paused",
            ErrorCode::MathOverflow => "Math overflow",
            ErrorCode::VerificationRequired => "Verification is required",
            ErrorCode::ScoreAlreadySubmitted => "Score already submitted",
            ErrorCode::SignalTooOld => "Signal is too old",
            ErrorCode::SettlementTokenMismatch => "Settlement token mismatch",
            ErrorCode::InvalidSettlementVault => "Invalid settlement vault",
            ErrorCode::InvalidTreasuryAccount => "Invalid treasury token account",
            ErrorCode::InvalidTokenAccountOwner => "Invalid token account owner",
            ErrorCode::InvalidTokenMint => "Invalid token mint",
            ErrorCode::AccountAlreadyInitialized => "Account already initialized",
        }
    }
}

} // verus!
