//! Typed errors of the SDK: contract error codes, their decoding, and their text.
use vstd::prelude::*;
use crate::fmt::{dec, dec_signed, str_debug_text, push_decimal, push_signed_decimal, push_str_debug};
use crate::text::{ascii_lower, seq_contains, ascii_lower_chars, chars_contain_str, str_eq};

verus! {

/// Contract-specific error codes returned by the on-chain contracts.
///
/// Each variant is prefixed with the contract name so that overlapping numeric
/// codes (every contract starts from 1) can be unambiguously represented.
#[derive(Debug, Clone, Copy, PartialEq, Eq, Structural)]
pub enum ContractErrorCode {
    // ── Registry (codes 1-11) ────────────────────────────────────────────────
    /// The name is already registered and cannot be registered again.
    RegistryAlreadyRegistered,
    /// The name was not found in the registry.
    RegistryNotFound,
    /// The name has expired but is still in its grace period and not yet claimable.
    RegistryNotYetClaimable,
    /// The name is not currently active (e.g. expired).
    RegistryNotActive,
    /// The caller is not authorized to perform this registry action.
    RegistryUnauthorized,
    /// The provided metadata URI exceeds the maximum allowed length.
    RegistryMetadataTooLong,
    /// The input failed registry validation (name format, boundaries, etc.).
    RegistryValidation,
    /// The expiry timestamp is not in the future.
    RegistryInvalidExpiry,
    /// The grace period end is before the expiry timestamp.
    RegistryInvalidGracePeriod,
    /// The registry contract upgrade failed.
    RegistryUpgradeFailed,
    /// The name is locked for dispute resolution.
    RegistryLocked,
    // ── Registrar (codes 1-13) ───────────────────────────────────────────────
    /// The fee paid is less than the required registration fee.
    RegistrarInsufficientFee,
    /// The name was not found in the registrar.
    RegistrarNotFound,
    /// The name is not in a renewable state.
    RegistrarNotRenewable,
    /// The name is already registered.
    RegistrarAlreadyRegistered,
    /// The name label is reserved and cannot be publicly registered.
    RegistrarReserved,
    /// The caller is not authorized for this registrar action.
    RegistrarUnauthorized,
    /// The input failed registrar validation.
    RegistrarValidation,
    /// The name is claimable (expired past grace period) rather than renewable.
    RegistrarRegistrationClaimable,
    /// The registrar contract is not yet initialized.
    RegistrarNotInitialized,
    /// The registrar contract is already initialized.
    RegistrarAlreadyInitialized,
    /// The rate limit for registrations has been exceeded.
    RegistrarRateLimitExceeded,
    /// The registrar contract upgrade failed.
    RegistrarUpgradeFailed,
    /// The registration quote has expired; request a fresh quote.
    RegistrarQuoteExpired,
    // ── Resolver (codes 1-10) ────────────────────────────────────────────────
    /// The input failed resolver validation.
    ResolverValidation,
    /// The requested resolver record was not found.
    ResolverRecordNotFound,
    /// The caller is not authorized for this resolver action.
    ResolverUnauthorized,
    /// The name already has the maximum number of text records.
    ResolverTooManyTextRecords,
    /// The resolver contract is not yet initialized.
    ResolverNotInitialized,
    /// The text record value exceeds the maximum allowed length.
    ResolverTextRecordValueTooLong,
    /// The chain identifier is not supported by this resolver.
    ResolverInvalidChain,
    /// The text record key is invalid or not normalized.
    ResolverInvalidKey,
    /// The batch request contains too many operations.
    ResolverBatchTooLarge,
    /// The resolver contract upgrade failed.
    ResolverUpgradeFailed,
    // ── Subdomain (codes 1-7) ────────────────────────────────────────────────
    /// The input failed subdomain validation.
    SubdomainValidation,
    /// The parent domain was not found in the registry.
    SubdomainParentNotFound,
    /// The subdomain already exists under this parent.
    SubdomainAlreadyExists,
    /// The subdomain was not found.
    SubdomainNotFound,
    /// The caller is not authorized for this subdomain action.
    SubdomainUnauthorized,
    /// The subdomain contract upgrade failed.
    SubdomainUpgradeFailed,
    /// The requested subdomain path exceeds the maximum nesting depth.
    SubdomainDepthLimitExceeded,
    // ── Auction (codes 1-10) ─────────────────────────────────────────────────
    /// The input failed auction validation.
    AuctionValidation,
    /// An auction for this name already exists.
    AuctionAlreadyExists,
    /// No auction was found for this name.
    AuctionNotFound,
    /// The auction is already closed and cannot accept bids.
    AuctionClosed,
    /// The auction has not started yet.
    AuctionNotStarted,
    /// The auction has not ended yet; settlement is not possible.
    AuctionNotEnded,
    /// The auction was already settled.
    AuctionAlreadySettled,
    /// The bid amount is below the reserve price or minimum increment.
    AuctionInvalidBid,
    /// The auction contract upgrade failed.
    AuctionUpgradeFailed,
    /// A reentrancy guard blocked this auction operation.
    AuctionReentrancyDetected,
    // ── Bridge (codes 1-6) ───────────────────────────────────────────────────
    /// The input failed bridge validation.
    BridgeValidation,
    /// The target chain is not supported by the bridge.
    BridgeUnsupportedChain,
    /// The bridge contract upgrade failed.
    BridgeUpgradeFailed,
    /// The caller is not authorized for this bridge action.
    BridgeUnauthorized,
    /// The requested chain or route was not found.
    BridgeNotFound,
    /// The chain or route already exists in the bridge.
    BridgeAlreadyExists,
    // ── NFT (codes 1-5) ──────────────────────────────────────────────────────
    /// The token has already been minted.
    NftAlreadyMinted,
    /// The token was not found.
    NftNotFound,
    /// The caller is not authorized to modify or inspect this token.
    NftUnauthorized,
    /// The NFT contract upgrade failed.
    NftUpgradeFailed,
    /// The NFT contract is not yet initialized.
    NftNotInitialized,
    // ── Generic / legacy ─────────────────────────────────────────────────────
    /// Legacy alias — name not found (generic, contract unknown).
    NameNotFound,
    /// Legacy alias — caller is not the owner (generic, contract unknown).
    NotOwner,
    /// Legacy alias — the record or name has expired (generic, contract unknown).
    Expired,
    /// Legacy alias — the label is invalid (generic, contract unknown).
    InvalidLabel,
    /// The contract returned an unrecognised error code.
    Other(u32),
}

/// The contracts whose error codes the SDK knows.
#[derive(Debug, Clone, Copy, PartialEq, Eq, Structural)]
pub enum ContractKind {
    Registry,
    Registrar,
    Resolver,
    Subdomain,
    Auction,
    Bridge,
    Nft,
}

/// The contract named by its short lower-case identifier.
pub open spec fn contract_kind_of(name: Seq<char>) -> Option<ContractKind> {
    if name == "registry"@ { Some(ContractKind::Registry) }
    else if name == "registrar"@ { Some(ContractKind::Registrar) }
    else if name == "resolver"@ { Some(ContractKind::Resolver) }
    else if name == "subdomain"@ { Some(ContractKind::Subdomain) }
    else if name == "auction"@ { Some(ContractKind::Auction) }
    else if name == "bridge"@ { Some(ContractKind::Bridge) }
    else if name == "nft"@ { Some(ContractKind::Nft) }
    else { None }
}

/// The `(contract, code)` pair that each contract-specific variant stands for.
pub open spec fn error_origin(e: ContractErrorCode) -> Option<(ContractKind, u32)> {
    match e {
        ContractErrorCode::RegistryAlreadyRegistered => Some((ContractKind::Registry, 1)),
        ContractErrorCode::RegistryNotFound => Some((ContractKind::Registry, 2)),
        ContractErrorCode::RegistryNotYetClaimable => Some((ContractKind::Registry, 3)),
        ContractErrorCode::RegistryNotActive => Some((ContractKind::Registry, 4)),
        ContractErrorCode::RegistryUnauthorized => Some((ContractKind::Registry, 5)),
        ContractErrorCode::RegistryMetadataTooLong => Some((ContractKind::Registry, 6)),
        ContractErrorCode::RegistryValidation => Some((ContractKind::Registry, 7)),
        ContractErrorCode::RegistryInvalidExpiry => Some((ContractKind::Registry, 8)),
        ContractErrorCode::RegistryInvalidGracePeriod => Some((ContractKind::Registry, 9)),
        ContractErrorCode::RegistryUpgradeFailed => Some((ContractKind::Registry, 10)),
        ContractErrorCode::RegistryLocked => Some((ContractKind::Registry, 11)),
        ContractErrorCode::RegistrarInsufficientFee => Some((ContractKind::Registrar, 1)),
        ContractErrorCode::RegistrarNotFound => Some((ContractKind::Registrar, 2)),
        ContractErrorCode::RegistrarNotRenewable => Some((ContractKind::Registrar, 3)),
        ContractErrorCode::RegistrarAlreadyRegistered => Some((ContractKind::Registrar, 4)),
        ContractErrorCode::RegistrarReserved => Some((ContractKind::Registrar, 5)),
        ContractErrorCode::RegistrarUnauthorized => Some((ContractKind::Registrar, 6)),
        ContractErrorCode::RegistrarValidation => Some((ContractKind::Registrar, 7)),
        ContractErrorCode::RegistrarRegistrationClaimable => Some((ContractKind::Registrar, 8)),
        ContractErrorCode::RegistrarNotInitialized => Some((ContractKind::Registrar, 9)),
        ContractErrorCode::RegistrarAlreadyInitialized => Some((ContractKind::Registrar, 10)),
        ContractErrorCode::RegistrarRateLimitExceeded => Some((ContractKind::Registrar, 11)),
        ContractErrorCode::RegistrarUpgradeFailed => Some((ContractKind::Registrar, 12)),
        ContractErrorCode::RegistrarQuoteExpired => Some((ContractKind::Registrar, 13)),
        ContractErrorCode::ResolverValidation => Some((ContractKind::Resolver, 1)),
        ContractErrorCode::ResolverRecordNotFound => Some((ContractKind::Resolver, 2)),
        ContractErrorCode::ResolverUnauthorized => Some((ContractKind::Resolver, 3)),
        ContractErrorCode::ResolverTooManyTextRecords => Some((ContractKind::Resolver, 4)),
        ContractErrorCode::ResolverNotInitialized => Some((ContractKind::Resolver, 5)),
        ContractErrorCode::ResolverTextRecordValueTooLong => Some((ContractKind::Resolver, 6)),
        ContractErrorCode::ResolverInvalidChain => Some((ContractKind::Resolver, 7)),
        ContractErrorCode::ResolverInvalidKey => Some((ContractKind::Resolver, 8)),
        ContractErrorCode::ResolverBatchTooLarge => Some((ContractKind::Resolver, 9)),
        ContractErrorCode::ResolverUpgradeFailed => Some((ContractKind::Resolver, 10)),
        ContractErrorCode::SubdomainValidation => Some((ContractKind::Subdomain, 1)),
        ContractErrorCode::SubdomainParentNotFound => Some((ContractKind::Subdomain, 2)),
        ContractErrorCode::SubdomainAlreadyExists => Some((ContractKind::Subdomain, 3)),
        ContractErrorCode::SubdomainNotFound => Some((ContractKind::Subdomain, 4)),
        ContractErrorCode::SubdomainUnauthorized => Some((ContractKind::Subdomain, 5)),
        ContractErrorCode::SubdomainUpgradeFailed => Some((ContractKind::Subdomain, 6)),
        ContractErrorCode::SubdomainDepthLimitExceeded => Some((ContractKind::Subdomain, 7)),
        ContractErrorCode::AuctionValidation => Some((ContractKind::Auction, 1)),
        ContractErrorCode::AuctionAlreadyExists => Some((ContractKind::Auction, 2)),
        ContractErrorCode::AuctionNotFound => Some((ContractKind::Auction, 3)),
        ContractErrorCode::AuctionClosed => Some((ContractKind::Auction, 4)),
        ContractErrorCode::AuctionNotStarted => Some((ContractKind::Auction, 5)),
        ContractErrorCode::AuctionNotEnded => Some((ContractKind::Auction, 6)),
        ContractErrorCode::AuctionAlreadySettled => Some((ContractKind::Auction, 7)),
        ContractErrorCode::AuctionInvalidBid => Some((ContractKind::Auction, 8)),
        ContractErrorCode::AuctionUpgradeFailed => Some((ContractKind::Auction, 9)),
        ContractErrorCode::AuctionReentrancyDetected => Some((ContractKind::Auction, 10)),
        ContractErrorCode::BridgeValidation => Some((ContractKind::Bridge, 1)),
        ContractErrorCode::BridgeUnsupportedChain => Some((ContractKind::Bridge, 2)),
        ContractErrorCode::BridgeUpgradeFailed => Some((ContractKind::Bridge, 3)),
        ContractErrorCode::BridgeUnauthorized => Some((ContractKind::Bridge, 4)),
        ContractErrorCode::BridgeNotFound => Some((ContractKind::Bridge, 5)),
        ContractErrorCode::BridgeAlreadyExists => Some((ContractKind::Bridge, 6)),
        ContractErrorCode::NftAlreadyMinted => Some((ContractKind::Nft, 1)),
        ContractErrorCode::NftNotFound => Some((ContractKind::Nft, 2)),
        ContractErrorCode::NftUnauthorized => Some((ContractKind::Nft, 3)),
        ContractErrorCode::NftUpgradeFailed => Some((ContractKind::Nft, 4)),
        ContractErrorCode::NftNotInitialized => Some((ContractKind::Nft, 5)),
        _ => None,
    }
}

/// The variant that a `(contract, code)` pair decodes to.
pub open spec fn decoded(kind: Option<ContractKind>, code: u32) -> ContractErrorCode {
    match kind {
        Some(ContractKind::Registry) => {
            if code == 1 { ContractErrorCode::RegistryAlreadyRegistered }
            else if code == 2 { ContractErrorCode::RegistryNotFound }
            else if code == 3 { ContractErrorCode::RegistryNotYetClaimable }
            else if code == 4 { ContractErrorCode::RegistryNotActive }
            else if code == 5 { ContractErrorCode::RegistryUnauthorized }
            else if code == 6 { ContractErrorCode::RegistryMetadataTooLong }
            else if code == 7 { ContractErrorCode::RegistryValidation }
            else if code == 8 { ContractErrorCode::RegistryInvalidExpiry }
            else if code == 9 { ContractErrorCode::RegistryInvalidGracePeriod }
            else if code == 10 { ContractErrorCode::RegistryUpgradeFailed }
            else if code == 11 { ContractErrorCode::RegistryLocked }
            else { ContractErrorCode::Other(code) }
        },
        Some(ContractKind::Registrar) => {
            if code == 1 { ContractErrorCode::RegistrarInsufficientFee }
            else if code == 2 { ContractErrorCode::RegistrarNotFound }
            else if code == 3 { ContractErrorCode::RegistrarNotRenewable }
            else if code == 4 { ContractErrorCode::RegistrarAlreadyRegistered }
            else if code == 5 { ContractErrorCode::RegistrarReserved }
            else if code == 6 { ContractErrorCode::RegistrarUnauthorized }
            else if code == 7 { ContractErrorCode::RegistrarValidation }
            else if code == 8 { ContractErrorCode::RegistrarRegistrationClaimable }
            else if code == 9 { ContractErrorCode::RegistrarNotInitialized }
            else if code == 10 { ContractErrorCode::RegistrarAlreadyInitialized }
            else if code == 11 { ContractErrorCode::RegistrarRateLimitExceeded }
            else if code == 12 { ContractErrorCode::RegistrarUpgradeFailed }
            else if code == 13 { ContractErrorCode::RegistrarQuoteExpired }
            else { ContractErrorCode::Other(code) }
        },
        Some(ContractKind::Resolver) => {
            if code == 1 { ContractErrorCode::ResolverValidation }
            else if code == 2 { ContractErrorCode::ResolverRecordNotFound }
            else if code == 3 { ContractErrorCode::ResolverUnauthorized }
            else if code == 4 { ContractErrorCode::ResolverTooManyTextRecords }
            else if code == 5 { ContractErrorCode::ResolverNotInitialized }
            else if code == 6 { ContractErrorCode::ResolverTextRecordValueTooLong }
            else if code == 7 { ContractErrorCode::ResolverInvalidChain }
            else if code == 8 { ContractErrorCode::ResolverInvalidKey }
            else if code == 9 { ContractErrorCode::ResolverBatchTooLarge }
            else if code == 10 { ContractErrorCode::ResolverUpgradeFailed }
            else { ContractErrorCode::Other(code) }
        },
        Some(ContractKind::Subdomain) => {
            if code == 1 { ContractErrorCode::SubdomainValidation }
            else if code == 2 { ContractErrorCode::SubdomainParentNotFound }
            else if code == 3 { ContractErrorCode::SubdomainAlreadyExists }
            else if code == 4 { ContractErrorCode::SubdomainNotFound }
            else if code == 5 { ContractErrorCode::SubdomainUnauthorized }
            else if code == 6 { ContractErrorCode::SubdomainUpgradeFailed }
            else if code == 7 { ContractErrorCode::SubdomainDepthLimitExceeded }
            else { ContractErrorCode::Other(code) }
        },
        Some(ContractKind::Auction) => {
            if code == 1 { ContractErrorCode::AuctionValidation }
            else if code == 2 { ContractErrorCode::AuctionAlreadyExists }
            else if code == 3 { ContractErrorCode::AuctionNotFound }
            else if code == 4 { ContractErrorCode::AuctionClosed }
            else if code == 5 { ContractErrorCode::AuctionNotStarted }
            else if code == 6 { ContractErrorCode::AuctionNotEnded }
            else if code == 7 { ContractErrorCode::AuctionAlreadySettled }
            else if code == 8 { ContractErrorCode::AuctionInvalidBid }
            else if code == 9 { ContractErrorCode::AuctionUpgradeFailed }
            else if code == 10 { ContractErrorCode::AuctionReentrancyDetected }
            else { ContractErrorCode::Other(code) }
        },
        Some(ContractKind::Bridge) => {
            if code == 1 { ContractErrorCode::BridgeValidation }
            else if code == 2 { ContractErrorCode::BridgeUnsupportedChain }
            else if code == 3 { ContractErrorCode::BridgeUpgradeFailed }
            else if code == 4 { ContractErrorCode::BridgeUnauthorized }
            else if code == 5 { ContractErrorCode::BridgeNotFound }
            else if code == 6 { ContractErrorCode::BridgeAlreadyExists }
            else { ContractErrorCode::Other(code) }
        },
        Some(ContractKind::Nft) => {
            if code == 1 { ContractErrorCode::NftAlreadyMinted }
            else if code == 2 { ContractErrorCode::NftNotFound }
            else if code == 3 { ContractErrorCode::NftUnauthorized }
            else if code == 4 { ContractErrorCode::NftUpgradeFailed }
            else if code == 5 { ContractErrorCode::NftNotInitialized }
            else { ContractErrorCode::Other(code) }
        },
        None => ContractErrorCode::Other(code),
    }
}

/// The descriptive text of an error code.
pub open spec fn code_message(e: ContractErrorCode) -> Seq<char> {
    match e {
        ContractErrorCode::RegistryAlreadyRegistered => "registry: name is already registered"@,
        ContractErrorCode::RegistryNotFound => "registry: name was not found"@,
        ContractErrorCode::RegistryNotYetClaimable => "registry: name is expired but still in grace period"@,
        ContractErrorCode::RegistryNotActive => "registry: name is not currently active"@,
        ContractErrorCode::RegistryUnauthorized => "registry: caller is not authorized for this name"@,
        ContractErrorCode::RegistryMetadataTooLong => "registry: metadata URI exceeds the allowed length"@,
        ContractErrorCode::RegistryValidation => "registry: input failed validation"@,
        ContractErrorCode::RegistryInvalidExpiry => "registry: expires_at must be in the future"@,
        ContractErrorCode::RegistryInvalidGracePeriod => "registry: grace_period_ends_at must be >= expires_at"@,
        ContractErrorCode::RegistryUpgradeFailed => "registry: contract upgrade failed"@,
        ContractErrorCode::RegistryLocked => "registry: name is locked for dispute resolution"@,
        ContractErrorCode::RegistrarInsufficientFee => "registrar: fee paid is below the required amount"@,
        ContractErrorCode::RegistrarNotFound => "registrar: name was not found"@,
        ContractErrorCode::RegistrarNotRenewable => "registrar: name is not in a renewable state"@,
        ContractErrorCode::RegistrarAlreadyRegistered => "registrar: name is already registered"@,
        ContractErrorCode::RegistrarReserved => "registrar: name label is reserved"@,
        ContractErrorCode::RegistrarUnauthorized => "registrar: caller is not authorized"@,
        ContractErrorCode::RegistrarValidation => "registrar: input failed validation"@,
        ContractErrorCode::RegistrarRegistrationClaimable => "registrar: name is claimable, not renewable"@,
        ContractErrorCode::RegistrarNotInitialized => "registrar: contract is not initialized"@,
        ContractErrorCode::RegistrarAlreadyInitialized => "registrar: contract is already initialized"@,
        ContractErrorCode::RegistrarRateLimitExceeded => "registrar: registration rate limit exceeded"@,
        ContractErrorCode::RegistrarUpgradeFailed => "registrar: contract upgrade failed"@,
        ContractErrorCode::RegistrarQuoteExpired => "registrar: registration quote has expired"@,
        ContractErrorCode::ResolverValidation => "resolver: input failed validation"@,
        ContractErrorCode::ResolverRecordNotFound => "resolver: record was not found"@,
        ContractErrorCode::ResolverUnauthorized => "resolver: caller is not authorized"@,
        ContractErrorCode::ResolverTooManyTextRecords => "resolver: name has too many text records"@,
        ContractErrorCode::ResolverNotInitialized => "resolver: contract is not initialized"@,
        ContractErrorCode::ResolverTextRecordValueTooLong => "resolver: text record value is too long"@,
        ContractErrorCode::ResolverInvalidChain => "resolver: chain identifier is not supported"@,
        ContractErrorCode::ResolverInvalidKey => "resolver: text record key is invalid"@,
        ContractErrorCode::ResolverBatchTooLarge => "resolver: batch request contains too many operations"@,
        ContractErrorCode::ResolverUpgradeFailed => "resolver: contract upgrade failed"@,
        ContractErrorCode::SubdomainValidation => "subdomain: input failed validation"@,
        ContractErrorCode::SubdomainParentNotFound => "subdomain: parent domain was not found"@,
        ContractErrorCode::SubdomainAlreadyExists => "subdomain: subdomain already exists"@,
        ContractErrorCode::SubdomainNotFound => "subdomain: subdomain was not found"@,
        ContractErrorCode::SubdomainUnauthorized => "subdomain: caller is not authorized"@,
        ContractErrorCode::SubdomainUpgradeFailed => "subdomain: contract upgrade failed"@,
        ContractErrorCode::SubdomainDepthLimitExceeded => "subdomain: path exceeds maximum nesting depth"@,
        ContractErrorCode::AuctionValidation => "auction: input failed validation"@,
        ContractErrorCode::AuctionAlreadyExists => "auction: an auction already exists for this name"@,
        ContractErrorCode::AuctionNotFound => "auction: no auction found for this name"@,
        ContractErrorCode::AuctionClosed => "auction: auction is closed and cannot accept bids"@,
        ContractErrorCode::AuctionNotStarted => "auction: auction has not started yet"@,
        ContractErrorCode::AuctionNotEnded => "auction: auction has not ended yet"@,
        ContractErrorCode::AuctionAlreadySettled => "auction: auction was already settled"@,
        ContractErrorCode::AuctionInvalidBid => "auction: bid is below the reserve price or minimum increment"@,
        ContractErrorCode::AuctionUpgradeFailed => "auction: contract upgrade failed"@,
        ContractErrorCode::AuctionReentrancyDetected => "auction: reentrancy guard blocked this operation"@,
        ContractErrorCode::BridgeValidation => "bridge: input failed validation"@,
        ContractErrorCode::BridgeUnsupportedChain => "bridge: target chain is not supported"@,
        ContractErrorCode::BridgeUpgradeFailed => "bridge: contract upgrade failed"@,
        ContractErrorCode::BridgeUnauthorized => "bridge: caller is not authorized"@,
        ContractErrorCode::BridgeNotFound => "bridge: chain or route was not found"@,
        ContractErrorCode::BridgeAlreadyExists => "bridge: chain or route already exists"@,
        ContractErrorCode::NftAlreadyMinted => "nft: token has already been minted"@,
        ContractErrorCode::NftNotFound => "nft: token was not found"@,
        ContractErrorCode::NftUnauthorized => "nft: caller is not authorized"@,
        ContractErrorCode::NftUpgradeFailed => "nft: contract upgrade failed"@,
        ContractErrorCode::NftNotInitialized => "nft: contract is not initialized"@,
        ContractErrorCode::NameNotFound => "name was not found"@,
        ContractErrorCode::NotOwner => "caller is not the owner"@,
        ContractErrorCode::Expired => "name or record has expired"@,
        ContractErrorCode::InvalidLabel => "label is not a valid XLM name"@,
        ContractErrorCode::Other(code) => "unknown contract error code "@ + dec(code as nat),
    }
}

fn contract_kind(name: &str) -> (r: Option<ContractKind>)
    ensures
        r == contract_kind_of(name@),
{
    if str_eq(name, "registry") {
        Some(ContractKind::Registry)
    } else if str_eq(name, "registrar") {
        Some(ContractKind::Registrar)
    } else if str_eq(name, "resolver") {
        Some(ContractKind::Resolver)
    } else if str_eq(name, "subdomain") {
        Some(ContractKind::Subdomain)
    } else if str_eq(name, "auction") {
        Some(ContractKind::Auction)
    } else if str_eq(name, "bridge") {
        Some(ContractKind::Bridge)
    } else if str_eq(name, "nft") {
        Some(ContractKind::Nft)
    } else {
        None
    }
}

/// Decode a contract error code given the short lower-case name of the contract
/// that returned it (`"registry"`, `"registrar"`, `"resolver"`, `"subdomain"`,
/// `"auction"`, `"bridge"` or `"nft"`). Unknown pairs give [`ContractErrorCode::Other`].
pub fn decode_error(contract: &str, code: u32) -> (r: ContractErrorCode)
    ensures
        r == decoded(contract_kind_of(contract@), code),
{
    match contract_kind(contract) {
        Some(ContractKind::Registry) => match code {
            1 => ContractErrorCode::RegistryAlreadyRegistered,
            2 => ContractErrorCode::RegistryNotFound,
            3 => ContractErrorCode::RegistryNotYetClaimable,
            4 => ContractErrorCode::RegistryNotActive,
            5 => ContractErrorCode::RegistryUnauthorized,
            6 => ContractErrorCode::RegistryMetadataTooLong,
            7 => ContractErrorCode::RegistryValidation,
            8 => ContractErrorCode::RegistryInvalidExpiry,
            9 => ContractErrorCode::RegistryInvalidGracePeriod,
            10 => ContractErrorCode::RegistryUpgradeFailed,
            11 => ContractErrorCode::RegistryLocked,
            _ => ContractErrorCode::Other(code),
        },
        Some(ContractKind::Registrar) => match code {
            1 => ContractErrorCode::RegistrarInsufficientFee,
            2 => ContractErrorCode::RegistrarNotFound,
            3 => ContractErrorCode::RegistrarNotRenewable,
            4 => ContractErrorCode::RegistrarAlreadyRegistered,
            5 => ContractErrorCode::RegistrarReserved,
            6 => ContractErrorCode::RegistrarUnauthorized,
            7 => ContractErrorCode::RegistrarValidation,
            8 => ContractErrorCode::RegistrarRegistrationClaimable,
            9 => ContractErrorCode::RegistrarNotInitialized,
            10 => ContractErrorCode::RegistrarAlreadyInitialized,
            11 => ContractErrorCode::RegistrarRateLimitExceeded,
            12 => ContractErrorCode::RegistrarUpgradeFailed,
            13 => ContractErrorCode::RegistrarQuoteExpired,
            _ => ContractErrorCode::Other(code),
        },
        Some(ContractKind::Resolver) => match code {
            1 => ContractErrorCode::ResolverValidation,
            2 => ContractErrorCode::ResolverRecordNotFound,
            3 => ContractErrorCode::ResolverUnauthorized,
            4 => ContractErrorCode::ResolverTooManyTextRecords,
            5 => ContractErrorCode::ResolverNotInitialized,
            6 => ContractErrorCode::ResolverTextRecordValueTooLong,
            7 => ContractErrorCode::ResolverInvalidChain,
            8 => ContractErrorCode::ResolverInvalidKey,
            9 => ContractErrorCode::ResolverBatchTooLarge,
            10 => ContractErrorCode::ResolverUpgradeFailed,
            _ => ContractErrorCode::Other(code),
        },
        Some(ContractKind::Subdomain) => match code {
            1 => ContractErrorCode::SubdomainValidation,
            2 => ContractErrorCode::SubdomainParentNotFound,
            3 => ContractErrorCode::SubdomainAlreadyExists,
            4 => ContractErrorCode::SubdomainNotFound,
            5 => ContractErrorCode::SubdomainUnauthorized,
            6 => ContractErrorCode::SubdomainUpgradeFailed,
            7 => ContractErrorCode::SubdomainDepthLimitExceeded,
            _ => ContractErrorCode::Other(code),
        },
        Some(ContractKind::Auction) => match code {
            1 => ContractErrorCode::AuctionValidation,
            2 => ContractErrorCode::AuctionAlreadyExists,
            3 => ContractErrorCode::AuctionNotFound,
            4 => ContractErrorCode::AuctionClosed,
            5 => ContractErrorCode::AuctionNotStarted,
            6 => ContractErrorCode::AuctionNotEnded,
            7 => ContractErrorCode::AuctionAlreadySettled,
            8 => ContractErrorCode::AuctionInvalidBid,
            9 => ContractErrorCode::AuctionUpgradeFailed,
            10 => ContractErrorCode::AuctionReentrancyDetected,
            _ => ContractErrorCode::Other(code),
        },
        Some(ContractKind::Bridge) => match code {
            1 => ContractErrorCode::BridgeValidation,
            2 => ContractErrorCode::BridgeUnsupportedChain,
            3 => ContractErrorCode::BridgeUpgradeFailed,
            4 => ContractErrorCode::BridgeUnauthorized,
            5 => ContractErrorCode::BridgeNotFound,
            6 => ContractErrorCode::BridgeAlreadyExists,
            _ => ContractErrorCode::Other(code),
        },
        Some(ContractKind::Nft) => match code {
            1 => ContractErrorCode::NftAlreadyMinted,
            2 => ContractErrorCode::NftNotFound,
            3 => ContractErrorCode::NftUnauthorized,
            4 => ContractErrorCode::NftUpgradeFailed,
            5 => ContractErrorCode::NftNotInitialized,
            _ => ContractErrorCode::Other(code),
        },
        None => ContractErrorCode::Other(code),
    }
}

impl ContractErrorCode {
    /// The descriptive text of this code (its `Display` form).
    pub fn to_display_string(&self) -> (r: String)
        ensures
            r@ == code_message(*self),
    {
        match self {
            ContractErrorCode::RegistryAlreadyRegistered => String::from_str("registry: name is already registered"),
            ContractErrorCode::RegistryNotFound => String::from_str("registry: name was not found"),
            ContractErrorCode::RegistryNotYetClaimable => String::from_str("registry: name is expired but still in grace period"),
            ContractErrorCode::RegistryNotActive => String::from_str("registry: name is not currently active"),
            ContractErrorCode::RegistryUnauthorized => String::from_str("registry: caller is not authorized for this name"),
            ContractErrorCode::RegistryMetadataTooLong => String::from_str("registry: metadata URI exceeds the allowed length"),
            ContractErrorCode::RegistryValidation => String::from_str("registry: input failed validation"),
            ContractErrorCode::RegistryInvalidExpiry => String::from_str("registry: expires_at must be in the future"),
            ContractErrorCode::RegistryInvalidGracePeriod => String::from_str("registry: grace_period_ends_at must be >= expires_at"),
            ContractErrorCode::RegistryUpgradeFailed => String::from_str("registry: contract upgrade failed"),
            ContractErrorCode::RegistryLocked => String::from_str("registry: name is locked for dispute resolution"),
            ContractErrorCode::RegistrarInsufficientFee => String::from_str("registrar: fee paid is below the required amount"),
            ContractErrorCode::RegistrarNotFound => String::from_str("registrar: name was not found"),
            ContractErrorCode::RegistrarNotRenewable => String::from_str("registrar: name is not in a renewable state"),
            ContractErrorCode::RegistrarAlreadyRegistered => String::from_str("registrar: name is already registered"),
            ContractErrorCode::RegistrarReserved => String::from_str("registrar: name label is reserved"),
            ContractErrorCode::RegistrarUnauthorized => String::from_str("registrar: caller is not authorized"),
            ContractErrorCode::RegistrarValidation => String::from_str("registrar: input failed validation"),
            ContractErrorCode::RegistrarRegistrationClaimable => String::from_str("registrar: name is claimable, not renewable"),
            ContractErrorCode::RegistrarNotInitialized => String::from_str("registrar: contract is not initialized"),
            ContractErrorCode::RegistrarAlreadyInitialized => String::from_str("registrar: contract is already initialized"),
            ContractErrorCode::RegistrarRateLimitExceeded => String::from_str("registrar: registration rate limit exceeded"),
            ContractErrorCode::RegistrarUpgradeFailed => String::from_str("registrar: contract upgrade failed"),
            ContractErrorCode::RegistrarQuoteExpired => String::from_str("registrar: registration quote has expired"),
            ContractErrorCode::ResolverValidation => String::from_str("resolver: input failed validation"),
            ContractErrorCode::ResolverRecordNotFound => String::from_str("resolver: record was not found"),
            ContractErrorCode::ResolverUnauthorized => String::from_str("resolver: caller is not authorized"),
            ContractErrorCode::ResolverTooManyTextRecords => String::from_str("resolver: name has too many text records"),
            ContractErrorCode::ResolverNotInitialized => String::from_str("resolver: contract is not initialized"),
            ContractErrorCode::ResolverTextRecordValueTooLong => String::from_str("resolver: text record value is too long"),
            ContractErrorCode::ResolverInvalidChain => String::from_str("resolver: chain identifier is not supported"),
            ContractErrorCode::ResolverInvalidKey => String::from_str("resolver: text record key is invalid"),
            ContractErrorCode::ResolverBatchTooLarge => String::from_str("resolver: batch request contains too many operations"),
            ContractErrorCode::ResolverUpgradeFailed => String::from_str("resolver: contract upgrade failed"),
            ContractErrorCode::SubdomainValidation => String::from_str("subdomain: input failed validation"),
            ContractErrorCode::SubdomainParentNotFound => String::from_str("subdomain: parent domain was not found"),
            ContractErrorCode::SubdomainAlreadyExists => String::from_str("subdomain: subdomain already exists"),
            ContractErrorCode::SubdomainNotFound => String::from_str("subdomain: subdomain was not found"),
            ContractErrorCode::SubdomainUnauthorized => String::from_str("subdomain: caller is not authorized"),
            ContractErrorCode::SubdomainUpgradeFailed => String::from_str("subdomain: contract upgrade failed"),
            ContractErrorCode::SubdomainDepthLimitExceeded => String::from_str("subdomain: path exceeds maximum nesting depth"),
            ContractErrorCode::AuctionValidation => String::from_str("auction: input failed validation"),
            ContractErrorCode::AuctionAlreadyExists => String::from_str("auction: an auction already exists for this name"),
            ContractErrorCode::AuctionNotFound => String::from_str("auction: no auction found for this name"),
            ContractErrorCode::AuctionClosed => String::from_str("auction: auction is closed and cannot accept bids"),
            ContractErrorCode::AuctionNotStarted => String::from_str("auction: auction has not started yet"),
            ContractErrorCode::AuctionNotEnded => String::from_str("auction: auction has not ended yet"),
            ContractErrorCode::AuctionAlreadySettled => String::from_str("auction: auction was already settled"),
            ContractErrorCode::AuctionInvalidBid => String::from_str("auction: bid is below the reserve price or minimum increment"),
            ContractErrorCode::AuctionUpgradeFailed => String::from_str("auction: contract upgrade failed"),
            ContractErrorCode::AuctionReentrancyDetected => String::from_str("auction: reentrancy guard blocked this operation"),
            ContractErrorCode::BridgeValidation => String::from_str("bridge: input failed validation"),
            ContractErrorCode::BridgeUnsupportedChain => String::from_str("bridge: target chain is not supported"),
            ContractErrorCode::BridgeUpgradeFailed => String::from_str("bridge: contract upgrade failed"),
            ContractErrorCode::BridgeUnauthorized => String::from_str("bridge: caller is not authorized"),
            ContractErrorCode::BridgeNotFound => String::from_str("bridge: chain or route was not found"),
            ContractErrorCode::BridgeAlreadyExists => String::from_str("bridge: chain or route already exists"),
            ContractErrorCode::NftAlreadyMinted => String::from_str("nft: token has already been minted"),
            ContractErrorCode::NftNotFound => String::from_str("nft: token was not found"),
            ContractErrorCode::NftUnauthorized => String::from_str("nft: caller is not authorized"),
            ContractErrorCode::NftUpgradeFailed => String::from_str("nft: contract upgrade failed"),
            ContractErrorCode::NftNotInitialized => String::from_str("nft: contract is not initialized"),
            ContractErrorCode::NameNotFound => String::from_str("name was not found"),
            ContractErrorCode::NotOwner => String::from_str("caller is not the owner"),
            ContractErrorCode::Expired => String::from_str("name or record has expired"),
            ContractErrorCode::InvalidLabel => String::from_str("label is not a valid XLM name"),
            ContractErrorCode::Other(code) => {
                let mut s = String::from_str("unknown contract error code ");
                push_decimal(&mut s, *code as u64);
                s
            },
        }
    }
}


/// The code that [`decode_error_generic`] gives for a bare number.
pub open spec fn generic_decoded(code: u32) -> ContractErrorCode {
    if code == 1 { ContractErrorCode::NameNotFound }
    else if code == 2 { ContractErrorCode::NotOwner }
    else if code == 3 { ContractErrorCode::Expired }
    else if code == 4 { ContractErrorCode::InvalidLabel }
    else { ContractErrorCode::Other(code) }
}

/// Decode a raw contract error code without knowing which contract produced it,
/// with the legacy four-code mapping. Prefer [`decode_error`] when the
/// originating contract is known.
pub fn decode_error_generic(code: u32) -> (r: ContractErrorCode)
    ensures
        r == generic_decoded(code),
{
    match code {
        1 => ContractErrorCode::NameNotFound,
        2 => ContractErrorCode::NotOwner,
        3 => ContractErrorCode::Expired,
        4 => ContractErrorCode::InvalidLabel,
        _ => ContractErrorCode::Other(code),
    }
}

/// Every contract-specific code is decoded from exactly the `(contract, code)`
/// pair it stands for.
pub proof fn lemma_decode_recovers_origin(e: ContractErrorCode)
    requires
        error_origin(e) is Some,
    ensures
        decoded(Some(error_origin(e).unwrap().0), error_origin(e).unwrap().1) == e,
{
}

/// Decoding a pair either gives `Other(code)` or the variant whose origin is that
/// very pair: codes of different contracts never collide.
pub proof fn lemma_decoded_has_origin(kind: ContractKind, code: u32)
    ensures
        decoded(Some(kind), code) == ContractErrorCode::Other(code)
            || error_origin(decoded(Some(kind), code)) == Some((kind, code)),
{
}

/// An unknown contract name always decodes to `Other(code)`, whatever the code.
pub proof fn lemma_unknown_contract_is_other(name: Seq<char>, code: u32)
    requires
        contract_kind_of(name) is None,
    ensures
        decoded(contract_kind_of(name), code) == ContractErrorCode::Other(code),
{
}

/// Rate limiting gave up after some retries.
#[derive(Debug, Clone, Copy, PartialEq, Eq, Structural)]
pub struct RateLimitError {
    pub retries: u32,
    pub total_wait_ms: u64,
}

/// The text of a rate-limit failure.
pub open spec fn rate_limit_message(e: RateLimitError) -> Seq<char> {
    "rate limit exceeded after "@ + dec(e.retries as nat) + " retries (waited "@
        + dec(e.total_wait_ms as nat) + "ms)"@
}

impl RateLimitError {
    /// The text of this failure (its `Display` form).
    pub fn to_display_string(&self) -> (r: String)
        ensures
            r@ == rate_limit_message(*self),
    {
        let mut s = String::from_str("rate limit exceeded after ");
        push_decimal(&mut s, self.retries as u64);
        s.append(" retries (waited ");
        push_decimal(&mut s, self.total_wait_ms);
        s.append("ms)");
        s
    }
}

/// Why a transaction could not be signed.
#[derive(Debug, Clone, PartialEq, Eq)]
pub enum SigningError {
    Rejected { reason: String },
    InvalidKey { reason: String },
    ExternalFailure { reason: String },
    MalformedEnvelope { reason: String },
}

/// The text of a signing failure.
pub open spec fn signing_message(e: SigningError) -> Seq<char> {
    match e {
        SigningError::Rejected { reason } => "signing rejected: "@ + reason@,
        SigningError::InvalidKey { reason } => "invalid signing key: "@ + reason@,
        SigningError::ExternalFailure { reason } => "external signer failed: "@ + reason@,
        SigningError::MalformedEnvelope { reason } => "malformed transaction envelope: "@ + reason@,
    }
}

impl SigningError {
    /// The text of this failure (its `Display` form).
    pub fn to_display_string(&self) -> (r: String)
        ensures
            r@ == signing_message(*self),
    {
        let (mut s, reason) = match self {
            SigningError::Rejected { reason } => (String::from_str("signing rejected: "), reason),
            SigningError::InvalidKey { reason } => (String::from_str("invalid signing key: "), reason),
            SigningError::ExternalFailure { reason } => (String::from_str("external signer failed: "), reason),
            SigningError::MalformedEnvelope { reason } => (String::from_str("malformed transaction envelope: "), reason),
        };
        s.append(reason.as_str());
        s
    }
}

/// An error reported by the SDK.
#[derive(Debug)]
pub enum SdkError {
    InvalidRequest(String),
    Transport(String),
    Ingestion(String),
    ContractError(ContractErrorCode),
    /// The network passphrase returned by the RPC server does not
    /// match the passphrase configured in the SDK client.
    NetworkPassphraseMismatch { configured: String, rpc_reported: String },
    /// The network passphrase embedded in a transaction does not
    /// match the passphrase configured in the SDK client.
    TransactionPassphraseMismatch { configured: String, in_transaction: String },
    ContractInvocationFailed { operation: &'static str, reason: String, tx_hash: Option<String> },
    SimulationFailed { operation: &'static str, reason: String },
    InsufficientFee { operation: &'static str, required: i64, available: i64 },
    TransactionTimeout { operation: &'static str, ledger_submitted: u32 },
    SigningFailed { operation: &'static str, source: SigningError },
    RateLimitExceeded(RateLimitError),
}

/// The text of an SDK error (its `Display` form).
pub open spec fn sdk_message(e: SdkError) -> Seq<char> {
    match e {
        SdkError::InvalidRequest(m) => "invalid request: "@ + m@,
        SdkError::Transport(m) => "transport error: "@ + m@,
        SdkError::Ingestion(m) => "ingestion error: "@ + m@,
        SdkError::ContractError(code) => "contract error: "@ + code_message(code),
        SdkError::NetworkPassphraseMismatch { configured, rpc_reported } =>
            "network passphrase mismatch: configured="@ + str_debug_text(configured@)
                + ", rpc_reported="@ + str_debug_text(rpc_reported@),
        SdkError::TransactionPassphraseMismatch { configured, in_transaction } =>
            "transaction passphrase mismatch: configured="@ + str_debug_text(configured@)
                + ", in_transaction="@ + str_debug_text(in_transaction@),
        SdkError::ContractInvocationFailed { operation, reason, tx_hash } => match tx_hash {
            Some(tx) => operation@ + " failed: "@ + reason@ + " (tx: "@ + tx@ + ")"@,
            None => operation@ + " failed: "@ + reason@,
        },
        SdkError::SimulationFailed { operation, reason } =>
            operation@ + " simulation failed: "@ + reason@,
        SdkError::InsufficientFee { operation, required, available } =>
            operation@ + " has insufficient fee: required "@ + dec_signed(required as int)
                + ", available "@ + dec_signed(available as int),
        SdkError::TransactionTimeout { operation, ledger_submitted } =>
            operation@ + " timed out after submission at ledger "@ + dec(ledger_submitted as nat),
        SdkError::SigningFailed { operation, source } =>
            operation@ + " signing failed: "@ + signing_message(source),
        SdkError::RateLimitExceeded(details) => rate_limit_message(details),
    }
}

impl SdkError {
    /// The text of this error (its `Display` form).
    pub fn to_display_string(&self) -> (r: String)
        ensures
            r@ == sdk_message(*self),
    {
        match self {
            SdkError::InvalidRequest(m) => {
                let mut s = String::from_str("invalid request: ");
                s.append(m.as_str());
                s
            },
            SdkError::Transport(m) => {
                let mut s = String::from_str("transport error: ");
                s.append(m.as_str());
                s
            },
            SdkError::Ingestion(m) => {
                let mut s = String::from_str("ingestion error: ");
                s.append(m.as_str());
                s
            },
            SdkError::ContractError(code) => {
                let mut s = String::from_str("contract error: ");
                let t = code.to_display_string();
                s.append(t.as_str());
                s
            },
            SdkError::NetworkPassphraseMismatch { configured, rpc_reported } => {
                let mut s = String::from_str("network passphrase mismatch: configured=");
                push_str_debug(&mut s, configured.as_str());
                s.append(", rpc_reported=");
                push_str_debug(&mut s, rpc_reported.as_str());
                s
            },
            SdkError::TransactionPassphraseMismatch { configured, in_transaction } => {
                let mut s = String::from_str("transaction passphrase mismatch: configured=");
                push_str_debug(&mut s, configured.as_str());
                s.append(", in_transaction=");
                push_str_debug(&mut s, in_transaction.as_str());
                s
            },
            SdkError::ContractInvocationFailed { operation, reason, tx_hash } => {
                let mut s = String::from_str(operation);
                s.append(" failed: ");
                s.append(reason.as_str());
                match tx_hash {
                    Some(tx) => {
                        s.append(" (tx: ");
                        s.append(tx.as_str());
                        s.append(")");
                    },
                    None => {},
                }
                s
            },
            SdkError::SimulationFailed { operation, reason } => {
                let mut s = String::from_str(operation);
                s.append(" simulation failed: ");
                s.append(reason.as_str());
                s
            },
            SdkError::InsufficientFee { operation, required, available } => {
                let mut s = String::from_str(operation);
                s.append(" has insufficient fee: required ");
                push_signed_decimal(&mut s, *required);
                s.append(", available ");
                push_signed_decimal(&mut s, *available);
                s
            },
            SdkError::TransactionTimeout { operation, ledger_submitted } => {
                let mut s = String::from_str(operation);
                s.append(" timed out after submission at ledger ");
                push_decimal(&mut s, *ledger_submitted as u64);
                s
            },
            SdkError::SigningFailed { operation, source } => {
                let mut s = String::from_str(operation);
                s.append(" signing failed: ");
                let t = source.to_display_string();
                s.append(t.as_str());
                s
            },
            SdkError::RateLimitExceeded(details) => details.to_display_string(),
        }
    }
}

/// Whether a transport failure message is worth retrying: every message is,
/// except the permanent configuration and parsing failures (an invalid RPC URL,
/// a JSON decoding error, an invalid response from the server). Rate limiting,
/// server-side 5xx failures, network blips and unclassified messages all retry.
pub open spec fn transport_retryable(message: Seq<char>) -> bool {
    let m = ascii_lower(message);
    !(seq_contains(m, "invalid rpc url"@) || seq_contains(m, "json decoding error"@)
        || seq_contains(m, "invalid response from server"@))
}

/// Whether an RPC call that failed with `e` may be retried with backoff.
pub open spec fn retryable(e: SdkError) -> bool {
    match e {
        SdkError::TransactionTimeout { .. } => true,
        SdkError::Transport(m) => transport_retryable(m@),
        _ => false,
    }
}

fn transport_is_retryable(message: &str) -> (r: bool)
    ensures
        r == transport_retryable(message@),
{
    let msg = ascii_lower_chars(message);
    let permanent = chars_contain_str(msg.as_slice(), "invalid rpc url")
        || chars_contain_str(msg.as_slice(), "json decoding error")
        || chars_contain_str(msg.as_slice(), "invalid response from server");
    !permanent
}

/// Returns `true` when an RPC call may be retried with exponential backoff.
pub fn is_retryable(err: &SdkError) -> (r: bool)
    ensures
        r == retryable(*err),
{
    match err {
        SdkError::TransactionTimeout { .. } => true,
        SdkError::Transport(message) => transport_is_retryable(message.as_str()),
        _ => false,
    }
}


/// Only two kinds of failure are retried: a transaction that timed out, and a
/// transport failure that is not a permanent one. Every other error, a rate
/// limit that already gave up among them, is final.
pub proof fn lemma_only_timeouts_and_transport_retry(e: SdkError)
    ensures
        retryable(e) ==> (e is TransactionTimeout || e is Transport),
        e is TransactionTimeout ==> retryable(e),
        e is RateLimitExceeded ==> !retryable(e),
        e is ContractError ==> !retryable(e),
        e is InvalidRequest ==> !retryable(e),
        e is SimulationFailed ==> !retryable(e),
        e is InsufficientFee ==> !retryable(e),
        e is SigningFailed ==> !retryable(e),
        e is NetworkPassphraseMismatch ==> !retryable(e),
        e is TransactionPassphraseMismatch ==> !retryable(e),
        e is ContractInvocationFailed ==> !retryable(e),
        e is Ingestion ==> !retryable(e),
{
}

} // verus!
