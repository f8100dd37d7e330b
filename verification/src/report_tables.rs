//! The report templates for contract error codes: by typed code, and by the raw
//! code a contract of a given domain returns.
use vstd::prelude::*;
use crate::errors::ContractErrorCode;
use crate::report::ErrorDomain;

verus! {

/// The template for a typed code: text before the subject, whether the subject
/// is named, text after it, the suggestion, the document, and the technical
/// fallback (empty for `Other`, whose fallback carries its number).
pub open spec fn code_phrase(code: ContractErrorCode) -> (Seq<char>, bool, Seq<char>, Seq<char>, Seq<char>, Seq<char>) {
    match code {
        ContractErrorCode::NameNotFound => (""@, true, " was not found"@, "Use `xlm-ns whois <name>` or `xlm-ns resolve <name>` to confirm the current record"@, "docs/error-reference.md"@, "contract error: NameNotFound"@),
        ContractErrorCode::NotOwner => (""@, true, " is owned by a different account"@, "Use the current owner or the admin signer, then retry"@, "docs/error-reference.md"@, "contract error: NotOwner"@),
        ContractErrorCode::Expired => (""@, true, " has expired"@, "Renew it during the grace period, or register it again if it is claimable"@, "docs/error-reference.md"@, "contract error: Expired"@),
        ContractErrorCode::InvalidLabel => (""@, true, " is not a valid XLM name label"@, "Use a lowercase label with only supported characters"@, "docs/error-reference.md"@, "contract error: InvalidLabel"@),
        ContractErrorCode::RegistryAlreadyRegistered => (""@, true, " is already registered"@, "Use `xlm-ns whois <name>` to inspect the current owner and expiry"@, "docs/error-reference.md"@, "contract error: RegistryAlreadyRegistered"@),
        ContractErrorCode::RegistryNotFound => (""@, true, " was not found in the registry"@, "Check the name spelling or use `xlm-ns resolve <name>`"@, "docs/error-reference.md"@, "contract error: RegistryNotFound"@),
        ContractErrorCode::RegistryNotYetClaimable => (""@, true, " is not yet claimable (grace period active)"@, "Wait until the grace period ends, then register it"@, "docs/error-reference.md"@, "contract error: RegistryNotYetClaimable"@),
        ContractErrorCode::RegistryNotActive => (""@, true, " is not currently active"@, "Renew the name or wait until it becomes active again"@, "docs/error-reference.md"@, "contract error: RegistryNotActive"@),
        ContractErrorCode::RegistryUnauthorized => ("The registry action is unauthorized"@, false, ""@, "Use the current owner or admin signer profile"@, "docs/error-reference.md"@, "contract error: RegistryUnauthorized"@),
        ContractErrorCode::RegistryMetadataTooLong => ("The metadata URI is too long"@, false, ""@, "Shorten the metadata URI and retry"@, "docs/error-reference.md"@, "contract error: RegistryMetadataTooLong"@),
        ContractErrorCode::RegistryValidation => (""@, true, " failed registry validation"@, "Check the name format and registry inputs"@, "docs/error-reference.md"@, "contract error: RegistryValidation"@),
        ContractErrorCode::RegistryInvalidExpiry => ("The expiry timestamp is invalid"@, false, ""@, "Use a future expiry time and retry"@, "docs/error-reference.md"@, "contract error: RegistryInvalidExpiry"@),
        ContractErrorCode::RegistryInvalidGracePeriod => ("The grace period value is invalid"@, false, ""@, "Choose a grace period that is >= the expiry timestamp"@, "docs/error-reference.md"@, "contract error: RegistryInvalidGracePeriod"@),
        ContractErrorCode::RegistryUpgradeFailed => ("The registry upgrade failed"@, false, ""@, "Verify the admin signer and try the upgrade again"@, "docs/error-reference.md"@, "contract error: RegistryUpgradeFailed"@),
        ContractErrorCode::RegistryLocked => (""@, true, " is locked for dispute resolution"@, "Wait for the lock to expire or ask the admin to remove it"@, "docs/error-reference.md"@, "contract error: RegistryLocked"@),
        ContractErrorCode::RegistrarInsufficientFee => (""@, true, " requires a higher registration fee"@, "Fund the account, then rerun `xlm-ns quote <name> 1` to verify the cost"@, "docs/error-reference.md"@, "contract error: RegistrarInsufficientFee"@),
        ContractErrorCode::RegistrarNotFound => (""@, true, " is not registered"@, "Use `xlm-ns whois <name>` to inspect the current record"@, "docs/error-reference.md"@, "contract error: RegistrarNotFound"@),
        ContractErrorCode::RegistrarNotRenewable => (""@, true, " is not renewable in its current state"@, "Renew it during the grace period, or wait until it becomes claimable"@, "docs/error-reference.md"@, "contract error: RegistrarNotRenewable"@),
        ContractErrorCode::RegistrarAlreadyRegistered => (""@, true, " is already registered"@, "Use `xlm-ns whois <name>` to inspect the current owner and expiry"@, "docs/error-reference.md"@, "contract error: RegistrarAlreadyRegistered"@),
        ContractErrorCode::RegistrarReserved => (""@, true, " is reserved"@, "Choose another label or remove the reservation if you control the admin"@, "docs/error-reference.md"@, "contract error: RegistrarReserved"@),
        ContractErrorCode::RegistrarUnauthorized => ("The signer is not authorized for this registrar action"@, false, ""@, "Switch to the owner or admin signer profile and retry"@, "docs/error-reference.md"@, "contract error: RegistrarUnauthorized"@),
        ContractErrorCode::RegistrarValidation => (""@, true, " failed registrar validation"@, "Check the label format and try again"@, "docs/error-reference.md"@, "contract error: RegistrarValidation"@),
        ContractErrorCode::RegistrarRegistrationClaimable => (""@, true, " is claimable rather than renewable"@, "Register it as a new name instead of renewing it"@, "docs/error-reference.md"@, "contract error: RegistrarRegistrationClaimable"@),
        ContractErrorCode::RegistrarNotInitialized => ("The registrar is not initialized"@, false, ""@, "Deploy or initialize the registrar contract, then retry"@, "docs/error-reference.md"@, "contract error: RegistrarNotInitialized"@),
        ContractErrorCode::RegistrarAlreadyInitialized => ("The registrar was already initialized"@, false, ""@, "Skip initialization and use the existing contract state"@, "docs/error-reference.md"@, "contract error: RegistrarAlreadyInitialized"@),
        ContractErrorCode::RegistrarRateLimitExceeded => ("You hit the registrar rate limit"@, false, ""@, "Wait for the window to reset, or spread registrations out more evenly"@, "docs/error-reference.md"@, "contract error: RegistrarRateLimitExceeded"@),
        ContractErrorCode::RegistrarUpgradeFailed => ("The registrar upgrade failed"@, false, ""@, "Verify the admin signer and wasm hash, then retry"@, "docs/error-reference.md"@, "contract error: RegistrarUpgradeFailed"@),
        ContractErrorCode::RegistrarQuoteExpired => ("The registration quote for "@, true, " has expired"@, "Run `xlm-ns quote <name> <years>` to get a fresh quote, then retry"@, "docs/error-reference.md"@, "contract error: RegistrarQuoteExpired"@),
        ContractErrorCode::ResolverValidation => (""@, true, " failed resolver validation"@, "Check the name, text key, and resolver inputs"@, "docs/error-reference.md"@, "contract error: ResolverValidation"@),
        ContractErrorCode::ResolverRecordNotFound => (""@, true, " has no resolver record"@, "Use `xlm-ns whois <name>` or register a resolver record first"@, "docs/error-reference.md"@, "contract error: ResolverRecordNotFound"@),
        ContractErrorCode::ResolverUnauthorized => ("The resolver action is unauthorized"@, false, ""@, "Use the owner signer profile and retry"@, "docs/error-reference.md"@, "contract error: ResolverUnauthorized"@),
        ContractErrorCode::ResolverTooManyTextRecords => ("Too many text records are attached to this name"@, false, ""@, "Remove some records or split them across fewer updates"@, "docs/error-reference.md"@, "contract error: ResolverTooManyTextRecords"@),
        ContractErrorCode::ResolverNotInitialized => ("The resolver is not initialized"@, false, ""@, "Deploy or initialize the resolver contract, then retry"@, "docs/error-reference.md"@, "contract error: ResolverNotInitialized"@),
        ContractErrorCode::ResolverTextRecordValueTooLong => ("The text record value is too long"@, false, ""@, "Shorten the text record value and try again"@, "docs/error-reference.md"@, "contract error: ResolverTextRecordValueTooLong"@),
        ContractErrorCode::ResolverInvalidChain => ("The requested chain is not supported"@, false, ""@, "Pick one of the supported chains and retry"@, "docs/error-reference.md"@, "contract error: ResolverInvalidChain"@),
        ContractErrorCode::ResolverInvalidKey => ("The text record key is invalid"@, false, ""@, "Use a normalized, lowercase key"@, "docs/error-reference.md"@, "contract error: ResolverInvalidKey"@),
        ContractErrorCode::ResolverBatchTooLarge => ("The batch payload is too large"@, false, ""@, "Split the request into smaller batches"@, "docs/error-reference.md"@, "contract error: ResolverBatchTooLarge"@),
        ContractErrorCode::ResolverUpgradeFailed => ("The resolver upgrade failed"@, false, ""@, "Verify the admin signer and wasm hash, then retry"@, "docs/error-reference.md"@, "contract error: ResolverUpgradeFailed"@),
        ContractErrorCode::SubdomainValidation => (""@, true, " failed subdomain validation"@, "Check the parent domain and label format"@, "docs/error-reference.md"@, "contract error: SubdomainValidation"@),
        ContractErrorCode::SubdomainParentNotFound => (""@, true, " has no registered parent domain"@, "Register the parent domain first, then retry"@, "docs/error-reference.md"@, "contract error: SubdomainParentNotFound"@),
        ContractErrorCode::SubdomainAlreadyExists => (""@, true, " already exists"@, "Choose another subdomain label"@, "docs/error-reference.md"@, "contract error: SubdomainAlreadyExists"@),
        ContractErrorCode::SubdomainNotFound => (""@, true, " was not found"@, "Double-check the subdomain name and parent domain"@, "docs/error-reference.md"@, "contract error: SubdomainNotFound"@),
        ContractErrorCode::SubdomainUnauthorized => ("The subdomain action is unauthorized"@, false, ""@, "Use the parent owner or authorized controller signer"@, "docs/error-reference.md"@, "contract error: SubdomainUnauthorized"@),
        ContractErrorCode::SubdomainUpgradeFailed => ("The subdomain upgrade failed"@, false, ""@, "Verify the admin signer and try again"@, "docs/error-reference.md"@, "contract error: SubdomainUpgradeFailed"@),
        ContractErrorCode::SubdomainDepthLimitExceeded => ("The requested subdomain exceeds the allowed depth"@, false, ""@, "Use a shorter subdomain path"@, "docs/error-reference.md"@, "contract error: SubdomainDepthLimitExceeded"@),
        ContractErrorCode::AuctionValidation => (""@, true, " failed auction validation"@, "Check the auction name, timestamps, and reserve price"@, "docs/error-reference.md"@, "contract error: AuctionValidation"@),
        ContractErrorCode::AuctionAlreadyExists => (""@, true, " already has an auction"@, "Inspect the current auction or choose a different name"@, "docs/error-reference.md"@, "contract error: AuctionAlreadyExists"@),
        ContractErrorCode::AuctionNotFound => (""@, true, " has no auction"@, "Create an auction first, then retry"@, "docs/error-reference.md"@, "contract error: AuctionNotFound"@),
        ContractErrorCode::AuctionClosed => (""@, true, " is already closed"@, "Settle the auction or choose another name"@, "docs/error-reference.md"@, "contract error: AuctionClosed"@),
        ContractErrorCode::AuctionNotStarted => (""@, true, " has not started yet"@, "Wait for the auction start time and retry"@, "docs/error-reference.md"@, "contract error: AuctionNotStarted"@),
        ContractErrorCode::AuctionNotEnded => (""@, true, " has not ended yet"@, "Wait for the end time before settling or inspecting settlement results"@, "docs/error-reference.md"@, "contract error: AuctionNotEnded"@),
        ContractErrorCode::AuctionAlreadySettled => ("The auction was already settled"@, false, ""@, "Inspect the final result or choose another auction"@, "docs/error-reference.md"@, "contract error: AuctionAlreadySettled"@),
        ContractErrorCode::AuctionInvalidBid => ("The bid is below the reserve price or minimum increment"@, false, ""@, "Increase the bid amount and make sure it clears the reserve price"@, "docs/error-reference.md"@, "contract error: AuctionInvalidBid"@),
        ContractErrorCode::AuctionUpgradeFailed => ("The auction upgrade failed"@, false, ""@, "Verify the admin signer and wasm hash, then retry"@, "docs/error-reference.md"@, "contract error: AuctionUpgradeFailed"@),
        ContractErrorCode::AuctionReentrancyDetected => ("A reentrancy guard blocked this auction operation"@, false, ""@, "Retry the operation after the in-flight transaction completes"@, "docs/security/reentrancy-audit.md"@, "contract error: AuctionReentrancyDetected"@),
        ContractErrorCode::BridgeValidation => (""@, true, " failed bridge validation"@, "Check the chain name and resolver address format"@, "docs/error-reference.md"@, "contract error: BridgeValidation"@),
        ContractErrorCode::BridgeUnsupportedChain => (""@, true, " is not a supported chain"@, "Use one of the registered chains or add a new supported-chain entry"@, "docs/error-reference.md"@, "contract error: BridgeUnsupportedChain"@),
        ContractErrorCode::BridgeUpgradeFailed => ("The bridge upgrade failed"@, false, ""@, "Verify the admin signer and wasm hash, then retry"@, "docs/error-reference.md"@, "contract error: BridgeUpgradeFailed"@),
        ContractErrorCode::BridgeUnauthorized => ("The bridge action is unauthorized"@, false, ""@, "Use the admin signer profile and retry"@, "docs/error-reference.md"@, "contract error: BridgeUnauthorized"@),
        ContractErrorCode::BridgeNotFound => (""@, true, " was not found"@, "Check the chain or route name and try again"@, "docs/error-reference.md"@, "contract error: BridgeNotFound"@),
        ContractErrorCode::BridgeAlreadyExists => (""@, true, " already exists"@, "Choose a different chain name or update the existing route"@, "docs/error-reference.md"@, "contract error: BridgeAlreadyExists"@),
        ContractErrorCode::NftAlreadyMinted => (""@, true, " is already minted"@, "Use the existing token or choose a different token id"@, "docs/error-reference.md"@, "contract error: NftAlreadyMinted"@),
        ContractErrorCode::NftNotFound => (""@, true, " was not found"@, "Check the token id and try again"@, "docs/error-reference.md"@, "contract error: NftNotFound"@),
        ContractErrorCode::NftUnauthorized => ("You are not authorized to inspect or modify this NFT"@, false, ""@, "Use the token owner or admin signer profile and retry"@, "docs/error-reference.md"@, "contract error: NftUnauthorized"@),
        ContractErrorCode::NftUpgradeFailed => ("The NFT upgrade failed"@, false, ""@, "Verify the admin signer and wasm hash, then retry"@, "docs/error-reference.md"@, "contract error: NftUpgradeFailed"@),
        ContractErrorCode::NftNotInitialized => ("The NFT contract is not initialized"@, false, ""@, "Deploy or initialize the NFT contract, then retry"@, "docs/error-reference.md"@, "contract error: NftNotInitialized"@),
        ContractErrorCode::Other(_) => ("The contract returned an unknown error"@, false, ""@, "Run again with `--verbose` and inspect the log file for the contract reason"@, "docs/error-reference.md"@, ""@),
    }
}

pub(crate) fn contract_phrase(code: ContractErrorCode) -> (r: (&'static str, bool, &'static str, &'static str, &'static str, &'static str))
    ensures
        (r.0@, r.1, r.2@, r.3@, r.4@, r.5@) == code_phrase(code),
{
    match code {
        ContractErrorCode::NameNotFound => ("", true, " was not found", "Use `xlm-ns whois <name>` or `xlm-ns resolve <name>` to confirm the current record", "docs/error-reference.md", "contract error: NameNotFound"),
        ContractErrorCode::NotOwner => ("", true, " is owned by a different account", "Use the current owner or the admin signer, then retry", "docs/error-reference.md", "contract error: NotOwner"),
        ContractErrorCode::Expired => ("", true, " has expired", "Renew it during the grace period, or register it again if it is claimable", "docs/error-reference.md", "contract error: Expired"),
        ContractErrorCode::InvalidLabel => ("", true, " is not a valid XLM name label", "Use a lowercase label with only supported characters", "docs/error-reference.md", "contract error: InvalidLabel"),
        ContractErrorCode::RegistryAlreadyRegistered => ("", true, " is already registered", "Use `xlm-ns whois <name>` to inspect the current owner and expiry", "docs/error-reference.md", "contract error: RegistryAlreadyRegistered"),
        ContractErrorCode::RegistryNotFound => ("", true, " was not found in the registry", "Check the name spelling or use `xlm-ns resolve <name>`", "docs/error-reference.md", "contract error: RegistryNotFound"),
        ContractErrorCode::RegistryNotYetClaimable => ("", true, " is not yet claimable (grace period active)", "Wait until the grace period ends, then register it", "docs/error-reference.md", "contract error: RegistryNotYetClaimable"),
        ContractErrorCode::RegistryNotActive => ("", true, " is not currently active", "Renew the name or wait until it becomes active again", "docs/error-reference.md", "contract error: RegistryNotActive"),
        ContractErrorCode::RegistryUnauthorized => ("The registry action is unauthorized", false, "", "Use the current owner or admin signer profile", "docs/error-reference.md", "contract error: RegistryUnauthorized"),
        ContractErrorCode::RegistryMetadataTooLong => ("The metadata URI is too long", false, "", "Shorten the metadata URI and retry", "docs/error-reference.md", "contract error: RegistryMetadataTooLong"),
        ContractErrorCode::RegistryValidation => ("", true, " failed registry validation", "Check the name format and registry inputs", "docs/error-reference.md", "contract error: RegistryValidation"),
        ContractErrorCode::RegistryInvalidExpiry => ("The expiry timestamp is invalid", false, "", "Use a future expiry time and retry", "docs/error-reference.md", "contract error: RegistryInvalidExpiry"),
        ContractErrorCode::RegistryInvalidGracePeriod => ("The grace period value is invalid", false, "", "Choose a grace period that is >= the expiry timestamp", "docs/error-reference.md", "contract error: RegistryInvalidGracePeriod"),
        ContractErrorCode::RegistryUpgradeFailed => ("The registry upgrade failed", false, "", "Verify the admin signer and try the upgrade again", "docs/error-reference.md", "contract error: RegistryUpgradeFailed"),
        ContractErrorCode::RegistryLocked => ("", true, " is locked for dispute resolution", "Wait for the lock to expire or ask the admin to remove it", "docs/error-reference.md", "contract error: RegistryLocked"),
        ContractErrorCode::RegistrarInsufficientFee => ("", true, " requires a higher registration fee", "Fund the account, then rerun `xlm-ns quote <name> 1` to verify the cost", "docs/error-reference.md", "contract error: RegistrarInsufficientFee"),
        ContractErrorCode::RegistrarNotFound => ("", true, " is not registered", "Use `xlm-ns whois <name>` to inspect the current record", "docs/error-reference.md", "contract error: RegistrarNotFound"),
        ContractErrorCode::RegistrarNotRenewable => ("", true, " is not renewable in its current state", "Renew it during the grace period, or wait until it becomes claimable", "docs/error-reference.md", "contract error: RegistrarNotRenewable"),
        ContractErrorCode::RegistrarAlreadyRegistered => ("", true, " is already registered", "Use `xlm-ns whois <name>` to inspect the current owner and expiry", "docs/error-reference.md", "contract error: RegistrarAlreadyRegistered"),
        ContractErrorCode::RegistrarReserved => ("", true, " is reserved", "Choose another label or remove the reservation if you control the admin", "docs/error-reference.md", "contract error: RegistrarReserved"),
        ContractErrorCode::RegistrarUnauthorized => ("The signer is not authorized for this registrar action", false, "", "Switch to the owner or admin signer profile and retry", "docs/error-reference.md", "contract error: RegistrarUnauthorized"),
        ContractErrorCode::RegistrarValidation => ("", true, " failed registrar validation", "Check the label format and try again", "docs/error-reference.md", "contract error: RegistrarValidation"),
        ContractErrorCode::RegistrarRegistrationClaimable => ("", true, " is claimable rather than renewable", "Register it as a new name instead of renewing it", "docs/error-reference.md", "contract error: RegistrarRegistrationClaimable"),
        ContractErrorCode::RegistrarNotInitialized => ("The registrar is not initialized", false, "", "Deploy or initialize the registrar contract, then retry", "docs/error-reference.md", "contract error: RegistrarNotInitialized"),
        ContractErrorCode::RegistrarAlreadyInitialized => ("The registrar was already initialized", false, "", "Skip initialization and use the existing contract state", "docs/error-reference.md", "contract error: RegistrarAlreadyInitialized"),
        ContractErrorCode::RegistrarRateLimitExceeded => ("You hit the registrar rate limit", false, "", "Wait for the window to reset, or spread registrations out more evenly", "docs/error-reference.md", "contract error: RegistrarRateLimitExceeded"),
        ContractErrorCode::RegistrarUpgradeFailed => ("The registrar upgrade failed", false, "", "Verify the admin signer and wasm hash, then retry", "docs/error-reference.md", "contract error: RegistrarUpgradeFailed"),
        ContractErrorCode::RegistrarQuoteExpired => ("The registration quote for ", true, " has expired", "Run `xlm-ns quote <name> <years>` to get a fresh quote, then retry", "docs/error-reference.md", "contract error: RegistrarQuoteExpired"),
        ContractErrorCode::ResolverValidation => ("", true, " failed resolver validation", "Check the name, text key, and resolver inputs", "docs/error-reference.md", "contract error: ResolverValidation"),
        ContractErrorCode::ResolverRecordNotFound => ("", true, " has no resolver record", "Use `xlm-ns whois <name>` or register a resolver record first", "docs/error-reference.md", "contract error: ResolverRecordNotFound"),
        ContractErrorCode::ResolverUnauthorized => ("The resolver action is unauthorized", false, "", "Use the owner signer profile and retry", "docs/error-reference.md", "contract error: ResolverUnauthorized"),
        ContractErrorCode::ResolverTooManyTextRecords => ("Too many text records are attached to this name", false, "", "Remove some records or split them across fewer updates", "docs/error-reference.md", "contract error: ResolverTooManyTextRecords"),
        ContractErrorCode::ResolverNotInitialized => ("The resolver is not initialized", false, "", "Deploy or initialize the resolver contract, then retry", "docs/error-reference.md", "contract error: ResolverNotInitialized"),
        ContractErrorCode::ResolverTextRecordValueTooLong => ("The text record value is too long", false, "", "Shorten the text record value and try again", "docs/error-reference.md", "contract error: ResolverTextRecordValueTooLong"),
        ContractErrorCode::ResolverInvalidChain => ("The requested chain is not supported", false, "", "Pick one of the supported chains and retry", "docs/error-reference.md", "contract error: ResolverInvalidChain"),
        ContractErrorCode::ResolverInvalidKey => ("The text record key is invalid", false, "", "Use a normalized, lowercase key", "docs/error-reference.md", "contract error: ResolverInvalidKey"),
        ContractErrorCode::ResolverBatchTooLarge => ("The batch payload is too large", false, "", "Split the request into smaller batches", "docs/error-reference.md", "contract error: ResolverBatchTooLarge"),
        ContractErrorCode::ResolverUpgradeFailed => ("The resolver upgrade failed", false, "", "Verify the admin signer and wasm hash, then retry", "docs/error-reference.md", "contract error: ResolverUpgradeFailed"),
        ContractErrorCode::SubdomainValidation => ("", true, " failed subdomain validation", "Check the parent domain and label format", "docs/error-reference.md", "contract error: SubdomainValidation"),
        ContractErrorCode::SubdomainParentNotFound => ("", true, " has no registered parent domain", "Register the parent domain first, then retry", "docs/error-reference.md", "contract error: SubdomainParentNotFound"),
        ContractErrorCode::SubdomainAlreadyExists => ("", true, " already exists", "Choose another subdomain label", "docs/error-reference.md", "contract error: SubdomainAlreadyExists"),
        ContractErrorCode::SubdomainNotFound => ("", true, " was not found", "Double-check the subdomain name and parent domain", "docs/error-reference.md", "contract error: SubdomainNotFound"),
        ContractErrorCode::SubdomainUnauthorized => ("The subdomain action is unauthorized", false, "", "Use the parent owner or authorized controller signer", "docs/error-reference.md", "contract error: SubdomainUnauthorized"),
        ContractErrorCode::SubdomainUpgradeFailed => ("The subdomain upgrade failed", false, "", "Verify the admin signer and try again", "docs/error-reference.md", "contract error: SubdomainUpgradeFailed"),
        ContractErrorCode::SubdomainDepthLimitExceeded => ("The requested subdomain exceeds the allowed depth", false, "", "Use a shorter subdomain path", "docs/error-reference.md", "contract error: SubdomainDepthLimitExceeded"),
        ContractErrorCode::AuctionValidation => ("", true, " failed auction validation", "Check the auction name, timestamps, and reserve price", "docs/error-reference.md", "contract error: AuctionValidation"),
        ContractErrorCode::AuctionAlreadyExists => ("", true, " already has an auction", "Inspect the current auction or choose a different name", "docs/error-reference.md", "contract error: AuctionAlreadyExists"),
        ContractErrorCode::AuctionNotFound => ("", true, " has no auction", "Create an auction first, then retry", "docs/error-reference.md", "contract error: AuctionNotFound"),
        ContractErrorCode::AuctionClosed => ("", true, " is already closed", "Settle the auction or choose another name", "docs/error-reference.md", "contract error: AuctionClosed"),
        ContractErrorCode::AuctionNotStarted => ("", true, " has not started yet", "Wait for the auction start time and retry", "docs/error-reference.md", "contract error: AuctionNotStarted"),
        ContractErrorCode::AuctionNotEnded => ("", true, " has not ended yet", "Wait for the end time before settling or inspecting settlement results", "docs/error-reference.md", "contract error: AuctionNotEnded"),
        ContractErrorCode::AuctionAlreadySettled => ("The auction was already settled", false, "", "Inspect the final result or choose another auction", "docs/error-reference.md", "contract error: AuctionAlreadySettled"),
        ContractErrorCode::AuctionInvalidBid => ("The bid is below the reserve price or minimum increment", false, "", "Increase the bid amount and make sure it clears the reserve price", "docs/error-reference.md", "contract error: AuctionInvalidBid"),
        ContractErrorCode::AuctionUpgradeFailed => ("The auction upgrade failed", false, "", "Verify the admin signer and wasm hash, then retry", "docs/error-reference.md", "contract error: AuctionUpgradeFailed"),
        ContractErrorCode::AuctionReentrancyDetected => ("A reentrancy guard blocked this auction operation", false, "", "Retry the operation after the in-flight transaction completes", "docs/security/reentrancy-audit.md", "contract error: AuctionReentrancyDetected"),
        ContractErrorCode::BridgeValidation => ("", true, " failed bridge validation", "Check the chain name and resolver address format", "docs/error-reference.md", "contract error: BridgeValidation"),
        ContractErrorCode::BridgeUnsupportedChain => ("", true, " is not a supported chain", "Use one of the registered chains or add a new supported-chain entry", "docs/error-reference.md", "contract error: BridgeUnsupportedChain"),
        ContractErrorCode::BridgeUpgradeFailed => ("The bridge upgrade failed", false, "", "Verify the admin signer and wasm hash, then retry", "docs/error-reference.md", "contract error: BridgeUpgradeFailed"),
        ContractErrorCode::BridgeUnauthorized => ("The bridge action is unauthorized", false, "", "Use the admin signer profile and retry", "docs/error-reference.md", "contract error: BridgeUnauthorized"),
        ContractErrorCode::BridgeNotFound => ("", true, " was not found", "Check the chain or route name and try again", "docs/error-reference.md", "contract error: BridgeNotFound"),
        ContractErrorCode::BridgeAlreadyExists => ("", true, " already exists", "Choose a different chain name or update the existing route", "docs/error-reference.md", "contract error: BridgeAlreadyExists"),
        ContractErrorCode::NftAlreadyMinted => ("", true, " is already minted", "Use the existing token or choose a different token id", "docs/error-reference.md", "contract error: NftAlreadyMinted"),
        ContractErrorCode::NftNotFound => ("", true, " was not found", "Check the token id and try again", "docs/error-reference.md", "contract error: NftNotFound"),
        ContractErrorCode::NftUnauthorized => ("You are not authorized to inspect or modify this NFT", false, "", "Use the token owner or admin signer profile and retry", "docs/error-reference.md", "contract error: NftUnauthorized"),
        ContractErrorCode::NftUpgradeFailed => ("The NFT upgrade failed", false, "", "Verify the admin signer and wasm hash, then retry", "docs/error-reference.md", "contract error: NftUpgradeFailed"),
        ContractErrorCode::NftNotInitialized => ("The NFT contract is not initialized", false, "", "Deploy or initialize the NFT contract, then retry", "docs/error-reference.md", "contract error: NftNotInitialized"),
        ContractErrorCode::Other(_) => ("The contract returned an unknown error", false, "", "Run again with `--verbose` and inspect the log file for the contract reason", "docs/error-reference.md", ""),
    }
}

/// The template for a raw code returned by a contract of `domain`, when the
/// domain knows that code: text before the subject, whether the subject is
/// named, text after it, the suggestion, the document.
pub open spec fn domain_phrase(domain: ErrorDomain, code: u32) -> Option<(Seq<char>, bool, Seq<char>, Seq<char>, Seq<char>)> {
    match domain {
        ErrorDomain::Registrar => {
            if code == 1 { Some((""@, true, " needs a higher registration fee"@, "Fund the account, then rerun `xlm-ns quote <name> 1` to verify the cost"@, "docs/contract-specs.md"@)) }
            else if code == 2 { Some((""@, true, " is not registered"@, "Use `xlm-ns whois <name>` to inspect the current record"@, "docs/contract-specs.md"@)) }
            else if code == 3 { Some((""@, true, " is not renewable in its current state"@, "Renew it during the grace period, or wait until it becomes claimable"@, "docs/contract-specs.md"@)) }
            else if code == 4 { Some((""@, true, " is already registered"@, "Use `xlm-ns whois <name>` to inspect the current owner and expiry"@, "docs/contract-specs.md"@)) }
            else if code == 5 { Some((""@, true, " is reserved"@, "Choose another label or remove the reservation if you control the admin"@, "docs/contract-specs.md"@)) }
            else if code == 6 { Some(("The signer is not authorized for this registrar action"@, false, ""@, "Switch to the owner or admin signer profile and retry"@, "docs/contract-specs.md"@)) }
            else if code == 7 { Some((""@, true, " failed validation"@, "Check the label format and try again"@, "docs/contract-specs.md"@)) }
            else if code == 8 { Some((""@, true, " is claimable rather than renewable"@, "Register it as a new name instead of renewing it"@, "docs/contract-specs.md"@)) }
            else if code == 9 { Some(("The registrar is not initialized"@, false, ""@, "Deploy or initialize the registrar contract, then retry"@, "docs/sdk-quickstart.md"@)) }
            else if code == 10 { Some(("The registrar was already initialized"@, false, ""@, "Skip initialization and use the existing contract state"@, "docs/sdk-quickstart.md"@)) }
            else if code == 11 { Some(("You hit the registrar rate limit"@, false, ""@, "Wait for the window to reset, or spread registrations out more evenly"@, "RATE_LIMITING_QUICK_REFERENCE.md"@)) }
            else if code == 12 { Some(("The registrar upgrade failed"@, false, ""@, "Verify the admin signer and wasm hash, then retry"@, "docs/contract-specs.md"@)) }
            else if code == 13 { Some(("The registration quote for "@, true, " has expired"@, "Run `xlm-ns quote <name> <years>` to get a fresh quote, then retry"@, "docs/error-reference.md"@)) }
            else { None }
        },
        ErrorDomain::Registry => {
            if code == 1 { Some((""@, true, " is already registered"@, "Use `xlm-ns whois <name>` to inspect the current owner"@, "docs/contract-specs.md"@)) }
            else if code == 2 { Some((""@, true, " was not found in the registry"@, "Check the name spelling or try `xlm-ns resolve <name>`"@, "docs/contract-specs.md"@)) }
            else if code == 3 { Some((""@, true, " is not yet claimable"@, "Wait until the grace period ends, then try again"@, "docs/contract-specs.md"@)) }
            else if code == 4 { Some((""@, true, " is not active right now"@, "Renew the name or wait until it becomes active again"@, "docs/contract-specs.md"@)) }
            else if code == 5 { Some(("The registry action is unauthorized"@, false, ""@, "Use the current owner or admin signer profile"@, "docs/contract-specs.md"@)) }
            else if code == 6 { Some(("The metadata URI is too long"@, false, ""@, "Shorten the metadata URI and retry"@, "docs/contract-specs.md"@)) }
            else if code == 7 { Some((""@, true, " failed validation"@, "Check the name format and registry inputs"@, "docs/contract-specs.md"@)) }
            else if code == 8 { Some(("The expiry timestamp is invalid"@, false, ""@, "Use a future expiry time and retry"@, "docs/contract-specs.md"@)) }
            else if code == 9 { Some(("The grace period value is invalid"@, false, ""@, "Choose a grace period within the supported bounds"@, "docs/contract-specs.md"@)) }
            else if code == 10 { Some(("The registry upgrade failed"@, false, ""@, "Verify the admin signer and try the upgrade again"@, "docs/contract-specs.md"@)) }
            else if code == 11 { Some((""@, true, " is locked"@, "Wait for the lock to expire or ask the admin to remove it"@, "docs/contract-specs.md"@)) }
            else { None }
        },
        ErrorDomain::Resolver => {
            if code == 1 { Some((""@, true, " failed validation"@, "Check the name, text key, and resolver inputs"@, "docs/contract-specs.md"@)) }
            else if code == 2 { Some((""@, true, " has no resolver record"@, "Use `xlm-ns whois <name>` or register a resolver record first"@, "docs/contract-specs.md"@)) }
            else if code == 3 { Some(("The resolver action is unauthorized"@, false, ""@, "Use the owner signer profile and retry"@, "docs/contract-specs.md"@)) }
            else if code == 4 { Some(("Too many text records are attached to this name"@, false, ""@, "Remove some records or split them across fewer updates"@, "docs/contract-specs.md"@)) }
            else if code == 5 { Some(("The resolver is not initialized"@, false, ""@, "Deploy or initialize the resolver contract, then retry"@, "docs/sdk-quickstart.md"@)) }
            else if code == 6 { Some(("The text record value is too long"@, false, ""@, "Shorten the text record value and try again"@, "docs/contract-specs.md"@)) }
            else if code == 7 { Some(("The requested chain is not supported"@, false, ""@, "Pick one of the supported chains and retry"@, "docs/contract-specs.md"@)) }
            else if code == 8 { Some(("The text record key is invalid"@, false, ""@, "Use a normalized, lowercase key"@, "docs/contract-specs.md"@)) }
            else if code == 9 { Some(("The batch payload is too large"@, false, ""@, "Split the request into smaller batches"@, "docs/contract-specs.md"@)) }
            else if code == 10 { Some(("The resolver upgrade failed"@, false, ""@, "Verify the admin signer and wasm hash, then retry"@, "docs/contract-specs.md"@)) }
            else { None }
        },
        ErrorDomain::Subdomain => {
            if code == 1 { Some((""@, true, " failed validation"@, "Check the parent domain and label format"@, "docs/contract-specs.md"@)) }
            else if code == 2 { Some((""@, true, " has no registered parent domain"@, "Register the parent domain first, then retry"@, "docs/contract-specs.md"@)) }
            else if code == 3 { Some((""@, true, " already exists"@, "Choose another subdomain label"@, "docs/contract-specs.md"@)) }
            else if code == 4 { Some((""@, true, " was not found"@, "Double-check the subdomain name and parent domain"@, "docs/contract-specs.md"@)) }
            else if code == 5 { Some(("The subdomain action is unauthorized"@, false, ""@, "Use the parent owner or authorized controller signer"@, "docs/contract-specs.md"@)) }
            else if code == 6 { Some(("The subdomain upgrade failed"@, false, ""@, "Verify the admin signer and try again"@, "docs/contract-specs.md"@)) }
            else if code == 7 { Some(("The requested subdomain exceeds the allowed depth"@, false, ""@, "Use a shorter subdomain path"@, "docs/contract-specs.md"@)) }
            else { None }
        },
        ErrorDomain::Bridge => {
            if code == 1 { Some((""@, true, " failed validation"@, "Check the chain name and resolver address format"@, "docs/contract-specs.md"@)) }
            else if code == 2 { Some((""@, true, " is not a supported chain"@, "Use one of the registered chains or add a new supported-chain entry"@, "docs/contract-specs.md"@)) }
            else if code == 3 { Some(("The bridge upgrade failed"@, false, ""@, "Verify the admin signer and wasm hash, then retry"@, "docs/contract-specs.md"@)) }
            else if code == 4 { Some(("The bridge action is unauthorized"@, false, ""@, "Use the admin signer profile and retry"@, "docs/contract-specs.md"@)) }
            else if code == 5 { Some((""@, true, " was not found"@, "Check the chain or route name and try again"@, "docs/contract-specs.md"@)) }
            else if code == 6 { Some((""@, true, " already exists"@, "Choose a different chain name or update the existing route"@, "docs/contract-specs.md"@)) }
            else { None }
        },
        ErrorDomain::Auction => {
            if code == 1 { Some((""@, true, " failed validation"@, "Check the auction name, timestamps, and reserve price"@, "docs/contract-specs.md"@)) }
            else if code == 2 { Some((""@, true, " already has an auction"@, "Inspect the current auction or choose a different name"@, "docs/contract-specs.md"@)) }
            else if code == 3 { Some((""@, true, " has no auction"@, "Create an auction first, then retry"@, "docs/contract-specs.md"@)) }
            else if code == 4 { Some((""@, true, " is already closed"@, "Settle the auction or choose another name"@, "docs/contract-specs.md"@)) }
            else if code == 5 { Some((""@, true, " has not started yet"@, "Wait for the auction start time and retry"@, "docs/contract-specs.md"@)) }
            else if code == 6 { Some((""@, true, " has not ended yet"@, "Wait for the end time before settling or inspecting settlement results"@, "docs/contract-specs.md"@)) }
            else if code == 7 { Some(("The auction was already settled"@, false, ""@, "Inspect the final result or choose another auction"@, "docs/contract-specs.md"@)) }
            else if code == 8 { Some(("The bid is invalid"@, false, ""@, "Increase the bid amount and make sure it clears the reserve price"@, "docs/contract-specs.md"@)) }
            else if code == 9 { Some(("The auction upgrade failed"@, false, ""@, "Verify the admin signer and wasm hash, then retry"@, "docs/contract-specs.md"@)) }
            else if code == 10 { Some(("A reentrancy guard blocked this auction operation"@, false, ""@, "Retry the operation after the in-flight transaction completes"@, "docs/security/reentrancy-audit.md"@)) }
            else { None }
        },
        ErrorDomain::Nft => {
            if code == 1 { Some((""@, true, " is already minted"@, "Use the existing token or choose a different token id"@, "docs/contract-specs.md"@)) }
            else if code == 2 { Some((""@, true, " was not found"@, "Check the token id and try again"@, "docs/contract-specs.md"@)) }
            else if code == 3 { Some(("You are not authorized to inspect or modify this NFT"@, false, ""@, "Use the token owner or admin signer profile and retry"@, "docs/contract-specs.md"@)) }
            else if code == 4 { Some(("The NFT upgrade failed"@, false, ""@, "Verify the admin signer and wasm hash, then retry"@, "docs/contract-specs.md"@)) }
            else if code == 5 { Some(("The NFT contract is not initialized"@, false, ""@, "Deploy or initialize the NFT contract, then retry"@, "docs/sdk-quickstart.md"@)) }
            else { None }
        },
        ErrorDomain::General => None,
    }
}

pub(crate) fn domain_code_phrase(domain: ErrorDomain, code: u32) -> (r: Option<(&'static str, bool, &'static str, &'static str, &'static str)>)
    ensures
        match r {
            Some(p) => domain_phrase(domain, code) == Some((p.0@, p.1, p.2@, p.3@, p.4@)),
            None => domain_phrase(domain, code) is None,
        },
{
    match domain {
        ErrorDomain::Registrar => match code {
            1 => Some(("", true, " needs a higher registration fee", "Fund the account, then rerun `xlm-ns quote <name> 1` to verify the cost", "docs/contract-specs.md")),
            2 => Some(("", true, " is not registered", "Use `xlm-ns whois <name>` to inspect the current record", "docs/contract-specs.md")),
            3 => Some(("", true, " is not renewable in its current state", "Renew it during the grace period, or wait until it becomes claimable", "docs/contract-specs.md")),
            4 => Some(("", true, " is already registered", "Use `xlm-ns whois <name>` to inspect the current owner and expiry", "docs/contract-specs.md")),
            5 => Some(("", true, " is reserved", "Choose another label or remove the reservation if you control the admin", "docs/contract-specs.md")),
            6 => Some(("The signer is not authorized for this registrar action", false, "", "Switch to the owner or admin signer profile and retry", "docs/contract-specs.md")),
            7 => Some(("", true, " failed validation", "Check the label format and try again", "docs/contract-specs.md")),
            8 => Some(("", true, " is claimable rather than renewable", "Register it as a new name instead of renewing it", "docs/contract-specs.md")),
            9 => Some(("The registrar is not initialized", false, "", "Deploy or initialize the registrar contract, then retry", "docs/sdk-quickstart.md")),
            10 => Some(("The registrar was already initialized", false, "", "Skip initialization and use the existing contract state", "docs/sdk-quickstart.md")),
            11 => Some(("You hit the registrar rate limit", false, "", "Wait for the window to reset, or spread registrations out more evenly", "RATE_LIMITING_QUICK_REFERENCE.md")),
            12 => Some(("The registrar upgrade failed", false, "", "Verify the admin signer and wasm hash, then retry", "docs/contract-specs.md")),
            13 => Some(("The registration quote for ", true, " has expired", "Run `xlm-ns quote <name> <years>` to get a fresh quote, then retry", "docs/error-reference.md")),
            _ => None,
        },
        ErrorDomain::Registry => match code {
            1 => Some(("", true, " is already registered", "Use `xlm-ns whois <name>` to inspect the current owner", "docs/contract-specs.md")),
            2 => Some(("", true, " was not found in the registry", "Check the name spelling or try `xlm-ns resolve <name>`", "docs/contract-specs.md")),
            3 => Some(("", true, " is not yet claimable", "Wait until the grace period ends, then try again", "docs/contract-specs.md")),
            4 => Some(("", true, " is not active right now", "Renew the name or wait until it becomes active again", "docs/contract-specs.md")),
            5 => Some(("The registry action is unauthorized", false, "", "Use the current owner or admin signer profile", "docs/contract-specs.md")),
            6 => Some(("The metadata URI is too long", false, "", "Shorten the metadata URI and retry", "docs/contract-specs.md")),
            7 => Some(("", true, " failed validation", "Check the name format and registry inputs", "docs/contract-specs.md")),
            8 => Some(("The expiry timestamp is invalid", false, "", "Use a future expiry time and retry", "docs/contract-specs.md")),
            9 => Some(("The grace period value is invalid", false, "", "Choose a grace period within the supported bounds", "docs/contract-specs.md")),
            10 => Some(("The registry upgrade failed", false, "", "Verify the admin signer and try the upgrade again", "docs/contract-specs.md")),
            11 => Some(("", true, " is locked", "Wait for the lock to expire or ask the admin to remove it", "docs/contract-specs.md")),
            _ => None,
        },
        ErrorDomain::Resolver => match code {
            1 => Some(("", true, " failed validation", "Check the name, text key, and resolver inputs", "docs/contract-specs.md")),
            2 => Some(("", true, " has no resolver record", "Use `xlm-ns whois <name>` or register a resolver record first", "docs/contract-specs.md")),
            3 => Some(("The resolver action is unauthorized", false, "", "Use the owner signer profile and retry", "docs/contract-specs.md")),
            4 => Some(("Too many text records are attached to this name", false, "", "Remove some records or split them across fewer updates", "docs/contract-specs.md")),
            5 => Some(("The resolver is not initialized", false, "", "Deploy or initialize the resolver contract, then retry", "docs/sdk-quickstart.md")),
            6 => Some(("The text record value is too long", false, "", "Shorten the text record value and try again", "docs/contract-specs.md")),
            7 => Some(("The requested chain is not supported", false, "", "Pick one of the supported chains and retry", "docs/contract-specs.md")),
            8 => Some(("The text record key is invalid", false, "", "Use a normalized, lowercase key", "docs/contract-specs.md")),
            9 => Some(("The batch payload is too large", false, "", "Split the request into smaller batches", "docs/contract-specs.md")),
            10 => Some(("The resolver upgrade failed", false, "", "Verify the admin signer and wasm hash, then retry", "docs/contract-specs.md")),
            _ => None,
        },
        ErrorDomain::Subdomain => match code {
            1 => Some(("", true, " failed validation", "Check the parent domain and label format", "docs/contract-specs.md")),
            2 => Some(("", true, " has no registered parent domain", "Register the parent domain first, then retry", "docs/contract-specs.md")),
            3 => Some(("", true, " already exists", "Choose another subdomain label", "docs/contract-specs.md")),
            4 => Some(("", true, " was not found", "Double-check the subdomain name and parent domain", "docs/contract-specs.md")),
            5 => Some(("The subdomain action is unauthorized", false, "", "Use the parent owner or authorized controller signer", "docs/contract-specs.md")),
            6 => Some(("The subdomain upgrade failed", false, "", "Verify the admin signer and try again", "docs/contract-specs.md")),
            7 => Some(("The requested subdomain exceeds the allowed depth", false, "", "Use a shorter subdomain path", "docs/contract-specs.md")),
            _ => None,
        },
        ErrorDomain::Bridge => match code {
            1 => Some(("", true, " failed validation", "Check the chain name and resolver address format", "docs/contract-specs.md")),
            2 => Some(("", true, " is not a supported chain", "Use one of the registered chains or add a new supported-chain entry", "docs/contract-specs.md")),
            3 => Some(("The bridge upgrade failed", false, "", "Verify the admin signer and wasm hash, then retry", "docs/contract-specs.md")),
            4 => Some(("The bridge action is unauthorized", false, "", "Use the admin signer profile and retry", "docs/contract-specs.md")),
            5 => Some(("", true, " was not found", "Check the chain or route name and try again", "docs/contract-specs.md")),
            6 => Some(("", true, " already exists", "Choose a different chain name or update the existing route", "docs/contract-specs.md")),
            _ => None,
        },
        ErrorDomain::Auction => match code {
            1 => Some(("", true, " failed validation", "Check the auction name, timestamps, and reserve price", "docs/contract-specs.md")),
            2 => Some(("", true, " already has an auction", "Inspect the current auction or choose a different name", "docs/contract-specs.md")),
            3 => Some(("", true, " has no auction", "Create an auction first, then retry", "docs/contract-specs.md")),
            4 => Some(("", true, " is already closed", "Settle the auction or choose another name", "docs/contract-specs.md")),
            5 => Some(("", true, " has not started yet", "Wait for the auction start time and retry", "docs/contract-specs.md")),
            6 => Some(("", true, " has not ended yet", "Wait for the end time before settling or inspecting settlement results", "docs/contract-specs.md")),
            7 => Some(("The auction was already settled", false, "", "Inspect the final result or choose another auction", "docs/contract-specs.md")),
            8 => Some(("The bid is invalid", false, "", "Increase the bid amount and make sure it clears the reserve price", "docs/contract-specs.md")),
            9 => Some(("The auction upgrade failed", false, "", "Verify the admin signer and wasm hash, then retry", "docs/contract-specs.md")),
            10 => Some(("A reentrancy guard blocked this auction operation", false, "", "Retry the operation after the in-flight transaction completes", "docs/security/reentrancy-audit.md")),
            _ => None,
        },
        ErrorDomain::Nft => match code {
            1 => Some(("", true, " is already minted", "Use the existing token or choose a different token id", "docs/contract-specs.md")),
            2 => Some(("", true, " was not found", "Check the token id and try again", "docs/contract-specs.md")),
            3 => Some(("You are not authorized to inspect or modify this NFT", false, "", "Use the token owner or admin signer profile and retry", "docs/contract-specs.md")),
            4 => Some(("The NFT upgrade failed", false, "", "Verify the admin signer and wasm hash, then retry", "docs/contract-specs.md")),
            5 => Some(("The NFT contract is not initialized", false, "", "Deploy or initialize the NFT contract, then retry", "docs/sdk-quickstart.md")),
            _ => None,
        },
        ErrorDomain::General => None,
    }
}

} // verus!
