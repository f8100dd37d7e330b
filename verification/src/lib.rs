//! Verified core of the XLM name service: name validation, lifecycle
//! timing, the registry / NFT / bridge state machines, SDK error decoding and
//! configuration, captive-core ingestion decisions and CLI error reporting.

pub mod constants;
pub mod time;
pub mod text;
pub mod fmt;
pub mod types;
pub mod name_validation;
pub mod label;
pub mod pricing;
pub mod bytes;
pub mod registry;
pub mod errors;
pub mod network;
pub mod report;
pub mod report_tables;
pub mod classify;
pub mod duration;
pub mod config;
pub mod keyed;
pub mod bridge;
pub mod owner_index;
pub mod nft;
pub mod ingestion;
pub mod supervisor;
pub mod output;
pub mod signer;
pub mod completions;
pub mod validate;
pub mod migrate;
pub mod watch;
pub mod healthcheck;
pub mod whois;
pub mod register;
pub mod bulk;
pub mod settings;
