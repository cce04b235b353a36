//! Client-side logic for a ledger pool: the catchup session that brings a
//! local Merkle tree up to a target height, and the resolver that parses
//! `did:indy` URLs, maps them to ledger reads and assembles the results.

pub mod catchup;
pub mod did;
pub mod error;
pub mod json;
pub mod percent;
pub mod request;
pub mod resolver;
