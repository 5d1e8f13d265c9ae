//! A reputation-conditioned payout: a registry of per-identity trust scores,
//! each stored at a key derived from the registry and the owner, and an airdrop
//! that pays a fixed amount to a claimer whose genuine record clears a threshold.

pub mod airdrop;
pub mod derive;
pub mod identity;
pub mod registry;
