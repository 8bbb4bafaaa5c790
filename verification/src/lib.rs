//! Verified logic of a small family of Solana programs: a counter, an
//! account-checking program, a governance program and an NFT minter.
//!
//! Accounts are modelled by [`model::Account`]; cross-program invocations that
//! a program performs are returned as data ([`model::Plan`]) for the runtime
//! glue to execute in order.
pub mod bytes;
pub mod checking_accounts;
pub mod governance;
pub mod governance_native;
pub mod governance_pinocchio;
pub mod counter;
pub mod model;
pub mod nft_anchor;
pub mod nft_native;
pub mod nft_pinocchio;
pub mod pda;
pub mod rent;
