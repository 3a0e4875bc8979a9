//! A simplified Casper FFG finality gadget: validators deposit, vote on
//! checkpoints, get rewarded, log out and withdraw; a supermajority of
//! deposits justifies and finalizes epochs.
pub mod types;
pub mod model;
pub mod runtime;
pub mod pallet;
pub mod laws;
