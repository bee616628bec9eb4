//! Escrow program core: instruction decoding, the persisted trade record and
//! the checks that guard the opening of an escrow.

pub mod account;
pub mod encoding;
pub mod error;
pub mod host;
pub mod instruction;
pub mod processor;
pub mod rent;
pub mod state;
