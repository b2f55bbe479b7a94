pub mod admin;
pub mod config;
pub mod crypto;
pub mod errors;
pub mod escrow;
pub mod events;
pub mod identity;
pub mod initialize;
pub mod laws;
pub mod lock;
pub mod messages;
pub mod quorum;
pub mod refund;
pub mod settle;
pub mod utils;
