pub mod address;
pub mod error;
pub mod text;
pub mod model;
pub mod registry;
pub mod escrow;
pub mod bounty;
pub mod table;
pub mod ledger;
pub mod laws;
