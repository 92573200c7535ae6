pub mod constants;
pub mod error;
pub mod state;
pub mod utils;
pub mod instructions;
pub mod migration;
pub mod events;
pub mod manager;
pub mod rollback;
pub mod clients;
pub mod laws;
