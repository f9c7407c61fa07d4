//! Saved login accounts: which accounts are on file, which one is active, and
//! what is shown of them.

pub mod auth;
pub mod entry;
pub mod error;
pub mod fetch;
pub mod identity;
pub mod laws;
pub mod limits;
pub mod models;
pub mod order;
pub mod popup;
pub mod refresh;
pub mod render;
pub mod round;
pub mod status;
pub mod store;
pub mod text;
pub mod time;
pub mod usage;
