pub mod envelope;
pub mod errors;
pub mod ids;
pub mod item_api;
pub mod item_repo;
pub mod crypto;
pub mod models;
pub mod outcomes;
pub mod room_api;
pub mod room_repo;
pub mod search;
pub mod user_api;
pub mod user_repo;
