pub mod auth;
pub mod protected;
pub mod ws;
