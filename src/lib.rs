//! Escrow-backed peer-to-peer swap venue: listings, partial fills, fees,
//! cancellation and expiry, as verified state transitions.
pub mod address;
pub mod constants;
pub mod errors;
pub mod events;
pub mod listing;
pub mod math;
pub mod platform;
pub mod status;
pub mod user_profile;
pub mod whitelist;
pub mod trading;
pub mod pda;
pub mod time;
pub mod validation;
pub mod lifecycle;
pub mod admin;
pub mod user;
pub mod token;
pub mod laws;
