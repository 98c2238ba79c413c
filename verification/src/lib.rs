//! Ownership-aware user-collection engine for an event-discovery backend.
//!
//! Users create events and microevents, favorite and save them, and this
//! library keeps each user's collection record (six id lists) consistent
//! with the event stores, enforcing ownership authorization on mutation.
//! Stores are in-memory tables behind exact contracts; an outer layer owns
//! persistence and serializes mutations per process.

pub mod apikey;
pub mod auth;
pub mod codec;
pub mod collection;
pub mod dtos;
pub mod engine;
pub mod errors;
pub mod event_logic;
pub mod events;
pub mod microevent_logic;
pub mod microevents;
pub mod models;
pub mod store;

pub use auth::Claims;
pub use auth::UserRole;
pub use auth::has_permission;
pub use errors::AppError;
