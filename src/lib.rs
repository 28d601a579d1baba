//! Resolution-time core of a graph API gateway: a global identifier codec, the error
//! taxonomy, the outbound dispatch pipeline and cursor pagination.
pub mod text;
pub mod codec;
pub mod error;
pub mod config;
pub mod platform;
pub mod context;
pub mod pagination;
pub mod node;
pub mod identity;
pub mod warehouse;
pub mod invoice;
pub mod models;
pub mod schema;
pub mod delivery;
