//! Verified core of a small e-commerce backend: payload validation, token
//! claims, error-to-response mapping, event naming and encoding, and the
//! decision steps of the HTTP handlers of the auth, cart, inventory and
//! gateway services.

pub mod text;
pub mod roles;
pub mod validation;
pub mod dto;
pub mod error;
pub mod auth_token;
pub mod events;
pub mod clients;
pub mod repository;
pub mod settings;
pub mod service_settings;
pub mod handlers;
pub mod gateway;
pub mod schema;
