//! A URL-shortening library: validated domain values, a storage port with an
//! in-memory backend, the error mapping of a relational backend, and the
//! service that shortens and resolves URLs.

pub mod api;
pub mod in_memory;
pub mod original_url;
pub mod ports;
pub mod postgres;
pub mod services;
pub mod short_code;
pub mod shortened_url;
