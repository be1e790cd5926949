//! Relays the entries of a service-discovery catalog to HTTP callers.

pub mod relay;
