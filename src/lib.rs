//! A schema compiler core for the Model Context Protocol: the type graph of the
//! protocol's messages, the propagation of view scopes through it, and the owned
//! and zero-copy message envelopes that result.

pub mod graph;
pub mod classify;
pub mod propagate;
pub mod laws;
pub mod text;
pub mod methods;
pub mod schema;
pub mod server;
