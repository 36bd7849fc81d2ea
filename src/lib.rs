//! Verified core of a fishing bite forecast: the discrete parts of feature
//! derivation, the append-only training sample log and its scheduling rules,
//! the explanation texts, and the plain data types shared with the clients.

pub mod features;
pub mod training;
pub mod explain;
pub mod shared;
pub mod preferences;
pub mod client;
pub mod auth;
pub mod regulations;
pub mod forecast;
