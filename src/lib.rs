//! Verified core of a character-data gateway: a session store that maps
//! client tokens to upstream identities, the decisions that resolve those
//! identities, request construction for the upstream service, and the rules
//! that normalise its payloads.
pub mod date;
pub mod equipment;
pub mod fetch;
pub mod hyper_stat;
pub mod profile;
pub mod resolver;
pub mod set_effect;
pub mod store;
pub mod text;
