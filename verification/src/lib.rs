//! A safe call boundary around a wallet capability provider: opaque signer
//! handles, uniform collapse of every failure into an absent value, and a
//! caller-driven lifecycle for handles and returned strings.

pub mod path;
pub mod provider;
pub mod registry;
pub mod text;
