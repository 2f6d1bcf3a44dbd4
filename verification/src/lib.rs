//! Verified core of the Penumbra explorer backend's staking indexer and query
//! resolvers.
pub mod decimal;
pub mod json;
pub mod staking;
pub mod query;
