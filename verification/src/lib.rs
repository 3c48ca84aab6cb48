//! Connection pooling for Oracle databases.
//!
//! The verified core is the connection lifecycle: a factory that produces
//! fresh sessions, a validator that decides whether a returned session may
//! be reused (never with leftover transactional state), a builder that
//! assembles the capacity/timeout policy, and a model of the bounded pool
//! the policy governs. Asynchronous I/O against a live database is left to
//! an embedding that drives these decisions.

pub mod builder;
pub mod config_ext;
pub mod conn;
pub mod laws;
pub mod manager;
pub mod oracle;
pub mod policy;
pub mod pool;

pub use builder::BuildError;
pub use builder::PoolBuilder;
pub use config_ext::ConfigExt;
pub use conn::Connection;
pub use conn::Database;
pub use manager::OracleConnectionManager;
pub use manager::RecycleFailure;
pub use policy::PoolPolicy;
pub use pool::CheckoutPlan;
pub use pool::Pool;
pub use pool::PoolStatus;
