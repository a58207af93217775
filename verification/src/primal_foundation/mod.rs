//! Foundation types shared by every primal: configuration, errors, health,
//! lifecycle state and timestamps.

pub mod config;
pub mod error;
pub mod health;
pub mod lifecycle;
pub mod types;





pub use types::Timestamp;
pub use config::CommonConfig;
pub use error::{PrimalError, PrimalResult};
pub use health::{DependencyHealth, HealthReport, HealthStatus};
pub use lifecycle::PrimalState;
