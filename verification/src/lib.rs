//! The core of a gateway between HTTP clients and the lamps of a local
//! network: the registry of devices, the selectors that name them, the
//! batch command with its validation and retry policy, the rate limiter
//! and authentication.

pub mod auth;
pub mod backoff;
pub mod clean;
pub mod clock;
pub mod color;
pub mod cycle;
pub mod device;
pub mod device_management;
pub mod effects;
pub mod error;
pub mod ident;
pub mod mutex_utils;
pub mod number;
pub mod rate_limit;
pub mod registry;
pub mod routes;
pub mod scenes;
pub mod selector;
pub mod set_states;
pub mod staleness;
pub mod text;
pub mod wire;

pub use auth::{
    authenticate_elevated_request, authenticate_request, requires_elevated_permissions, AuthResult,
    Config,
};
pub use color::{Hsbk, LifxColor};
pub use device::{BulbInfo, LiColor, LifxGroup, LifxLocation};
pub use rate_limit::RateLimiter;
pub use registry::Manager;
pub use staleness::RefreshableData;
pub use text::{parse_i64_safe, parse_u16_safe};
