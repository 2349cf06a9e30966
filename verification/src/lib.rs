//! Verified core of the summer sa-token and utoipa plugins: storage key
//! prefixing, configuration defaults and the OpenAPI route plan.

pub mod text;

pub mod config;
pub mod openapi;
pub mod storage;

pub use config::{
    LogoutMode, LogoutRange, ReplacedLoginExitMode, ReplacedRange, SaTokenConfig, TokenStyle,
};
pub use storage::{
    apply_storage_prefix, apply_storage_prefix_to_pattern, normalize_storage_prefix,
    strip_storage_prefix, SummerRedisStorage,
};
