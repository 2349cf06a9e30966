//! Configuration of the sa-token plugin, with the defaults of every field.

use vstd::prelude::*;

verus! {

/// Style of the tokens that are handed out.
#[derive(Debug, Clone, Copy)]
pub enum TokenStyle {
    /// UUID style
    Uuid,
    /// Simple UUID (without hyphens)
    SimpleUuid,
    /// 32-character random string
    Random32,
    /// 64-character random string
    Random64,
    /// 128-character random string
    Random128,
    /// JWT style (JSON Web Token)
    Jwt,
    /// Hash style (SHA256 hash)
    Hash,
    /// Timestamp style (millisecond timestamp + random)
    Timestamp,
    /// Tik style (short 8-character token)
    Tik,
}

/// Logout mode when `max_login_count` is exceeded.
#[derive(Debug, Clone, Copy, PartialEq, Eq)]
pub enum LogoutMode {
    Logout,
    KickOut,
    Replaced,
}

/// Behavior when a non-concurrent login replaces an existing login.
#[derive(Debug, Clone, Copy, PartialEq, Eq)]
pub enum ReplacedLoginExitMode {
    OldDevice,
    NewDevice,
}

/// Scope affected when replacing an existing login.
#[derive(Debug, Clone, Copy, PartialEq, Eq)]
pub enum ReplacedRange {
    CurrDeviceType,
    AllDeviceType,
}

/// Default logout scope.
#[derive(Debug, Clone, Copy, PartialEq, Eq)]
pub enum LogoutRange {
    Token,
    Account,
}

/// Sa-Token configuration, read from the `[sa-token]` table of the
/// application's configuration.
#[derive(Debug, Clone)]
pub struct SaTokenConfig {
    /// Token name (key in header or cookie)
    pub token_name: String,
    /// Token timeout in seconds, -1 means permanent
    pub timeout: i64,
    /// Token active timeout in seconds, -1 means no limit
    pub active_timeout: i64,
    /// Enable per-token dynamic active timeout.
    pub dynamic_active_timeout: bool,
    /// Enable auto renew
    pub auto_renew: bool,
    /// Allow concurrent login for same account
    pub is_concurrent: bool,
    /// Share token when multiple logins
    pub is_share: bool,
    /// Token style
    pub token_style: TokenStyle,
    /// Enable logging
    pub is_log: bool,
    /// Read token from cookie
    pub is_read_cookie: bool,
    /// Read token from header
    pub is_read_header: bool,
    /// Read token from body
    pub is_read_body: bool,
    /// JWT secret key
    pub jwt_secret_key: Option<String>,
    /// JWT algorithm
    pub jwt_algorithm: Option<String>,
    /// JWT issuer
    pub jwt_issuer: Option<String>,
    /// JWT audience
    pub jwt_audience: Option<String>,
    /// Fall back to UUID token when JWT generation fails.
    pub jwt_fallback_on_error: bool,
    /// Enable nonce for replay attack prevention
    pub enable_nonce: bool,
    /// Nonce timeout in seconds, -1 means use token timeout
    pub nonce_timeout: i64,
    /// Enable refresh token
    pub enable_refresh_token: bool,
    /// Refresh token timeout in seconds
    pub refresh_token_timeout: i64,
    /// Storage key prefix for Redis/database backends.
    pub storage_key_prefix: String,
    /// Maximum login count for the same account. -1 means unlimited.
    pub max_login_count: i64,
    /// Logout mode when `max_login_count` is exceeded.
    pub overflow_logout_mode: LogoutMode,
    /// Replacement behavior for non-concurrent login.
    pub replaced_login_exit_mode: ReplacedLoginExitMode,
    /// Replacement scope for non-concurrent login.
    pub replaced_range: ReplacedRange,
    /// Create token session immediately on login.
    pub right_now_create_token_session: bool,
    /// Check login status when fetching token session.
    pub token_session_check_login: bool,
    /// Default logout scope.
    pub logout_range: LogoutRange,
    /// Keep token session after logout.
    pub is_logout_keep_token_session: bool,
}

/// `true` when `c` holds the default of every field: the value of the
/// field's default function, or `false` and `None` for the fields without one.
pub open spec fn is_default_config(c: SaTokenConfig) -> bool {
    &&& c.token_name@ == "sa-token"@
    &&& c.timeout == 2592000
    &&& c.active_timeout == -1
    &&& !c.dynamic_active_timeout
    &&& c.auto_renew
    &&& c.is_concurrent
    &&& !c.is_share
    &&& c.token_style is Uuid
    &&& !c.is_log
    &&& c.is_read_cookie
    &&& c.is_read_header
    &&& c.is_read_body
    &&& c.jwt_secret_key is None
    &&& c.jwt_algorithm matches Some(a) && a@ == "HS256"@
    &&& c.jwt_issuer is None
    &&& c.jwt_audience is None
    &&& c.jwt_fallback_on_error
    &&& !c.enable_nonce
    &&& c.nonce_timeout == -1
    &&& !c.enable_refresh_token
    &&& c.refresh_token_timeout == 604800
    &&& c.storage_key_prefix@ == "sa:"@
    &&& c.max_login_count == -1
    &&& c.overflow_logout_mode is Logout
    &&& c.replaced_login_exit_mode is OldDevice
    &&& c.replaced_range is CurrDeviceType
    &&& !c.right_now_create_token_session
    &&& c.token_session_check_login
    &&& c.logout_range is Token
    &&& !c.is_logout_keep_token_session
}

impl Default for SaTokenConfig {
    /// The configuration with every field at its default.
    fn default() -> (r: Self)
        ensures
            is_default_config(r),
    {
        Self {
            token_name: default_token_name(),
            timeout: default_timeout(),
            active_timeout: default_active_timeout(),
            dynamic_active_timeout: false,
            auto_renew: default_true(),
            is_concurrent: default_true(),
            is_share: false,
            token_style: default_token_style(),
            is_log: false,
            is_read_cookie: default_true(),
            is_read_header: default_true(),
            is_read_body: default_true(),
            jwt_secret_key: None,
            jwt_algorithm: default_jwt_algorithm(),
            jwt_issuer: None,
            jwt_audience: None,
            jwt_fallback_on_error: default_true(),
            enable_nonce: false,
            nonce_timeout: default_nonce_timeout(),
            enable_refresh_token: false,
            refresh_token_timeout: default_refresh_token_timeout(),
            storage_key_prefix: default_storage_key_prefix(),
            max_login_count: default_max_login_count(),
            overflow_logout_mode: default_overflow_logout_mode(),
            replaced_login_exit_mode: default_replaced_login_exit_mode(),
            replaced_range: default_replaced_range(),
            right_now_create_token_session: false,
            token_session_check_login: default_true(),
            logout_range: default_logout_range(),
            is_logout_keep_token_session: false,
        }
    }
}

/// Default token name: `sa-token`.
pub fn default_token_name() -> (r: String)
    ensures
        r@ == "sa-token"@,
{
    "sa-token".to_owned()
}

/// Default token timeout: 30 days, in seconds.
pub fn default_timeout() -> (r: i64)
    ensures
        r == 2592000,
{
    2592000
}

/// Default active timeout: -1, no limit.
pub fn default_active_timeout() -> (r: i64)
    ensures
        r == -1,
{
    -1
}

/// Default of the switches that are on unless configured off.
pub fn default_true() -> (r: bool)
    ensures
        r,
{
    true
}

/// Default JWT algorithm: `HS256`.
pub fn default_jwt_algorithm() -> (r: Option<String>)
    ensures
        r matches Some(a) && a@ == "HS256"@,
{
    Some("HS256".to_owned())
}

/// Default nonce timeout: -1, the token timeout.
pub fn default_nonce_timeout() -> (r: i64)
    ensures
        r == -1,
{
    -1
}

/// Default refresh token timeout: 7 days, in seconds.
pub fn default_refresh_token_timeout() -> (r: i64)
    ensures
        r == 604800,
{
    604800
}

/// Default token style: UUID.
pub fn default_token_style() -> (r: TokenStyle)
    ensures
        r is Uuid,
{
    TokenStyle::Uuid
}

/// Default storage key prefix: `sa:`.
pub fn default_storage_key_prefix() -> (r: String)
    ensures
        r@ == "sa:"@,
{
    "sa:".to_owned()
}

/// Default maximum login count: -1, unlimited.
pub fn default_max_login_count() -> (r: i64)
    ensures
        r == -1,
{
    -1
}

/// Default overflow logout mode: logout.
pub fn default_overflow_logout_mode() -> (r: LogoutMode)
    ensures
        r is Logout,
{
    LogoutMode::Logout
}

/// Default replaced login exit mode: the old device leaves.
pub fn default_replaced_login_exit_mode() -> (r: ReplacedLoginExitMode)
    ensures
        r is OldDevice,
{
    ReplacedLoginExitMode::OldDevice
}

/// Default replaced range: the current device type.
pub fn default_replaced_range() -> (r: ReplacedRange)
    ensures
        r is CurrDeviceType,
{
    ReplacedRange::CurrDeviceType
}

/// Default logout range: the token.
pub fn default_logout_range() -> (r: LogoutRange)
    ensures
        r is Token,
{
    LogoutRange::Token
}

} // verus!
