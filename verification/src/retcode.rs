//! OneBot 11 return codes.
use vstd::prelude::*;

verus! {

/// Success.
pub const OK: i32 = 0;

/// The operation is disabled by the implementation.
pub const DISABLED: i32 = 1;

/// Invalid access token.
pub const INVALID_TOKEN: i32 = 100;

/// API not found.
pub const API_NOT_FOUND: i32 = 102;

/// API disabled.
pub const API_DISABLED: i32 = 103;

/// API not supported.
pub const API_NOT_SUPPORTED: i32 = 104;

/// Message blocked by risk control.
pub const MESSAGE_RISK_CONTROL: i32 = 1200;

/// The user is muted in the group.
pub const USER_MUTED: i32 = 1201;

/// Message too long.
pub const MESSAGE_TOO_LONG: i32 = 1202;

/// Sending the message failed.
pub const SEND_FAILED: i32 = 1203;

/// Bad request.
pub const BAD_REQUEST: i32 = 1400;

/// Access token missing or invalid.
pub const UNAUTHORIZED: i32 = 1401;

/// Resource not found.
pub const NOT_FOUND: i32 = 1404;

/// Internal server error.
pub const INTERNAL_ERROR: i32 = 1500;

} // verus!
