//! Challenge-response authentication and read/write access rules for a
//! publish/subscribe relay.

pub mod assertion;
pub mod auth;
mod outside;
pub mod permission;
pub mod state;

pub use assertion::{AuthError, SignedEvent, AUTH_KIND};
pub use auth::{Auth, Handled, Inbound, Outgoing, AUTH_NIP};
pub use permission::{AuthSetting, Permission, PermissionError};
pub use state::AuthState;
