use vstd::prelude::*;

verus! {

/// Whether stored passwords are hashed and salted with Argon2.
///
/// Accounts registered while hashing was on cannot sign in once it is
/// switched off, and the other way round.
pub const HASH_IMPORTANT_INFORMATION: bool = true;

/// Whether cookies are marked as HTTPS-only.
pub const USE_HTTPS: bool = false;

/// Whether start-up creates the administrator account when it is missing.
pub const CREATE_ADMIN_ACCOUNT_IF_IT_DOESNT_EXIST: bool = false;

/// User name of the administrator account created at start-up.
pub const ADMIN_ACCOUNT_USERNAME: &'static str = "";

/// Password of the administrator account created at start-up.
pub const ADMIN_ACCOUNT_PASSWORD: &'static str = "";

} // verus!
