use vstd::prelude::*;

verus! {

/// Immutable snapshot of the server settings that the account-security
/// operations consult.  Per-address queries (is this address allowed to
/// sign up, is its domain accepted) are answered by the configuration
/// layer outside and handed in as plain booleans.
#[derive(Clone, Copy, Debug, PartialEq, Eq, Structural)]
pub struct Config {
    /// May accounts carry a password hint at all?
    pub password_hints_allowed: bool,
    /// Is outbound mail delivery configured?
    pub mail_enabled: bool,
    /// May a hint be revealed in an error reply when mail is off?
    pub show_password_hint: bool,
    /// Must newly registered addresses verify by mail?
    pub signups_verify: bool,
    /// May an account change its address?
    pub email_change_allowed: bool,
    /// Are emergency-access grants enabled?
    pub emergency_access_allowed: bool,
    /// Is the mail-based second factor available?
    pub enable_email_2fa: bool,
    /// Is that second factor forced on every verified invite?
    pub email_2fa_enforce_on_verified_invite: bool,
    /// Is push notification delivery configured?
    pub push_enabled: bool,
}

} // verus!
