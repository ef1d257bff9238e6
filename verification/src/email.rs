use vstd::prelude::*;

use crate::config::Config;
use crate::error::{PolicyReason, SecurityError, ValidationReason};
use crate::randomness::random_u64;
use crate::user::{LogoutBroadcast, User};

verus! {

/// A fresh six-digit email-change token.  Nothing beyond its range is
/// promised: it is a random draw.
pub fn generate_email_token() -> (r: u32)
    ensures
        r < 1000000,
{
    ((random_u64() % 1000000) as u32)
}

/// Open an address change: verify the current hash, refuse a taken or
/// disallowed address, then record the pending address with a fresh
/// token for the caller to mail.  Nothing is written on failure.
pub fn begin_email_change(
    user: &mut User,
    current_hash: &String,
    new_email: String,
    email_in_use: bool,
    domain_allowed: bool,
    config: &Config,
) -> (r: Result<u32, SecurityError>)
    ensures
        r is Ok <==> (config.email_change_allowed && current_hash@ == old(user).password_hash@
            && !email_in_use && domain_allowed),
        r matches Err(e) ==> ({
            &&& *final(user) == *old(user)
            &&& e == (if !config.email_change_allowed {
                SecurityError::PolicyViolation(PolicyReason::EmailChangeDisabled)
            } else if current_hash@ != old(user).password_hash@ {
                SecurityError::AuthenticationFailed
            } else if email_in_use {
                SecurityError::ValidationFailed(ValidationReason::EmailInUse)
            } else {
                SecurityError::ValidationFailed(ValidationReason::EmailDomainNotAllowed)
            })
        }),
        r matches Ok(token) ==> ({
            &&& token < 1000000
            &&& final(user).email_new == Some(new_email)
            &&& final(user).email_new_token == Some(token)
            &&& *final(user) == (User {
                email_new: final(user).email_new,
                email_new_token: final(user).email_new_token,
                ..*old(user)
            })
        }),
{
    if !config.email_change_allowed {
        return Err(SecurityError::PolicyViolation(PolicyReason::EmailChangeDisabled));
    }
    if !user.check_valid_password(current_hash.as_str()) {
        return Err(SecurityError::AuthenticationFailed);
    }
    if email_in_use {
        return Err(SecurityError::ValidationFailed(ValidationReason::EmailInUse));
    }
    if !domain_allowed {
        return Err(SecurityError::ValidationFailed(ValidationReason::EmailDomainNotAllowed));
    }
    let token = generate_email_token();
    user.email_new = Some(new_email);
    user.email_new_token = Some(token);
    Ok(token)
}

/// Complete a pending address change: verify the current hash, hold the
/// submitted address and (when mail is on) the mailed token against the
/// pending ones, then store the address and the re-encrypted key material
/// under a fresh session epoch.  Nothing is written on failure.  The
/// returned broadcast logs out every session, the initiating one
/// included.
pub fn confirm_email_change(
    user: &mut User,
    current_hash: &String,
    new_email: String,
    new_hash: String,
    new_key: String,
    token: u32,
    email_in_use: bool,
    config: &Config,
    now_ms: i64,
) -> (r: Result<LogoutBroadcast, SecurityError>)
    ensures
        r is Ok <==> ({
            &&& config.email_change_allowed
            &&& current_hash@ == old(user).password_hash@
            &&& !email_in_use
            &&& old(user).email_new matches Some(p) && p@ == new_email@
            &&& (config.mail_enabled ==> old(user).email_new_token == Some(token))
        }),
        r matches Err(e) ==> ({
            &&& *final(user) == *old(user)
            &&& e == (if !config.email_change_allowed {
                SecurityError::PolicyViolation(PolicyReason::EmailChangeDisabled)
            } else if current_hash@ != old(user).password_hash@ {
                SecurityError::AuthenticationFailed
            } else if email_in_use {
                SecurityError::ValidationFailed(ValidationReason::EmailInUse)
            } else if old(user).email_new is None {
                SecurityError::ValidationFailed(ValidationReason::NoEmailChangePending)
            } else if !(old(user).email_new matches Some(p) && p@ == new_email@) {
                SecurityError::ValidationFailed(ValidationReason::EmailChangeMismatch)
            } else if config.mail_enabled && old(user).email_new_token is None {
                SecurityError::ValidationFailed(ValidationReason::NoEmailChangePending)
            } else {
                SecurityError::ValidationFailed(ValidationReason::EmailTokenMismatch)
            })
        }),
        r matches Ok(b) ==> ({
            &&& final(user).email == new_email
            &&& final(user).email_new is None
            &&& final(user).email_new_token is None
            &&& final(user).verified_at == (if config.mail_enabled {
                Some(now_ms)
            } else {
                None::<i64>
            })
            &&& final(user).password_hash == new_hash
            &&& final(user).akey == new_key
            &&& final(user).security_stamp != old(user).security_stamp
            &&& *final(user) == (User {
                email: final(user).email,
                email_new: None,
                email_new_token: None,
                verified_at: final(user).verified_at,
                password_hash: final(user).password_hash,
                akey: final(user).akey,
                security_stamp: final(user).security_stamp,
                ..*old(user)
            })
            &&& b.user_id@ == old(user).uuid@
            &&& b.excluded_device is None
        }),
{
    if !config.email_change_allowed {
        return Err(SecurityError::PolicyViolation(PolicyReason::EmailChangeDisabled));
    }
    if !user.check_valid_password(current_hash.as_str()) {
        return Err(SecurityError::AuthenticationFailed);
    }
    if email_in_use {
        return Err(SecurityError::ValidationFailed(ValidationReason::EmailInUse));
    }
    let pending_matches = match &user.email_new {
        None => {
            return Err(SecurityError::ValidationFailed(ValidationReason::NoEmailChangePending));
        },
        Some(p) => *p == new_email,
    };
    if !pending_matches {
        return Err(SecurityError::ValidationFailed(ValidationReason::EmailChangeMismatch));
    }
    if config.mail_enabled {
        match user.email_new_token {
            None => {
                return Err(
                    SecurityError::ValidationFailed(ValidationReason::NoEmailChangePending),
                );
            },
            Some(t) => {
                if t != token {
                    return Err(
                        SecurityError::ValidationFailed(ValidationReason::EmailTokenMismatch),
                    );
                }
            },
        }
        user.verified_at = Some(now_ms);
    } else {
        user.verified_at = None;
    }
    user.email = new_email;
    user.email_new = None;
    user.email_new_token = None;
    user.set_password(new_hash, Some(new_key), true, None);
    Ok(LogoutBroadcast { user_id: user.uuid.clone(), excluded_device: None })
}

/// Mark the address verified from a mailed verification token whose
/// decoded claim names this account.  Nothing is written on a claim for
/// another account.
pub fn apply_email_verification(user: &mut User, claim_subject: &String, now_ms: i64) -> (r:
    Result<(), SecurityError>)
    ensures
        r is Ok <==> claim_subject@ == old(user).uuid@,
        r matches Err(e) ==> *final(user) == *old(user) && e == SecurityError::ValidationFailed(
            ValidationReason::ClaimMismatch,
        ),
        r is Ok ==> *final(user) == (User {
            verified_at: Some(now_ms),
            last_verifying_at: None,
            login_verify_count: 0,
            ..*old(user)
        }),
{
    if !(*claim_subject == user.uuid) {
        return Err(SecurityError::ValidationFailed(ValidationReason::ClaimMismatch));
    }
    user.verified_at = Some(now_ms);
    user.last_verifying_at = None;
    user.login_verify_count = 0;
    Ok(())
}

/// Account deletion by mailed recovery token is only offered where mail
/// delivery exists; without it, deletion without a login would be
/// unverifiable.
pub fn delete_recovery_allowed(config: &Config) -> (r: Result<(), SecurityError>)
    ensures
        r is Ok <==> config.mail_enabled,
        r matches Err(e) ==> e == SecurityError::PolicyViolation(
            PolicyReason::DeleteRecoveryUnavailable,
        ),
{
    if config.mail_enabled {
        Ok(())
    } else {
        Err(SecurityError::PolicyViolation(PolicyReason::DeleteRecoveryUnavailable))
    }
}

/// Hold a deletion token's decoded claim against the account it names.
pub fn check_delete_recovery_claim(user: &User, claim_subject: &String) -> (r: Result<
    (),
    SecurityError,
>)
    ensures
        r is Ok <==> claim_subject@ == user.uuid@,
        r matches Err(e) ==> e == SecurityError::ValidationFailed(ValidationReason::ClaimMismatch),
{
    if *claim_subject == user.uuid {
        Ok(())
    } else {
        Err(SecurityError::ValidationFailed(ValidationReason::ClaimMismatch))
    }
}

} // verus!
