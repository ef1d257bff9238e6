use vstd::prelude::*;

use crate::config::Config;
use crate::error::SecurityError;
use crate::hint::{clean_password_hint, cleaned_hint, enforce_password_hint_setting};
use crate::kdf::{validate_kdf_spec, Kdf};
use crate::rotation::{stale_capability_route_names, stale_capability_routes};
use crate::user::{opt_str_view, LogoutBroadcast, User};

verus! {

/// Change the master password: verify the current authentication hash in
/// constant time, clean and enforce the hint, then store the new hash and
/// encrypted user key under a fresh session epoch, with the sensitive
/// capability-token kinds recorded stale.  Nothing is written on failure.
/// The returned broadcast logs out every session except the initiating
/// device's.
pub fn change_password(
    user: &mut User,
    device_id: &String,
    current_hash: &String,
    new_hash: String,
    new_key: String,
    hint: &Option<String>,
    config: &Config,
) -> (r: Result<LogoutBroadcast, SecurityError>)
    ensures
        r is Ok <==> (current_hash@ == old(user).password_hash@ && !(cleaned_hint(
            opt_str_view(*hint),
        ) is Some && !config.password_hints_allowed)),
        r matches Err(e) ==> ({
            &&& *final(user) == *old(user)
            &&& e == (if current_hash@ != old(user).password_hash@ {
                SecurityError::AuthenticationFailed
            } else {
                SecurityError::PolicyViolation(
                    crate::error::PolicyReason::PasswordHintsDisabled,
                )
            })
        }),
        r matches Ok(b) ==> ({
            &&& final(user).password_hash == new_hash
            &&& final(user).akey == new_key
            &&& opt_str_view(final(user).password_hint) == cleaned_hint(opt_str_view(*hint))
            &&& final(user).security_stamp != old(user).security_stamp
            &&& final(user).stamp_exception matches Some(ts) && ts@.map_values(|s: String| s@)
                == stale_capability_route_names()
            &&& *final(user) == (User {
                password_hash: final(user).password_hash,
                akey: final(user).akey,
                password_hint: final(user).password_hint,
                security_stamp: final(user).security_stamp,
                stamp_exception: final(user).stamp_exception,
                ..*old(user)
            })
            &&& b.user_id@ == old(user).uuid@
            &&& b.excluded_device matches Some(d) && d@ == device_id@
        }),
{
    if !user.check_valid_password(current_hash.as_str()) {
        return Err(SecurityError::AuthenticationFailed);
    }
    let hint_clean = clean_password_hint(hint);
    match enforce_password_hint_setting(&hint_clean, config) {
        Err(e) => {
            return Err(e);
        },
        Ok(()) => {},
    }
    user.password_hint = hint_clean;
    user.set_password(new_hash, Some(new_key), true, Some(stale_capability_routes()));
    Ok(LogoutBroadcast { user_id: user.uuid.clone(), excluded_device: Some(device_id.clone()) })
}

/// Change the KDF selection: verify the current authentication hash, hold
/// the requested parameters to the security floors, then store the
/// accepted selection together with the new hash and encrypted user key
/// under a fresh session epoch.  Nothing is written on failure.
pub fn change_kdf(
    user: &mut User,
    device_id: &String,
    current_hash: &String,
    new_hash: String,
    new_key: String,
    kdf: Kdf,
) -> (r: Result<LogoutBroadcast, SecurityError>)
    ensures
        r is Ok <==> (current_hash@ == old(user).password_hash@ && validate_kdf_spec(kdf) is Ok),
        r matches Err(e) ==> ({
            &&& *final(user) == *old(user)
            &&& e == (if current_hash@ != old(user).password_hash@ {
                SecurityError::AuthenticationFailed
            } else {
                match validate_kdf_spec(kdf) {
                    Err(v) => v,
                    Ok(_) => SecurityError::AuthenticationFailed,
                }
            })
        }),
        r matches Ok(b) ==> ({
            &&& Ok::<Kdf, SecurityError>(final(user).kdf) == validate_kdf_spec(kdf)
            &&& final(user).wf()
            &&& final(user).password_hash == new_hash
            &&& final(user).akey == new_key
            &&& final(user).security_stamp != old(user).security_stamp
            &&& *final(user) == (User {
                kdf: final(user).kdf,
                password_hash: final(user).password_hash,
                akey: final(user).akey,
                security_stamp: final(user).security_stamp,
                ..*old(user)
            })
            &&& b.user_id@ == old(user).uuid@
            &&& b.excluded_device matches Some(d) && d@ == device_id@
        }),
{
    if !user.check_valid_password(current_hash.as_str()) {
        return Err(SecurityError::AuthenticationFailed);
    }
    let accepted = match kdf.validate() {
        Err(e) => {
            return Err(e);
        },
        Ok(k) => k,
    };
    user.kdf = accepted;
    user.set_password(new_hash, Some(new_key), true, None);
    Ok(LogoutBroadcast { user_id: user.uuid.clone(), excluded_device: Some(device_id.clone()) })
}

/// Invalidate every session of the account: a fresh session epoch, and a
/// logout fan-out that excludes nobody.  The caller has already verified
/// the password or an equivalent one-time factor, and deletes the
/// account's registered devices alongside.
pub fn reset_account_sessions(user: &mut User) -> (r: LogoutBroadcast)
    ensures
        final(user).security_stamp != old(user).security_stamp,
        *final(user) == (User { security_stamp: final(user).security_stamp, ..*old(user) }),
        r.user_id@ == old(user).uuid@,
        r.excluded_device is None,
{
    user.reset_security_stamp();
    LogoutBroadcast { user_id: user.uuid.clone(), excluded_device: None }
}

} // verus!
