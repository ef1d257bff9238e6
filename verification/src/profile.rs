use vstd::prelude::*;

use crate::error::{SecurityError, ValidationReason};
use crate::kdf::{Kdf, KdfType};
use crate::randomness::random_u64;
use crate::register::{validate_name, KeysData};
use vstd::string::StringSliceAdditionalSpecFns;
use crate::user::{User, DEFAULT_KDF_ITERATIONS};

verus! {

/// What a prelogin submits: the address whose KDF parameters the client
/// needs before it can derive the master key.
pub struct PreloginData {
    pub email: String,
}

/// The KDF parameters to answer a prelogin with: the account's stored
/// selection, or — for an address with no account, indistinguishably —
/// the defaults a fresh account would get.
pub fn prelogin_kdf(found: Option<&User>) -> (r: Kdf)
    ensures
        r == (match found {
            Some(u) => u.kdf,
            None => Kdf {
                kdf_type: KdfType::Pbkdf2,
                iterations: DEFAULT_KDF_ITERATIONS as i32,
                memory: None,
                parallelism: None,
            },
        }),
{
    match found {
        Some(u) => u.kdf,
        None => Kdf {
            kdf_type: KdfType::Pbkdf2,
            iterations: DEFAULT_KDF_ITERATIONS,
            memory: None,
            parallelism: None,
        },
    }
}

/// Rename the account, under the display-name length rule.  Nothing is
/// written on failure.
pub fn set_profile_name(user: &mut User, name: String) -> (r: Result<(), SecurityError>)
    ensures
        r is Ok <==> vstd::utf8::encode_utf8(name@).len() <= 50,
        r matches Err(e) ==> *final(user) == *old(user) && e == SecurityError::ValidationFailed(
            ValidationReason::NameTooLong,
        ),
        r is Ok ==> *final(user) == (User { name: name, ..*old(user) }),
{
    match validate_name(&name) {
        Err(e) => Err(e),
        Ok(()) => {
            user.name = name;
            Ok(())
        },
    }
}

/// Store an avatar color: absent, or exactly a 7-byte `#rrggbb` code (the
/// short form would render wrong).  Nothing is written on failure.
pub fn set_avatar_color(user: &mut User, color: Option<String>) -> (r: Result<(), SecurityError>)
    ensures
        r is Ok <==> (match color {
            Some(c) => vstd::utf8::encode_utf8(c@).len() == 7,
            None => true,
        }),
        r matches Err(e) ==> *final(user) == *old(user) && e == SecurityError::ValidationFailed(
            ValidationReason::MalformedAvatarColor,
        ),
        r is Ok ==> *final(user) == (User { avatar_color: color, ..*old(user) }),
{
    if let Some(c) = &color {
        let cs = c.as_str();
        let cb = cs.as_bytes();
        proof {
            assert(cs.spec_bytes() == vstd::utf8::encode_utf8(cs@));
        }
        if cb.len() != 7 {
            return Err(SecurityError::ValidationFailed(ValidationReason::MalformedAvatarColor));
        }
    }
    user.avatar_color = color;
    Ok(())
}

/// Deposit the asymmetric keypair: the private key encrypted under the
/// user key, the public key in the clear.
pub fn set_keys(user: &mut User, keys: KeysData)
    ensures
        *final(user) == (User {
            private_key: Some(keys.encrypted_private_key),
            public_key: Some(keys.public_key),
            ..*old(user)
        }),
{
    user.private_key = Some(keys.encrypted_private_key);
    user.public_key = Some(keys.public_key);
}

/// Make sure the account has an API key, drawing a fresh one when asked
/// to rotate or when none exists; the return says whether anything
/// changed and so must be persisted.
pub fn ensure_api_key(user: &mut User, rotate: bool) -> (changed: bool)
    ensures
        changed == (rotate || old(user).api_key is None),
        !changed ==> *final(user) == *old(user),
        changed ==> final(user).api_key is Some && *final(user) == (User {
            api_key: final(user).api_key,
            ..*old(user)
        }),
{
    if rotate || user.api_key.is_none() {
        user.api_key = Some(random_u64());
        true
    } else {
        false
    }
}

} // verus!
