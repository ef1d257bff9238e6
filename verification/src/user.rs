use vstd::prelude::*;

use crate::crypto::ct_eq_str;
use crate::kdf::{Kdf, KdfType};
use crate::randomness::random_u64;

verus! {

/// KDF algorithm newly registered accounts start with.
pub const DEFAULT_KDF_ITERATIONS: i32 = 600000;

/// An account as the account-security core sees it.  Encrypted blobs
/// (the user key, the private key) are opaque strings that are stored
/// and replaced, never decrypted.  Random opaque tokens (security stamp,
/// API key, email-change token) are modelled as integers.
#[derive(Clone, Debug)]
pub struct User {
    pub uuid: String,
    pub email: String,
    pub name: String,
    /// A pending address change, with the token that confirms it.
    pub email_new: Option<String>,
    pub email_new_token: Option<u32>,
    /// The master-key authentication hash as the client submitted it.
    pub password_hash: String,
    pub password_hint: Option<String>,
    /// The user key, encrypted under the master key.
    pub akey: String,
    /// The asymmetric private key, encrypted under the user key.
    pub private_key: Option<String>,
    pub public_key: Option<String>,
    pub kdf: Kdf,
    /// Session epoch: changing it invalidates every issued session token.
    pub security_stamp: u64,
    /// Token-kind names whose cached authorization is stale after the
    /// last password change, recorded beside the stamp they survive.
    pub stamp_exception: Option<Vec<String>>,
    pub api_key: Option<u64>,
    pub verified_at: Option<i64>,
    pub last_verifying_at: Option<i64>,
    pub login_verify_count: i32,
    pub avatar_color: Option<String>,
    pub created_at: i64,
}

/// The characters behind an optional string, for contracts over values
/// that may be absent.
pub open spec fn opt_str_view(o: Option<String>) -> Option<Seq<char>> {
    match o {
        None => None,
        Some(x) => Some(x@),
    }
}

/// Memory and parallelism are stored exactly when the algorithm uses them.
pub open spec fn kdf_consistent(k: Kdf) -> bool {
    match k.kdf_type {
        KdfType::Pbkdf2 => k.memory is None && k.parallelism is None,
        KdfType::Argon2id => k.memory is Some && k.parallelism is Some,
    }
}

impl User {
    /// The structural invariant every stored account satisfies.
    pub open spec fn wf(self) -> bool {
        kdf_consistent(self.kdf)
    }

    /// A blank account for a fresh registration: no password yet, the
    /// default KDF selection, and a fresh session epoch.
    pub fn new(email: String, now_ms: i64) -> (u: User)
        ensures
            u.wf(),
            u.email == email,
            u.password_hash@ == Seq::<char>::empty(),
            u.kdf == (Kdf {
                kdf_type: KdfType::Pbkdf2,
                iterations: DEFAULT_KDF_ITERATIONS as i32,
                memory: None,
                parallelism: None,
            }),
            u.email_new is None,
            u.email_new_token is None,
            u.password_hint is None,
            u.private_key is None,
            u.public_key is None,
            u.stamp_exception is None,
            u.api_key is None,
            u.verified_at is None,
            u.last_verifying_at is None,
            u.login_verify_count == 0,
            u.avatar_color is None,
            u.created_at == now_ms,
            u.name@ == email@,
    {
        let name = email.clone();
        User {
            uuid: String::new(),
            email,
            name,
            email_new: None,
            email_new_token: None,
            password_hash: String::new(),
            password_hint: None,
            akey: String::new(),
            private_key: None,
            public_key: None,
            kdf: Kdf {
                kdf_type: KdfType::Pbkdf2,
                iterations: DEFAULT_KDF_ITERATIONS,
                memory: None,
                parallelism: None,
            },
            security_stamp: random_u64(),
            stamp_exception: None,
            api_key: None,
            verified_at: None,
            last_verifying_at: None,
            login_verify_count: 0,
            avatar_color: None,
            created_at: now_ms,
        }
    }

    /// Hold a supplied master-key authentication hash against the stored
    /// one, in constant time with respect to the stored secret.  The
    /// caller of every mutating operation must have seen `true` here.
    pub fn check_valid_password(&self, hash: &str) -> (r: bool)
        ensures
            r == (hash@ == self.password_hash@),
    {
        ct_eq_str(self.password_hash.as_str(), hash)
    }

    /// Issue a fresh security stamp, guaranteed to differ from the one it
    /// replaces: every session token issued under the old stamp is dead.
    pub fn reset_security_stamp(&mut self)
        ensures
            final(self).security_stamp != old(self).security_stamp,
            *final(self) == (User { security_stamp: final(self).security_stamp, ..*old(self) }),
    {
        let draw = random_u64();
        let stamp = if draw == self.security_stamp {
            draw.wrapping_add(1)
        } else {
            draw
        };
        proof {
            assert(draw.wrapping_add(1) != draw) by (bit_vector);
        }
        self.security_stamp = stamp;
    }

    /// The single authority that changes the password hash and the
    /// encrypted user key.  The caller has already verified the current
    /// hash; nothing is re-verified here.  With `regenerate_stamp` a new
    /// session epoch is issued; `invalidate_tokens` optionally records
    /// token-kind names whose cached authorization is now stale.
    pub fn set_password(
        &mut self,
        new_hash: String,
        new_key: Option<String>,
        regenerate_stamp: bool,
        invalidate_tokens: Option<Vec<String>>,
    )
        ensures
            final(self).password_hash == new_hash,
            match new_key {
                Some(k) => final(self).akey == k,
                None => final(self).akey == old(self).akey,
            },
            regenerate_stamp ==> final(self).security_stamp != old(self).security_stamp,
            !regenerate_stamp ==> final(self).security_stamp == old(self).security_stamp,
            match invalidate_tokens {
                Some(ts) => final(self).stamp_exception == Some(ts),
                None => final(self).stamp_exception == old(self).stamp_exception,
            },
            *final(self) == (User {
                password_hash: final(self).password_hash,
                akey: final(self).akey,
                security_stamp: final(self).security_stamp,
                stamp_exception: final(self).stamp_exception,
                ..*old(self)
            }),
    {
        self.password_hash = new_hash;
        if let Some(k) = new_key {
            self.akey = k;
        }
        if regenerate_stamp {
            self.reset_security_stamp();
        }
        if let Some(ts) = invalidate_tokens {
            self.stamp_exception = Some(ts);
        }
    }
}

/// A logout fan-out the caller owes the notification layer after a
/// session-epoch change: every device of the user is logged out except,
/// where set, the one that initiated the change (logging that one out
/// would break its in-flight flow).
#[derive(Clone, Debug)]
pub struct LogoutBroadcast {
    pub user_id: String,
    pub excluded_device: Option<String>,
}

} // verus!
