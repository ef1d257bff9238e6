use vstd::prelude::*;

use crate::config::Config;
use crate::error::{PolicyReason, SecurityError, ValidationReason};
use crate::hint::{clean_password_hint, cleaned_hint, enforce_password_hint_setting};
use crate::kdf::{validate_kdf_spec, Kdf, KdfType};
use crate::user::{opt_str_view, User};
use vstd::string::StringSliceAdditionalSpecFns;

verus! {

/// What a registration submits.  The trailing token fields choose one of
/// the verified-registration paths; the tokens themselves are decoded and
/// checked by the authentication layer, which hands the claims in.
pub struct RegisterData {
    pub email: String,
    pub kdf: Option<KdfType>,
    pub kdf_iterations: Option<i32>,
    pub kdf_memory: Option<i32>,
    pub kdf_parallelism: Option<i32>,
    /// The user key, encrypted under the master key.
    pub key: String,
    pub keys: Option<KeysData>,
    pub master_password_hash: String,
    pub master_password_hint: Option<String>,
    pub name: Option<String>,
    pub organization_user_id: Option<String>,
    pub email_verification_token: Option<String>,
    pub accept_emergency_access_id: Option<String>,
    pub accept_emergency_access_invite_token: Option<String>,
    pub org_invite_token: Option<String>,
}

/// The asymmetric keypair a client deposits: the private key encrypted
/// under the user key, the public key in the clear.
pub struct KeysData {
    pub encrypted_private_key: String,
    pub public_key: String,
}

/// Which verified-registration path the submitted token combination
/// selects.
#[derive(Clone, Copy, Debug, PartialEq, Eq, Structural)]
pub enum RegistrationPath {
    /// Verification not required: no token combination is consulted.
    Open,
    /// A mailed email-verification token.
    EmailToken,
    /// An emergency-access invitation being accepted.
    EmergencyAccessInvite,
    /// An organization invitation being accepted.
    OrgInvite,
}

/// The token combination a registration carries, when verification is
/// required: exactly one accepted combination, or a refusal.
pub open spec fn registration_path_spec(data: RegisterData, email_verification: bool) -> Result<
    RegistrationPath,
    SecurityError,
> {
    if !email_verification {
        Ok(RegistrationPath::Open)
    } else {
        match (
            data.email_verification_token,
            data.accept_emergency_access_id,
            data.accept_emergency_access_invite_token,
            data.organization_user_id,
            data.org_invite_token,
        ) {
            (Some(_), None, None, None, None) => Ok(RegistrationPath::EmailToken),
            (None, Some(_), Some(_), None, None) => Ok(RegistrationPath::EmergencyAccessInvite),
            (None, None, None, Some(_), Some(_)) => Ok(RegistrationPath::OrgInvite),
            _ => Err(SecurityError::ValidationFailed(ValidationReason::RegistrationIncomplete)),
        }
    }
}

pub fn registration_path(data: &RegisterData, email_verification: bool) -> (r: Result<
    RegistrationPath,
    SecurityError,
>)
    ensures
        r == registration_path_spec(*data, email_verification),
{
    if !email_verification {
        return Ok(RegistrationPath::Open);
    }
    match (
        &data.email_verification_token,
        &data.accept_emergency_access_id,
        &data.accept_emergency_access_invite_token,
        &data.organization_user_id,
        &data.org_invite_token,
    ) {
        (Some(_), None, None, None, None) => Ok(RegistrationPath::EmailToken),
        (None, Some(_), Some(_), None, None) => Ok(RegistrationPath::EmergencyAccessInvite),
        (None, None, None, Some(_), Some(_)) => Ok(RegistrationPath::OrgInvite),
        _ => Err(SecurityError::ValidationFailed(ValidationReason::RegistrationIncomplete)),
    }
}

/// Hold the decoded claims of a mailed verification token against the
/// submitted address; on success the claim says whether the address is
/// verified, and may carry the display name recorded at invitation.
pub fn check_email_verification_claims(
    data_email: &String,
    claim_subject: &String,
    claim_verified: bool,
) -> (r: Result<bool, SecurityError>)
    ensures
        r is Ok <==> claim_subject@ == data_email@,
        r == (if claim_subject@ == data_email@ {
            Ok::<bool, SecurityError>(claim_verified)
        } else {
            Err(SecurityError::ValidationFailed(ValidationReason::ClaimMismatch))
        }),
{
    if *claim_subject == *data_email {
        Ok(claim_verified)
    } else {
        Err(SecurityError::ValidationFailed(ValidationReason::ClaimMismatch))
    }
}

/// Hold the decoded claims of an emergency-access invitation against the
/// submitted address and grant identifier; refused outright when
/// emergency access is disabled.
pub fn check_emergency_access_claims(
    config: &Config,
    data_email: &String,
    accept_emergency_access_id: &String,
    claim_email: &String,
    claim_emergency_access_id: &String,
) -> (r: Result<(), SecurityError>)
    ensures
        r is Ok <==> (config.emergency_access_allowed && claim_email@ == data_email@
            && claim_emergency_access_id@ == accept_emergency_access_id@),
        r matches Err(e) ==> e == (if !config.emergency_access_allowed {
            SecurityError::PolicyViolation(PolicyReason::EmergencyAccessDisabled)
        } else {
            SecurityError::ValidationFailed(ValidationReason::ClaimMismatch)
        }),
{
    if !config.emergency_access_allowed {
        return Err(SecurityError::PolicyViolation(PolicyReason::EmergencyAccessDisabled));
    }
    if !(*claim_email == *data_email) {
        return Err(SecurityError::ValidationFailed(ValidationReason::ClaimMismatch));
    }
    if !(*claim_emergency_access_id == *accept_emergency_access_id) {
        return Err(SecurityError::ValidationFailed(ValidationReason::ClaimMismatch));
    }
    Ok(())
}

/// Hold the decoded claims of an organization invitation against the
/// submitted address and membership identifier.
pub fn check_org_invite_claims(
    data_email: &String,
    organization_user_id: &String,
    claim_email: &String,
    claim_member_id: &String,
) -> (r: Result<(), SecurityError>)
    ensures
        r is Ok <==> (claim_email@ == data_email@ && claim_member_id@
            == organization_user_id@),
        r matches Err(e) ==> e == SecurityError::ValidationFailed(ValidationReason::ClaimMismatch),
{
    if !(*claim_email == *data_email) {
        return Err(SecurityError::ValidationFailed(ValidationReason::ClaimMismatch));
    }
    if !(*claim_member_id == *organization_user_id) {
        return Err(SecurityError::ValidationFailed(ValidationReason::ClaimMismatch));
    }
    Ok(())
}

/// How an eligible registration proceeds.
#[derive(Clone, Copy, Debug, PartialEq, Eq, Structural)]
pub enum RegistrationDecision {
    /// No account under this address yet: create one.
    CreateNew,
    /// An invited, passwordless account exists: fill it in.  The flags
    /// say whether a matching invitation token verified the address and
    /// whether a taken invitation's pending memberships are to be
    /// accepted.
    UseExisting { verified_by_invite: bool, accept_invited_memberships: bool },
}

/// Whether this registration may proceed, mirroring the precedence of the
/// account lookup: an account with a password refuses registration
/// outright (indistinguishably from a closed signup); an invited account
/// is claimed by a matching invitation token, a taken invitation, an open
/// signup, or a pending emergency-access invitation; a fresh address
/// needs a taken invitation, an open signup, or a pending emergency
/// grant.  `org_invite_email_matches` reports, where an organization
/// invitation token was submitted, whether its claim names this address.
pub open spec fn registration_eligibility_spec(
    existing_has_password: Option<bool>,
    invite_taken: bool,
    signup_allowed: bool,
    emergency_invite_exists: bool,
    pending_emergency_access: bool,
    org_invite_email_matches: Option<bool>,
    config: Config,
) -> Result<RegistrationDecision, SecurityError> {
    match existing_has_password {
        Some(true) => Err(SecurityError::PolicyViolation(PolicyReason::RegistrationNotAllowed)),
        Some(false) => match org_invite_email_matches {
            Some(true) => Ok(
                RegistrationDecision::UseExisting {
                    verified_by_invite: true,
                    accept_invited_memberships: false,
                },
            ),
            Some(false) => Err(
                SecurityError::PolicyViolation(PolicyReason::RegistrationNotAllowed),
            ),
            None => {
                if invite_taken {
                    Ok(
                        RegistrationDecision::UseExisting {
                            verified_by_invite: false,
                            accept_invited_memberships: true,
                        },
                    )
                } else if signup_allowed || (config.emergency_access_allowed
                    && emergency_invite_exists) {
                    Ok(
                        RegistrationDecision::UseExisting {
                            verified_by_invite: false,
                            accept_invited_memberships: false,
                        },
                    )
                } else {
                    Err(SecurityError::PolicyViolation(PolicyReason::RegistrationNotAllowed))
                }
            },
        },
        None => {
            if invite_taken || signup_allowed || pending_emergency_access {
                Ok(RegistrationDecision::CreateNew)
            } else {
                Err(SecurityError::PolicyViolation(PolicyReason::RegistrationNotAllowed))
            }
        },
    }
}

pub fn registration_eligibility(
    existing_has_password: Option<bool>,
    invite_taken: bool,
    signup_allowed: bool,
    emergency_invite_exists: bool,
    pending_emergency_access: bool,
    org_invite_email_matches: Option<bool>,
    config: &Config,
) -> (r: Result<RegistrationDecision, SecurityError>)
    ensures
        r == registration_eligibility_spec(
            existing_has_password,
            invite_taken,
            signup_allowed,
            emergency_invite_exists,
            pending_emergency_access,
            org_invite_email_matches,
            *config,
        ),
{
    match existing_has_password {
        Some(true) => Err(SecurityError::PolicyViolation(PolicyReason::RegistrationNotAllowed)),
        Some(false) => match org_invite_email_matches {
            Some(true) => Ok(
                RegistrationDecision::UseExisting {
                    verified_by_invite: true,
                    accept_invited_memberships: false,
                },
            ),
            Some(false) => Err(
                SecurityError::PolicyViolation(PolicyReason::RegistrationNotAllowed),
            ),
            None => {
                if invite_taken {
                    Ok(
                        RegistrationDecision::UseExisting {
                            verified_by_invite: false,
                            accept_invited_memberships: true,
                        },
                    )
                } else if signup_allowed || (config.emergency_access_allowed
                    && emergency_invite_exists) {
                    Ok(
                        RegistrationDecision::UseExisting {
                            verified_by_invite: false,
                            accept_invited_memberships: false,
                        },
                    )
                } else {
                    Err(SecurityError::PolicyViolation(PolicyReason::RegistrationNotAllowed))
                }
            },
        },
        None => {
            if invite_taken || signup_allowed || pending_emergency_access {
                Ok(RegistrationDecision::CreateNew)
            } else {
                Err(SecurityError::PolicyViolation(PolicyReason::RegistrationNotAllowed))
            }
        },
    }
}

/// A display name longer than 50 bytes is refused, here and on profile
/// changes: very long names inflate the issued session tokens.
pub fn validate_name(name: &String) -> (r: Result<(), SecurityError>)
    ensures
        r is Ok <==> vstd::utf8::encode_utf8(name@).len() <= 50,
        r matches Err(e) ==> e == SecurityError::ValidationFailed(ValidationReason::NameTooLong),
{
    let ns = name.as_str();
    let nb = ns.as_bytes();
    proof {
        assert(ns.spec_bytes() == vstd::utf8::encode_utf8(ns@));
    }
    if nb.len() > 50 {
        Err(SecurityError::ValidationFailed(ValidationReason::NameTooLong))
    } else {
        Ok(())
    }
}

/// The KDF selection a registration asks for: each submitted parameter
/// over the account's current one, with the cost parameters as given.
pub open spec fn requested_kdf(data: RegisterData, current: Kdf) -> Kdf {
    Kdf {
        kdf_type: match data.kdf {
            Some(t) => t,
            None => current.kdf_type,
        },
        iterations: match data.kdf_iterations {
            Some(i) => i,
            None => current.iterations,
        },
        memory: data.kdf_memory,
        parallelism: data.kdf_parallelism,
    }
}

/// Which welcome mail a completed registration owes.
#[derive(Clone, Copy, Debug, PartialEq, Eq, Structural)]
pub enum RegistrationMail {
    /// Mail is on and the address must still verify.
    WelcomeMustVerify,
    /// Mail is on and the address is taken as verified.
    Welcome,
    /// Mail is off.
    NoMail,
}

/// Fill an eligible account in: display name, cleaned hint, the KDF
/// selection held to the security floors, the password hash and the
/// encrypted key material, under a fresh session epoch.  Nothing is
/// written on failure.  The returned directive says which welcome mail
/// the caller owes; when the address must still verify, the pending
/// verification is stamped.
pub fn apply_registration(
    user: &mut User,
    data: RegisterData,
    email_verified: bool,
    now_ms: i64,
    config: &Config,
) -> (r: Result<RegistrationMail, SecurityError>)
    ensures
        r is Ok <==> ({
            &&& (data.name matches Some(n) ==> vstd::utf8::encode_utf8(n@).len() <= 50)
            &&& !(cleaned_hint(opt_str_view(data.master_password_hint)) is Some
                && !config.password_hints_allowed)
            &&& validate_kdf_spec(requested_kdf(data, old(user).kdf)) is Ok
        }),
        r matches Err(_) ==> *final(user) == *old(user),
        r matches Ok(m) ==> ({
            &&& Ok::<Kdf, SecurityError>(final(user).kdf) == validate_kdf_spec(
                requested_kdf(data, old(user).kdf),
            )
            &&& final(user).wf()
            &&& final(user).password_hash == data.master_password_hash
            &&& final(user).akey == data.key
            &&& opt_str_view(final(user).password_hint) == cleaned_hint(
                opt_str_view(data.master_password_hint),
            )
            &&& final(user).security_stamp != old(user).security_stamp
            &&& final(user).name == (match data.name {
                Some(n) => n,
                None => old(user).name,
            })
            &&& final(user).private_key == (match data.keys {
                Some(k) => Some(k.encrypted_private_key),
                None => old(user).private_key,
            })
            &&& final(user).public_key == (match data.keys {
                Some(k) => Some(k.public_key),
                None => old(user).public_key,
            })
            &&& final(user).verified_at == (if email_verified {
                Some(now_ms)
            } else {
                old(user).verified_at
            })
            &&& m == (if !config.mail_enabled {
                RegistrationMail::NoMail
            } else if config.signups_verify && !email_verified {
                RegistrationMail::WelcomeMustVerify
            } else {
                RegistrationMail::Welcome
            })
            &&& final(user).last_verifying_at == (if config.mail_enabled && config.signups_verify
                && !email_verified {
                Some(old(user).created_at)
            } else {
                old(user).last_verifying_at
            })
        }),
{
    if let Some(n) = &data.name {
        match validate_name(n) {
            Err(e) => {
                return Err(e);
            },
            Ok(()) => {},
        }
    }
    let hint_clean = clean_password_hint(&data.master_password_hint);
    match enforce_password_hint_setting(&hint_clean, config) {
        Err(e) => {
            return Err(e);
        },
        Ok(()) => {},
    }
    let requested = Kdf {
        kdf_type: match data.kdf {
            Some(t) => t,
            None => user.kdf.kdf_type,
        },
        iterations: match data.kdf_iterations {
            Some(i) => i,
            None => user.kdf.iterations,
        },
        memory: data.kdf_memory,
        parallelism: data.kdf_parallelism,
    };
    let accepted = match requested.validate() {
        Err(e) => {
            return Err(e);
        },
        Ok(k) => k,
    };

    user.kdf = accepted;
    user.set_password(data.master_password_hash, Some(data.key), true, None);
    user.password_hint = hint_clean;
    if let Some(n) = data.name {
        user.name = n;
    }
    if let Some(keys) = data.keys {
        user.private_key = Some(keys.encrypted_private_key);
        user.public_key = Some(keys.public_key);
    }
    if email_verified {
        user.verified_at = Some(now_ms);
    }
    if !config.mail_enabled {
        Ok(RegistrationMail::NoMail)
    } else if config.signups_verify && !email_verified {
        user.last_verifying_at = Some(user.created_at);
        Ok(RegistrationMail::WelcomeMustVerify)
    } else {
        Ok(RegistrationMail::Welcome)
    }
}

/// Whether a completed, verified registration must switch the mail-based
/// second factor on: globally disabled means never; enforcement on
/// verified invites means always; otherwise the invited membership's
/// organization policy decides.
pub fn is_email_2fa_required(
    config: &Config,
    has_member: bool,
    policy_enabled_for_member: bool,
) -> (r: bool)
    ensures
        r == (config.enable_email_2fa && (config.email_2fa_enforce_on_verified_invite || (
        has_member && policy_enabled_for_member))),
{
    if !config.enable_email_2fa {
        return false;
    }
    if config.email_2fa_enforce_on_verified_invite {
        return true;
    }
    if has_member {
        return policy_enabled_for_member;
    }
    false
}

} // verus!
