use account_security::config::Config;
use account_security::device::{parse_known_device, Device, KnownDeviceParseError};
use account_security::email::{begin_email_change, confirm_email_change};
use account_security::error::{PolicyReason, SecurityError, ValidationReason};
use account_security::hint::{clean_password_hint, enforce_password_hint_setting, password_hint_lookup, HintAction};
use account_security::kdf::{Kdf, KdfType};
use account_security::password::{change_kdf, change_password};
use account_security::profile::{ensure_api_key, prelogin_kdf, set_avatar_color, set_profile_name};
use account_security::user::User;

fn config() -> Config {
    Config {
        password_hints_allowed: true,
        mail_enabled: true,
        show_password_hint: false,
        signups_verify: false,
        email_change_allowed: true,
        emergency_access_allowed: true,
        enable_email_2fa: false,
        email_2fa_enforce_on_verified_invite: false,
        push_enabled: false,
    }
}

fn account() -> User {
    User {
        uuid: "user-1".to_string(),
        email: "user@example.com".to_string(),
        name: "User".to_string(),
        email_new: None,
        email_new_token: None,
        password_hash: "stored-hash".to_string(),
        password_hint: None,
        akey: "old-user-key".to_string(),
        private_key: Some("old-private".to_string()),
        public_key: Some("public-key".to_string()),
        kdf: Kdf { kdf_type: KdfType::Pbkdf2, iterations: 600000, memory: None, parallelism: None },
        security_stamp: 42,
        stamp_exception: None,
        api_key: None,
        verified_at: None,
        last_verifying_at: None,
        login_verify_count: 0,
        avatar_color: None,
        created_at: 1000,
    }
}

#[test]
fn password_change_rolls_the_session_epoch() {
    let mut user = account();
    let r = change_password(
        &mut user,
        &"device-1".to_string(),
        &"stored-hash".to_string(),
        "new-hash".to_string(),
        "new-key".to_string(),
        &Some("  remember the cat  ".to_string()),
        &config(),
    );
    let b = r.expect("a correct current hash must pass");
    assert_eq!(user.password_hash, "new-hash");
    assert_eq!(user.akey, "new-key");
    assert_eq!(user.password_hint, Some("remember the cat".to_string()));
    assert_ne!(user.security_stamp, 42);
    assert_eq!(b.excluded_device, Some("device-1".to_string()));
    let stale = user.stamp_exception.expect("stale token kinds recorded");
    assert_eq!(stale.len(), 4);
    assert_eq!(stale[0], "post_rotatekey");
}

#[test]
fn password_change_rejects_wrong_hash() {
    let mut user = account();
    let r = change_password(
        &mut user,
        &"device-1".to_string(),
        &"wrong".to_string(),
        "new-hash".to_string(),
        "new-key".to_string(),
        &None,
        &config(),
    );
    assert!(matches!(r, Err(SecurityError::AuthenticationFailed)));
    assert_eq!(user.password_hash, "stored-hash");
    assert_eq!(user.security_stamp, 42);
}

#[test]
fn password_change_enforces_hint_setting() {
    let mut cfg = config();
    cfg.password_hints_allowed = false;
    let mut user = account();
    let r = change_password(
        &mut user,
        &"device-1".to_string(),
        &"stored-hash".to_string(),
        "new-hash".to_string(),
        "new-key".to_string(),
        &Some("a hint".to_string()),
        &cfg,
    );
    assert!(matches!(
        r,
        Err(SecurityError::PolicyViolation(PolicyReason::PasswordHintsDisabled))
    ));
    // A blank hint cleans to nothing and passes even then.
    let r2 = change_password(
        &mut user,
        &"device-1".to_string(),
        &"stored-hash".to_string(),
        "new-hash".to_string(),
        "new-key".to_string(),
        &Some("   ".to_string()),
        &cfg,
    );
    assert!(r2.is_ok());
    assert_eq!(user.password_hint, None);
}

#[test]
fn kdf_change_stores_the_accepted_selection() {
    let mut user = account();
    let requested = Kdf {
        kdf_type: KdfType::Argon2id,
        iterations: 3,
        memory: Some(64),
        parallelism: Some(4),
    };
    let r = change_kdf(
        &mut user,
        &"device-1".to_string(),
        &"stored-hash".to_string(),
        "new-hash".to_string(),
        "new-key".to_string(),
        requested,
    );
    assert!(r.is_ok());
    assert_eq!(user.kdf, requested);
    assert_eq!(user.password_hash, "new-hash");
    assert_ne!(user.security_stamp, 42);
}

#[test]
fn kdf_change_holds_the_floors() {
    let mut user = account();
    let r = change_kdf(
        &mut user,
        &"device-1".to_string(),
        &"stored-hash".to_string(),
        "new-hash".to_string(),
        "new-key".to_string(),
        Kdf { kdf_type: KdfType::Pbkdf2, iterations: 99999, memory: None, parallelism: None },
    );
    assert!(matches!(
        r,
        Err(SecurityError::PolicyViolation(PolicyReason::Pbkdf2IterationsTooLow))
    ));
    assert_eq!(user.kdf.iterations, 600000);
    assert_eq!(user.security_stamp, 42);
}

#[test]
fn hint_cleaning_trims_and_drops_blanks() {
    assert_eq!(clean_password_hint(&None), None);
    assert_eq!(clean_password_hint(&Some("".to_string())), None);
    assert_eq!(clean_password_hint(&Some("  \t ".to_string())), None);
    assert_eq!(
        clean_password_hint(&Some("  keep me  ".to_string())),
        Some("keep me".to_string())
    );
}

#[test]
fn hint_setting_refuses_hints_when_disabled() {
    let mut cfg = config();
    cfg.password_hints_allowed = false;
    assert!(enforce_password_hint_setting(&None, &cfg).is_ok());
    assert!(matches!(
        enforce_password_hint_setting(&Some("h".to_string()), &cfg),
        Err(SecurityError::PolicyViolation(PolicyReason::PasswordHintsDisabled))
    ));
}

#[test]
fn hint_lookup_refused_without_a_channel() {
    let mut cfg = config();
    cfg.mail_enabled = false;
    cfg.show_password_hint = false;
    let r = password_hint_lookup(&cfg, None);
    assert!(matches!(
        r,
        Err(SecurityError::PolicyViolation(PolicyReason::HintLookupNotConfigured))
    ));
}

#[test]
fn hint_lookup_masks_unknown_accounts_with_a_delay() {
    // The unknown-account path must answer success after a randomized
    // delay around the nominal one second, masking the slower delivery
    // path; the bounds hold on every draw.
    for _ in 0..32 {
        match password_hint_lookup(&config(), None) {
            Ok(HintAction::DelayThenAccept { delay_ms }) => {
                assert!((900..=1100).contains(&delay_ms));
            }
            _ => panic!("unknown account with mail on must delay then accept"),
        }
    }
}

#[test]
fn hint_lookup_mails_existing_accounts() {
    let mut user = account();
    user.password_hint = Some("the cat".to_string());
    match password_hint_lookup(&config(), Some(&user)) {
        Ok(HintAction::SendHintMail { hint }) => assert_eq!(hint, Some("the cat".to_string())),
        _ => panic!("existing account with mail on must mail the hint"),
    }
}

#[test]
fn hint_lookup_reveals_only_when_opted_in() {
    let mut cfg = config();
    cfg.mail_enabled = false;
    cfg.show_password_hint = true;
    let mut user = account();
    user.password_hint = Some("the cat".to_string());
    match password_hint_lookup(&cfg, Some(&user)) {
        Ok(HintAction::RevealInError { hint }) => assert_eq!(hint, "the cat"),
        _ => panic!("opted-in reveal must carry the hint"),
    }
    user.password_hint = None;
    assert!(matches!(
        password_hint_lookup(&cfg, Some(&user)),
        Ok(HintAction::NoHintError)
    ));
}

#[test]
fn email_change_round_trip() {
    let mut user = account();
    let token = begin_email_change(
        &mut user,
        &"stored-hash".to_string(),
        "new@example.com".to_string(),
        false,
        true,
        &config(),
    )
    .expect("opening the change must succeed");
    assert!(token < 1_000_000);
    assert_eq!(user.email_new, Some("new@example.com".to_string()));

    let b = confirm_email_change(
        &mut user,
        &"stored-hash".to_string(),
        "new@example.com".to_string(),
        "new-hash".to_string(),
        "new-key".to_string(),
        token,
        false,
        &config(),
        9000,
    )
    .expect("the mailed token must confirm the change");
    assert_eq!(user.email, "new@example.com");
    assert_eq!(user.email_new, None);
    assert_eq!(user.email_new_token, None);
    assert_eq!(user.verified_at, Some(9000));
    assert_ne!(user.security_stamp, 42);
    assert_eq!(b.excluded_device, None);
}

#[test]
fn email_change_rejects_wrong_token() {
    let mut user = account();
    let token = begin_email_change(
        &mut user,
        &"stored-hash".to_string(),
        "new@example.com".to_string(),
        false,
        true,
        &config(),
    )
    .expect("opening the change must succeed");
    let wrong = if token == 0 { 1 } else { token - 1 };
    let r = confirm_email_change(
        &mut user,
        &"stored-hash".to_string(),
        "new@example.com".to_string(),
        "new-hash".to_string(),
        "new-key".to_string(),
        wrong,
        false,
        &config(),
        9000,
    );
    assert!(matches!(
        r,
        Err(SecurityError::ValidationFailed(ValidationReason::EmailTokenMismatch))
    ));
    assert_eq!(user.email, "user@example.com");
}

#[test]
fn email_change_refuses_taken_or_foreign_addresses() {
    let mut user = account();
    let taken = begin_email_change(
        &mut user,
        &"stored-hash".to_string(),
        "new@example.com".to_string(),
        true,
        true,
        &config(),
    );
    assert!(matches!(
        taken,
        Err(SecurityError::ValidationFailed(ValidationReason::EmailInUse))
    ));
    let foreign = begin_email_change(
        &mut user,
        &"stored-hash".to_string(),
        "new@forbidden.example".to_string(),
        false,
        false,
        &config(),
    );
    assert!(matches!(
        foreign,
        Err(SecurityError::ValidationFailed(ValidationReason::EmailDomainNotAllowed))
    ));
    let mut cfg = config();
    cfg.email_change_allowed = false;
    let disabled = begin_email_change(
        &mut user,
        &"stored-hash".to_string(),
        "new@example.com".to_string(),
        false,
        true,
        &cfg,
    );
    assert!(matches!(
        disabled,
        Err(SecurityError::PolicyViolation(PolicyReason::EmailChangeDisabled))
    ));
}

#[test]
fn profile_name_length_rule() {
    let mut user = account();
    assert!(set_profile_name(&mut user, "A reasonable name".to_string()).is_ok());
    assert_eq!(user.name, "A reasonable name");
    let long = "x".repeat(51);
    assert!(matches!(
        set_profile_name(&mut user, long),
        Err(SecurityError::ValidationFailed(ValidationReason::NameTooLong))
    ));
    assert_eq!(user.name, "A reasonable name");
    assert!(set_profile_name(&mut user, "y".repeat(50)).is_ok());
}

#[test]
fn avatar_color_length_rule() {
    let mut user = account();
    assert!(set_avatar_color(&mut user, Some("#a0b1c2".to_string())).is_ok());
    assert_eq!(user.avatar_color, Some("#a0b1c2".to_string()));
    assert!(matches!(
        set_avatar_color(&mut user, Some("#abc".to_string())),
        Err(SecurityError::ValidationFailed(ValidationReason::MalformedAvatarColor))
    ));
    assert!(set_avatar_color(&mut user, None).is_ok());
    assert_eq!(user.avatar_color, None);
}

#[test]
fn api_key_is_kept_unless_rotated() {
    let mut user = account();
    assert!(ensure_api_key(&mut user, false));
    let first = user.api_key.expect("a key was drawn");
    assert!(!ensure_api_key(&mut user, false));
    assert_eq!(user.api_key, Some(first));
    assert!(ensure_api_key(&mut user, true));
    assert!(user.api_key.is_some());
}

#[test]
fn prelogin_answers_defaults_for_unknown_addresses() {
    let user = account();
    assert_eq!(prelogin_kdf(Some(&user)), user.kdf);
    assert_eq!(
        prelogin_kdf(None),
        Kdf { kdf_type: KdfType::Pbkdf2, iterations: 600000, memory: None, parallelism: None }
    );
}

#[test]
fn push_token_registration_is_idempotent() {
    let mut device = Device {
        uuid: "dev-1".to_string(),
        user_uuid: "user-1".to_string(),
        atype: 9,
        push_token: None,
    };
    assert!(device.update_push_token("tok".to_string()));
    assert_eq!(device.push_token, Some("tok".to_string()));
    assert!(!device.update_push_token("tok".to_string()));
    assert!(device.update_push_token("tok2".to_string()));
    assert_eq!(device.push_token, Some("tok2".to_string()));
    device.clear_push_token();
    assert_eq!(device.push_token, None);
}

#[test]
fn known_device_headers_round_trip() {
    let encoded = data_encoding::BASE64URL_NOPAD.encode("user@example.com".as_bytes());
    let kd = parse_known_device(Some(encoded.as_str()), Some("dev-1"))
        .expect("well-formed headers must parse");
    assert_eq!(kd.email, "user@example.com");
    assert_eq!(kd.uuid, "dev-1");
}

#[test]
fn known_device_header_failures_are_named() {
    assert!(matches!(
        parse_known_device(None, Some("dev-1")),
        Err(KnownDeviceParseError::MissingEmail)
    ));
    assert!(matches!(
        parse_known_device(Some("!!not-base64!!"), Some("dev-1")),
        Err(KnownDeviceParseError::EmailNotBase64)
    ));
    let bad_utf8 = data_encoding::BASE64URL_NOPAD.encode(&[0xff, 0xfe]);
    assert!(matches!(
        parse_known_device(Some(bad_utf8.as_str()), Some("dev-1")),
        Err(KnownDeviceParseError::EmailNotUtf8)
    ));
    let encoded = data_encoding::BASE64URL_NOPAD.encode("user@example.com".as_bytes());
    assert!(matches!(
        parse_known_device(Some(encoded.as_str()), None),
        Err(KnownDeviceParseError::MissingDeviceId)
    ));
}

#[test]
fn security_stamp_reset_always_changes() {
    let mut user = account();
    for _ in 0..8 {
        let before = user.security_stamp;
        user.reset_security_stamp();
        assert_ne!(user.security_stamp, before);
    }
}

#[test]
fn password_check_is_exact() {
    let user = account();
    assert!(user.check_valid_password("stored-hash"));
    assert!(!user.check_valid_password("stored-hash "));
    assert!(!user.check_valid_password(""));
    assert!(!user.check_valid_password("stored-hasH"));
}

#[test]
fn email_change_requires_a_pending_change() {
    let mut user = account();
    let r = confirm_email_change(
        &mut user,
        &"stored-hash".to_string(),
        "new@example.com".to_string(),
        "new-hash".to_string(),
        "new-key".to_string(),
        1,
        false,
        &config(),
        9000,
    );
    assert!(matches!(
        r,
        Err(SecurityError::ValidationFailed(ValidationReason::NoEmailChangePending))
    ));
}

#[test]
fn email_change_confirms_only_the_pending_address() {
    let mut user = account();
    let token = begin_email_change(
        &mut user,
        &"stored-hash".to_string(),
        "new@example.com".to_string(),
        false,
        true,
        &config(),
    )
    .expect("opening the change must succeed");
    let r = confirm_email_change(
        &mut user,
        &"stored-hash".to_string(),
        "different@example.com".to_string(),
        "new-hash".to_string(),
        "new-key".to_string(),
        token,
        false,
        &config(),
        9000,
    );
    assert!(matches!(
        r,
        Err(SecurityError::ValidationFailed(ValidationReason::EmailChangeMismatch))
    ));
    assert_eq!(user.email, "user@example.com");
}

#[test]
fn email_verification_claim_must_name_the_account() {
    let mut user = account();
    let r = account_security::email::apply_email_verification(
        &mut user,
        &"user-2".to_string(),
        9000,
    );
    assert!(matches!(
        r,
        Err(SecurityError::ValidationFailed(ValidationReason::ClaimMismatch))
    ));
    user.login_verify_count = 3;
    let ok = account_security::email::apply_email_verification(
        &mut user,
        &"user-1".to_string(),
        9000,
    );
    assert_eq!(ok, Ok(()));
    assert_eq!(user.verified_at, Some(9000));
    assert_eq!(user.last_verifying_at, None);
    assert_eq!(user.login_verify_count, 0);
}

#[test]
fn delete_recovery_needs_mail_and_a_matching_claim() {
    let mut cfg = config();
    cfg.mail_enabled = false;
    assert!(matches!(
        account_security::email::delete_recovery_allowed(&cfg),
        Err(SecurityError::PolicyViolation(PolicyReason::DeleteRecoveryUnavailable))
    ));
    assert_eq!(account_security::email::delete_recovery_allowed(&config()), Ok(()));
    let user = account();
    assert_eq!(
        account_security::email::check_delete_recovery_claim(&user, &"user-1".to_string()),
        Ok(())
    );
    assert!(matches!(
        account_security::email::check_delete_recovery_claim(&user, &"user-9".to_string()),
        Err(SecurityError::ValidationFailed(ValidationReason::ClaimMismatch))
    ));
}

#[test]
fn session_reset_logs_everyone_out() {
    let mut user = account();
    let b = account_security::password::reset_account_sessions(&mut user);
    assert_ne!(user.security_stamp, 42);
    assert_eq!(b.user_id, "user-1");
    assert_eq!(b.excluded_device, None);
}

#[test]
fn prelogin_reads_the_submitted_address() {
    let data = account_security::profile::PreloginData { email: "user@example.com".to_string() };
    let user = account();
    let found = if data.email == user.email { Some(&user) } else { None };
    assert_eq!(prelogin_kdf(found), user.kdf);
}
