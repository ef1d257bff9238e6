use account_security::authreq::{
    create_auth_request, expired_auth_request_ids, get_auth_request, get_auth_request_by_code,
    list_pending_auth_requests, respond_auth_request, AuthRequest, AuthRequestRequest,
    AuthResponseOutcome, AuthResponseRequest,
};
use account_security::device::Device;
use account_security::error::SecurityError;
use account_security::kdf::{Kdf, KdfType};
use account_security::user::User;

fn owner() -> User {
    User {
        uuid: "user-1".to_string(),
        email: "user@example.com".to_string(),
        name: "User".to_string(),
        email_new: None,
        email_new_token: None,
        password_hash: "stored-hash".to_string(),
        password_hint: None,
        akey: "key".to_string(),
        private_key: None,
        public_key: None,
        kdf: Kdf { kdf_type: KdfType::Pbkdf2, iterations: 600000, memory: None, parallelism: None },
        security_stamp: 1,
        stamp_exception: None,
        api_key: None,
        verified_at: None,
        last_verifying_at: None,
        login_verify_count: 0,
        avatar_color: None,
        created_at: 1000,
    }
}

fn requesting_device() -> Device {
    Device {
        uuid: "dev-req".to_string(),
        user_uuid: "user-1".to_string(),
        atype: 9,
        push_token: None,
    }
}

fn request_payload() -> AuthRequestRequest {
    AuthRequestRequest {
        access_code: "secret-code".to_string(),
        device_identifier: "dev-req".to_string(),
        email: "user@example.com".to_string(),
        public_key: "ephemeral-pub".to_string(),
    }
}

fn pending_request() -> AuthRequest {
    let user = owner();
    let device = requesting_device();
    create_auth_request(
        Some(&user),
        Some(&device),
        9,
        &"203.0.113.5".to_string(),
        request_payload(),
        "req-1".to_string(),
        5000,
    )
    .expect("creation with matching device must succeed")
}

fn approval() -> AuthResponseRequest {
    AuthResponseRequest {
        device_identifier: "dev-resp".to_string(),
        key: "enc-key-for-requester".to_string(),
        master_password_hash: Some("mph".to_string()),
        request_approved: true,
    }
}

fn denial() -> AuthResponseRequest {
    AuthResponseRequest {
        device_identifier: "dev-resp".to_string(),
        key: "unused".to_string(),
        master_password_hash: None,
        request_approved: false,
    }
}

#[test]
fn create_records_the_request_pending() {
    let a = pending_request();
    assert_eq!(a.uuid, "req-1");
    assert_eq!(a.user_uuid, "user-1");
    assert_eq!(a.request_device_identifier, "dev-req");
    assert_eq!(a.device_type, 9);
    assert_eq!(a.request_ip, "203.0.113.5");
    assert_eq!(a.access_code, "secret-code");
    assert_eq!(a.public_key, "ephemeral-pub");
    assert_eq!(a.approved, None);
    assert_eq!(a.enc_key, None);
    assert_eq!(a.master_password_hash, None);
    assert_eq!(a.response_device_id, None);
    assert_eq!(a.response_date, None);
    assert_eq!(a.creation_date, 5000);
}

#[test]
fn create_refuses_unknown_user() {
    let device = requesting_device();
    let r = create_auth_request(
        None,
        Some(&device),
        9,
        &"203.0.113.5".to_string(),
        request_payload(),
        "req-1".to_string(),
        5000,
    );
    assert!(matches!(r, Err(SecurityError::NotFound)));
}

#[test]
fn create_refuses_device_type_mismatch() {
    let user = owner();
    let device = requesting_device();
    let r = create_auth_request(
        Some(&user),
        Some(&device),
        3,
        &"203.0.113.5".to_string(),
        request_payload(),
        "req-1".to_string(),
        5000,
    );
    assert!(matches!(r, Err(SecurityError::NotFound)));
}

#[test]
fn create_refuses_foreign_device() {
    let user = owner();
    let mut device = requesting_device();
    device.user_uuid = "user-2".to_string();
    let r = create_auth_request(
        Some(&user),
        Some(&device),
        9,
        &"203.0.113.5".to_string(),
        request_payload(),
        "req-1".to_string(),
        5000,
    );
    assert!(matches!(r, Err(SecurityError::NotFound)));
}

#[test]
fn approval_fills_the_response_fields() {
    let a = pending_request();
    let r = respond_auth_request(
        &a,
        approval(),
        &"user-1".to_string(),
        &"dev-resp".to_string(),
        6000,
    );
    match r {
        Ok(AuthResponseOutcome::Approved(updated)) => {
            assert_eq!(updated.approved, Some(true));
            assert_eq!(updated.enc_key, Some("enc-key-for-requester".to_string()));
            assert_eq!(updated.master_password_hash, Some("mph".to_string()));
            assert_eq!(updated.response_device_id, Some("dev-resp".to_string()));
            assert_eq!(updated.response_date, Some(6000));
            assert_eq!(updated.uuid, "req-1");
            assert_eq!(updated.creation_date, 5000);
        }
        _ => panic!("approval by the owner must succeed"),
    }
}

#[test]
fn denial_deletes_instead_of_marking() {
    let a = pending_request();
    let r = respond_auth_request(&a, denial(), &"user-1".to_string(), &"dev-resp".to_string(), 6000);
    assert!(matches!(r, Ok(AuthResponseOutcome::Denied)));
}

#[test]
fn second_transition_is_a_state_conflict() {
    let a = pending_request();
    let first = respond_auth_request(
        &a,
        approval(),
        &"user-1".to_string(),
        &"dev-resp".to_string(),
        6000,
    );
    let approved = match first {
        Ok(AuthResponseOutcome::Approved(u)) => u,
        _ => panic!("first approval must succeed"),
    };
    // A second approval and a second denial both hit the terminal state.
    let again = respond_auth_request(
        &approved,
        approval(),
        &"user-1".to_string(),
        &"dev-resp".to_string(),
        7000,
    );
    assert!(matches!(again, Err(SecurityError::StateConflict)));
    let deny_after = respond_auth_request(
        &approved,
        denial(),
        &"user-1".to_string(),
        &"dev-resp".to_string(),
        7000,
    );
    assert!(matches!(deny_after, Err(SecurityError::StateConflict)));
}

#[test]
fn response_requires_same_user_and_own_device() {
    let a = pending_request();
    let foreign_user = respond_auth_request(
        &a,
        approval(),
        &"user-2".to_string(),
        &"dev-resp".to_string(),
        6000,
    );
    assert!(matches!(foreign_user, Err(SecurityError::NotFound)));
    let wrong_device = respond_auth_request(
        &a,
        approval(),
        &"user-1".to_string(),
        &"dev-other".to_string(),
        6000,
    );
    assert!(matches!(wrong_device, Err(SecurityError::NotFound)));
}

#[test]
fn poll_succeeds_with_code_device_and_ip() {
    let a = pending_request();
    let r = get_auth_request_by_code(Some(&a), 9, &"203.0.113.5".to_string(), "secret-code");
    assert_eq!(r, Ok(()));
}

#[test]
fn poll_mismatches_are_indistinguishable() {
    let a = pending_request();
    let ip = "203.0.113.5".to_string();
    let wrong_code = get_auth_request_by_code(Some(&a), 9, &ip, "wrong-code");
    let wrong_type = get_auth_request_by_code(Some(&a), 3, &ip, "secret-code");
    let wrong_ip =
        get_auth_request_by_code(Some(&a), 9, &"198.51.100.7".to_string(), "secret-code");
    let missing = get_auth_request_by_code(None, 9, &ip, "secret-code");
    assert_eq!(wrong_code, Err(SecurityError::NotFound));
    assert_eq!(wrong_type, wrong_code);
    assert_eq!(wrong_ip, wrong_code);
    assert_eq!(missing, wrong_code);
}

#[test]
fn lookup_is_scoped_to_the_owner() {
    let a = pending_request();
    assert_eq!(get_auth_request(Some(&a), &"user-1".to_string()), Ok(()));
    assert_eq!(
        get_auth_request(Some(&a), &"user-2".to_string()),
        Err(SecurityError::NotFound)
    );
    assert_eq!(get_auth_request(None, &"user-1".to_string()), Err(SecurityError::NotFound));
}

#[test]
fn listing_keeps_only_pending_in_order() {
    let a = pending_request();
    let approved = match respond_auth_request(
        &a,
        approval(),
        &"user-1".to_string(),
        &"dev-resp".to_string(),
        6000,
    ) {
        Ok(AuthResponseOutcome::Approved(u)) => u,
        _ => panic!("approval must succeed"),
    };
    let mut b = pending_request();
    b.uuid = "req-2".to_string();
    let mut c = pending_request();
    c.uuid = "req-3".to_string();
    let all = vec![b, approved, c];
    let pending = list_pending_auth_requests(&all);
    assert_eq!(pending.len(), 2);
    assert_eq!(pending[0].uuid, "req-2");
    assert_eq!(pending[1].uuid, "req-3");
}

#[test]
fn sweep_selects_expired_pending_only() {
    let a = pending_request();  // created at 5000
    let mut approved = match respond_auth_request(
        &a,
        approval(),
        &"user-1".to_string(),
        &"dev-resp".to_string(),
        6000,
    ) {
        Ok(AuthResponseOutcome::Approved(u)) => u,
        _ => panic!("approval must succeed"),
    };
    approved.creation_date = 100;
    let mut old_pending = pending_request();
    old_pending.uuid = "req-old".to_string();
    old_pending.creation_date = 100;
    let fresh = pending_request();
    let all = vec![old_pending, approved, fresh];
    // With a time to live of 2000 ms at instant 5500, only the request
    // from instant 100 has expired; the approved one is terminal and the
    // fresh one too young.
    let ids = expired_auth_request_ids(&all, 5500, 2000);
    assert_eq!(ids, vec!["req-old".to_string()]);
}

#[test]
fn sweep_against_the_clock_finds_ancient_requests() {
    let mut ancient = pending_request();
    ancient.creation_date = 0;  // the epoch itself: expired under any real clock
    let all = vec![ancient];
    let ids = account_security::authreq::purge_expired_auth_requests(&all, 1000);
    assert_eq!(ids, vec!["req-1".to_string()]);
}
