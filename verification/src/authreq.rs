use vstd::prelude::*;

use crate::clock::now_millis;
use crate::crypto::ct_eq_str;
use crate::device::Device;
use crate::error::SecurityError;
use crate::user::User;

verus! {

/// One passwordless device-approval attempt.  It is created pending,
/// takes at most one terminal transition (approval retains the record,
/// denial deletes it), and may be polled read-only by the unauthenticated
/// requester that knows the access code.
#[derive(Clone, Debug)]
pub struct AuthRequest {
    pub uuid: String,
    /// The account the new device wants to unlock.
    pub user_uuid: String,
    /// The device that created the request.
    pub request_device_identifier: String,
    /// Declared client type of the requesting device.
    pub device_type: i32,
    /// Source address recorded at creation; polls must present it again.
    pub request_ip: String,
    /// Client-chosen shared secret for unauthenticated polling, compared
    /// in constant time and never hashed.
    pub access_code: String,
    /// The requester's ephemeral public key.
    pub public_key: String,
    /// Key material the approving device deposited; set only on approval.
    pub enc_key: Option<String>,
    /// Optional master-password hash deposited on approval.
    pub master_password_hash: Option<String>,
    /// None = pending, Some(true) = approved.  Some(false) is never
    /// persisted: denial is represented by deleting the record.
    pub approved: Option<bool>,
    pub response_device_id: Option<String>,
    pub creation_date: i64,
    pub response_date: Option<i64>,
}

impl AuthRequest {
    /// What every stored request satisfies: no persisted denial, and the
    /// response fields are populated only once a transition happened.
    pub open spec fn wf(self) -> bool {
        &&& self.approved != Some(false)
        &&& self.approved is None ==> self.enc_key is None && self.master_password_hash is None
            && self.response_device_id is None && self.response_date is None
    }

    /// Hold a supplied access code against the stored one, in constant
    /// time with respect to the stored secret: the code is short and a
    /// timing oracle would make it guessable.
    pub fn check_access_code(&self, code: &str) -> (r: bool)
        ensures
            r == (code@ == self.access_code@),
    {
        ct_eq_str(self.access_code.as_str(), code)
    }
}

/// What the requesting, not yet authenticated, device submits to open an
/// auth request.
pub struct AuthRequestRequest {
    pub access_code: String,
    pub device_identifier: String,
    pub email: String,
    pub public_key: String,
}

/// What an authenticated device of the same user submits to answer one.
pub struct AuthResponseRequest {
    pub device_identifier: String,
    pub key: String,
    pub master_password_hash: Option<String>,
    pub request_approved: bool,
}

/// The terminal transition the store must carry out: persist the approved
/// record, or delete it (denial keeps no state).
pub enum AuthResponseOutcome {
    Approved(AuthRequest),
    Denied,
}

/// The exact outcome creation owes, given the looked-up user (by the
/// submitted email) and device (by the submitted identifier and that
/// user).  A missing user, a device of another user or under another
/// identifier, or a declared type unlike the caller's all yield the same
/// generic error: request forgery with a stolen device identifier learns
/// nothing.
pub open spec fn create_auth_request_outcome(
    user: Option<&User>,
    device: Option<&Device>,
    caller_device_type: i32,
    caller_ip: String,
    data: AuthRequestRequest,
    new_uuid: String,
    now_ms: i64,
) -> Result<AuthRequest, SecurityError> {
    match (user, device) {
        (Some(u), Some(d)) => {
            if d.uuid@ == data.device_identifier@ && d.user_uuid@ == u.uuid@ && d.atype
                == caller_device_type {
                Ok(
                    AuthRequest {
                        uuid: new_uuid,
                        user_uuid: u.uuid,
                        request_device_identifier: data.device_identifier,
                        device_type: caller_device_type,
                        request_ip: caller_ip,
                        access_code: data.access_code,
                        public_key: data.public_key,
                        enc_key: None,
                        master_password_hash: None,
                        approved: None,
                        response_device_id: None,
                        response_date: None,
                        creation_date: now_ms,
                    },
                )
            } else {
                Err(SecurityError::NotFound)
            }
        },
        _ => Err(SecurityError::NotFound),
    }
}

/// Open a pending auth request on behalf of an unauthenticated caller.
/// The caller's store lookups are handed in; the checks and the record
/// construction are exact per `create_auth_request_outcome`.  The caller
/// persists the record, signals the user's other devices and logs the
/// security event.
pub fn create_auth_request(
    user: Option<&User>,
    device: Option<&Device>,
    caller_device_type: i32,
    caller_ip: &String,
    data: AuthRequestRequest,
    new_uuid: String,
    now_ms: i64,
) -> (r: Result<AuthRequest, SecurityError>)
    ensures
        r == create_auth_request_outcome(
            user,
            device,
            caller_device_type,
            *caller_ip,
            data,
            new_uuid,
            now_ms,
        ),
        r matches Ok(a) ==> a.wf(),
{
    let u = match user {
        Some(u) => u,
        None => {
            return Err(SecurityError::NotFound);
        },
    };
    let d = match device {
        Some(d) => d,
        None => {
            return Err(SecurityError::NotFound);
        },
    };
    if !(d.uuid == data.device_identifier && d.user_uuid == u.uuid && d.atype
        == caller_device_type) {
        return Err(SecurityError::NotFound);
    }
    Ok(
        AuthRequest {
            uuid: new_uuid,
            user_uuid: u.uuid.clone(),
            request_device_identifier: data.device_identifier,
            device_type: caller_device_type,
            request_ip: caller_ip.clone(),
            access_code: data.access_code,
            public_key: data.public_key,
            enc_key: None,
            master_password_hash: None,
            approved: None,
            response_device_id: None,
            response_date: None,
            creation_date: now_ms,
        },
    )
}

/// As `create_auth_request`, stamping the record with the clock's own
/// reading; everything but the exact instant is as there.
pub fn create_auth_request_now(
    user: Option<&User>,
    device: Option<&Device>,
    caller_device_type: i32,
    caller_ip: &String,
    data: AuthRequestRequest,
    new_uuid: String,
) -> (r: Result<AuthRequest, SecurityError>)
    ensures
        exists|t: i64|
            r == create_auth_request_outcome(
                user,
                device,
                caller_device_type,
                *caller_ip,
                data,
                new_uuid,
                t,
            ),
        r matches Ok(a) ==> a.wf(),
{
    let now_ms = now_millis();
    let r = create_auth_request(user, device, caller_device_type, caller_ip, data, new_uuid, now_ms);
    proof {
        assert(r == create_auth_request_outcome(
            user,
            device,
            caller_device_type,
            *caller_ip,
            data,
            new_uuid,
            now_ms,
        ));
    }
    r
}

/// The exact outcome a response owes.  Only a device of the same user may
/// respond, only under its own identifier, and only while the request is
/// still pending: transitions are single-shot, a request already in a
/// terminal state yields a state conflict.
pub open spec fn respond_auth_request_spec(
    req: AuthRequest,
    data: AuthResponseRequest,
    responder_user_uuid: Seq<char>,
    responder_device_uuid: Seq<char>,
    now_ms: i64,
) -> Result<AuthResponseOutcome, SecurityError> {
    if req.user_uuid@ != responder_user_uuid {
        Err(SecurityError::NotFound)
    } else if responder_device_uuid != data.device_identifier@ {
        Err(SecurityError::NotFound)
    } else if req.approved is Some {
        Err(SecurityError::StateConflict)
    } else if data.request_approved {
        Ok(
            AuthResponseOutcome::Approved(
                AuthRequest {
                    approved: Some(true),
                    enc_key: Some(data.key),
                    master_password_hash: data.master_password_hash,
                    response_device_id: Some(data.device_identifier),
                    response_date: Some(now_ms),
                    ..req
                },
            ),
        )
    } else {
        Ok(AuthResponseOutcome::Denied)
    }
}

fn clone_opt_string(x: &Option<String>) -> (r: Option<String>)
    ensures
        r == *x,
{
    match x {
        None => None,
        Some(s) => Some(s.clone()),
    }
}

/// Answer a pending auth request: approve, depositing the encrypted key
/// material for the requester, or deny, which the caller carries out by
/// deleting the record.  The caller persists the outcome, fans out the
/// anonymous and authenticated notifications, and logs the event.
pub fn respond_auth_request(
    req: &AuthRequest,
    data: AuthResponseRequest,
    responder_user_uuid: &String,
    responder_device_uuid: &String,
    now_ms: i64,
) -> (r: Result<AuthResponseOutcome, SecurityError>)
    ensures
        r == respond_auth_request_spec(
            *req,
            data,
            responder_user_uuid@,
            responder_device_uuid@,
            now_ms,
        ),
        r matches Ok(AuthResponseOutcome::Approved(a)) ==> a.wf(),
{
    if !(req.user_uuid == *responder_user_uuid) {
        return Err(SecurityError::NotFound);
    }
    if !(*responder_device_uuid == data.device_identifier) {
        return Err(SecurityError::NotFound);
    }
    if req.approved.is_some() {
        return Err(SecurityError::StateConflict);
    }
    if data.request_approved {
        Ok(
            AuthResponseOutcome::Approved(
                AuthRequest {
                    uuid: req.uuid.clone(),
                    user_uuid: req.user_uuid.clone(),
                    request_device_identifier: req.request_device_identifier.clone(),
                    device_type: req.device_type,
                    request_ip: req.request_ip.clone(),
                    access_code: req.access_code.clone(),
                    public_key: req.public_key.clone(),
                    enc_key: Some(data.key),
                    master_password_hash: data.master_password_hash,
                    approved: Some(true),
                    response_device_id: Some(data.device_identifier),
                    response_date: Some(now_ms),
                    creation_date: req.creation_date,
                },
            ),
        )
    } else {
        Ok(AuthResponseOutcome::Denied)
    }
}

/// As `respond_auth_request`, stamping the response with the clock's own
/// reading; everything but the exact instant is as there.
pub fn respond_auth_request_now(
    req: &AuthRequest,
    data: AuthResponseRequest,
    responder_user_uuid: &String,
    responder_device_uuid: &String,
) -> (r: Result<AuthResponseOutcome, SecurityError>)
    ensures
        exists|t: i64|
            r == respond_auth_request_spec(
                *req,
                data,
                responder_user_uuid@,
                responder_device_uuid@,
                t,
            ),
        r matches Ok(AuthResponseOutcome::Approved(a)) ==> a.wf(),
{
    let now_ms = now_millis();
    let r = respond_auth_request(req, data, responder_user_uuid, responder_device_uuid, now_ms);
    proof {
        assert(r == respond_auth_request_spec(
            *req,
            data,
            responder_user_uuid@,
            responder_device_uuid@,
            now_ms,
        ));
    }
    r
}

/// A request takes at most one terminal transition.  After a successful
/// approval every further response attempt on the approved record fails:
/// with a state conflict when it comes from a device of the same user
/// under its own identifier, and with the generic lookup error otherwise.
/// (A denial deletes the record, so there a second attempt already fails
/// at lookup, by absence.)
pub proof fn lemma_auth_request_single_transition(
    req: AuthRequest,
    d1: AuthResponseRequest,
    u1: Seq<char>,
    dev1: Seq<char>,
    t1: i64,
    approved: AuthRequest,
    d2: AuthResponseRequest,
    u2: Seq<char>,
    dev2: Seq<char>,
    t2: i64,
)
    requires
        respond_auth_request_spec(req, d1, u1, dev1, t1) == Ok::<
            AuthResponseOutcome,
            SecurityError,
        >(AuthResponseOutcome::Approved(approved)),
    ensures
        respond_auth_request_spec(approved, d2, u2, dev2, t2) is Err,
        u2 == approved.user_uuid@ && dev2 == d2.device_identifier@
            ==> respond_auth_request_spec(approved, d2, u2, dev2, t2) == Err::<
            AuthResponseOutcome,
            SecurityError,
        >(SecurityError::StateConflict),
{
}

/// The exact outcome an unauthenticated poll owes.  A nonexistent
/// request, a device type or source address unlike the ones recorded at
/// creation, and a wrong access code all yield the one generic error:
/// none of the three is distinguishable from the others.
pub open spec fn poll_auth_request_spec(
    req: Option<AuthRequest>,
    caller_device_type: i32,
    caller_ip: Seq<char>,
    code: Seq<char>,
) -> Result<(), SecurityError> {
    match req {
        None => Err(SecurityError::NotFound),
        Some(a) => {
            if a.device_type != caller_device_type || a.request_ip@ != caller_ip || a.access_code@
                != code {
                Err(SecurityError::NotFound)
            } else {
                Ok(())
            }
        },
    }
}

/// Read-only poll by the unauthenticated requester: request id plus the
/// original access code, re-checked against the device type and source
/// address recorded at creation.  On success the caller renders the
/// record it already fetched; no state changes.
pub fn get_auth_request_by_code(
    req: Option<&AuthRequest>,
    caller_device_type: i32,
    caller_ip: &String,
    code: &str,
) -> (r: Result<(), SecurityError>)
    ensures
        r == poll_auth_request_spec(
            match req {
                Some(a) => Some(*a),
                None => None,
            },
            caller_device_type,
            caller_ip@,
            code@,
        ),
{
    let a = match req {
        Some(a) => a,
        None => {
            return Err(SecurityError::NotFound);
        },
    };
    if a.device_type != caller_device_type || !(a.request_ip == *caller_ip)
        || !a.check_access_code(code) {
        return Err(SecurityError::NotFound);
    }
    Ok(())
}

/// Whatever went wrong — no such request, wrong device type, wrong
/// source address, or wrong code — the poll answers with the same
/// generic error: nothing about which check failed leaks out.
pub proof fn lemma_poll_mismatch_generic(
    req: Option<AuthRequest>,
    caller_device_type: i32,
    caller_ip: Seq<char>,
    code: Seq<char>,
)
    requires
        match req {
            None => true,
            Some(a) => a.device_type != caller_device_type || a.request_ip@ != caller_ip
                || a.access_code@ != code,
        },
    ensures
        poll_auth_request_spec(req, caller_device_type, caller_ip, code) == Err::<
            (),
            SecurityError,
        >(SecurityError::NotFound),
{
}

/// Lookup of one request by an authenticated user: visible only when it
/// exists and belongs to that user, else the generic error.
pub fn get_auth_request(req: Option<&AuthRequest>, user_uuid: &String) -> (r: Result<
    (),
    SecurityError,
>)
    ensures
        r is Ok <==> (req matches Some(a) && a.user_uuid@ == user_uuid@),
        r matches Err(e) ==> e == SecurityError::NotFound,
{
    match req {
        Some(a) if a.user_uuid == *user_uuid => Ok(()),
        _ => Err(SecurityError::NotFound),
    }
}

/// The requests still awaiting a response, in stored order.
pub open spec fn pending_only(reqs: Seq<AuthRequest>) -> Seq<AuthRequest> {
    reqs.filter(|a: AuthRequest| a.approved is None)
}

proof fn lemma_pending_only_push(s: Seq<AuthRequest>, x: AuthRequest)
    ensures
        pending_only(s.push(x)) == (if x.approved is None {
            pending_only(s).push(x)
        } else {
            pending_only(s)
        }),
{
    reveal(Seq::filter);
    assert(s.push(x).drop_last() =~= s);
    assert(s.push(x).last() == x);
}

fn clone_auth_request(a: &AuthRequest) -> (r: AuthRequest)
    ensures
        r == *a,
{
    AuthRequest {
        uuid: a.uuid.clone(),
        user_uuid: a.user_uuid.clone(),
        request_device_identifier: a.request_device_identifier.clone(),
        device_type: a.device_type,
        request_ip: a.request_ip.clone(),
        access_code: a.access_code.clone(),
        public_key: a.public_key.clone(),
        enc_key: clone_opt_string(&a.enc_key),
        master_password_hash: clone_opt_string(&a.master_password_hash),
        approved: a.approved,
        response_device_id: clone_opt_string(&a.response_device_id),
        creation_date: a.creation_date,
        response_date: a.response_date,
    }
}

/// List the user's requests still in the pending state, in the order the
/// store returned them (stable for client display).
#[verifier::loop_isolation(false)]
pub fn list_pending_auth_requests(reqs: &Vec<AuthRequest>) -> (r: Vec<AuthRequest>)
    ensures
        r@ == pending_only(reqs@),
{
    let mut out: Vec<AuthRequest> = Vec::new();
    let mut i: usize = 0;
    proof {
        assert(reqs@.take(0) =~= Seq::<AuthRequest>::empty());
        reveal(Seq::filter);
    }
    while i < reqs.len()
        invariant
            i <= reqs@.len(),
            out@ == pending_only(reqs@.take(i as int)),
        decreases reqs@.len() - i,
    {
        proof {
            assert(reqs@.take(i as int + 1) =~= reqs@.take(i as int).push(reqs@[i as int]));
            lemma_pending_only_push(reqs@.take(i as int), reqs@[i as int]);
        }
        if reqs[i].approved.is_none() {
            out.push(clone_auth_request(&reqs[i]));
        }
        i = i + 1;
    }
    proof {
        assert(reqs@.take(reqs@.len() as int) =~= reqs@);
    }
    out
}

/// The identifiers the periodic expiry sweep must delete: requests still
/// pending whose age exceeds the configured time to live.  A request
/// answered concurrently no longer matches; one already deleted makes the
/// store's delete a harmless no-op.
pub open spec fn expired_pending(reqs: Seq<AuthRequest>, now_ms: i64, ttl_ms: i64) -> Seq<
    AuthRequest,
> {
    reqs.filter(|a: AuthRequest| a.approved is None && a.creation_date < now_ms - ttl_ms)
}

proof fn lemma_expired_pending_push(s: Seq<AuthRequest>, x: AuthRequest, now_ms: i64, ttl_ms: i64)
    ensures
        expired_pending(s.push(x), now_ms, ttl_ms) == (if x.approved is None && x.creation_date
            < now_ms - ttl_ms {
            expired_pending(s, now_ms, ttl_ms).push(x)
        } else {
            expired_pending(s, now_ms, ttl_ms)
        }),
{
    reveal(Seq::filter);
    assert(s.push(x).drop_last() =~= s);
    assert(s.push(x).last() == x);
}

/// Select the expired pending requests at a given instant; the caller
/// deletes each returned identifier.
#[verifier::loop_isolation(false)]
pub fn expired_auth_request_ids(reqs: &Vec<AuthRequest>, now_ms: i64, ttl_ms: i64) -> (r: Vec<
    String,
>)
    requires
        0 <= ttl_ms,
        i64::MIN + ttl_ms <= now_ms,
    ensures
        r@.len() == expired_pending(reqs@, now_ms, ttl_ms).len(),
        forall|j: int|
            0 <= j < r@.len() ==> r@[j]@ == expired_pending(reqs@, now_ms, ttl_ms)[j].uuid@,
{
    let cutoff: i64 = now_ms - ttl_ms;
    let mut out: Vec<String> = Vec::new();
    let mut i: usize = 0;
    proof {
        assert(reqs@.take(0) =~= Seq::<AuthRequest>::empty());
        reveal(Seq::filter);
    }
    while i < reqs.len()
        invariant
            i <= reqs@.len(),
            out@.len() == expired_pending(reqs@.take(i as int), now_ms, ttl_ms).len(),
            forall|j: int|
                0 <= j < out@.len() ==> out@[j]@ == expired_pending(
                    reqs@.take(i as int),
                    now_ms,
                    ttl_ms,
                )[j].uuid@,
        decreases reqs@.len() - i,
    {
        proof {
            assert(reqs@.take(i as int + 1) =~= reqs@.take(i as int).push(reqs@[i as int]));
            lemma_expired_pending_push(reqs@.take(i as int), reqs@[i as int], now_ms, ttl_ms);
        }
        if reqs[i].approved.is_none() && reqs[i].creation_date < cutoff {
            out.push(reqs[i].uuid.clone());
        }
        i = i + 1;
    }
    proof {
        assert(reqs@.take(reqs@.len() as int) =~= reqs@);
    }
    out
}

/// As `expired_auth_request_ids`, against the clock's own reading.  The
/// time to live must be nonnegative; whatever instant the clock gave,
/// every returned identifier belongs to an expired pending request of the
/// input.
pub fn purge_expired_auth_requests(reqs: &Vec<AuthRequest>, ttl_ms: i64) -> (r: Vec<String>)
    requires
        0 <= ttl_ms,
    ensures
        exists|t: i64|
            #![trigger expired_pending(reqs@, t, ttl_ms)]
            {
                &&& r@.len() == expired_pending(reqs@, t, ttl_ms).len()
                &&& forall|j: int|
                    0 <= j < r@.len() ==> r@[j]@ == expired_pending(reqs@, t, ttl_ms)[j].uuid@
            },
{
    let now_ms = now_millis();
    // A clock reading older than the representable floor plus the time to
    // live selects nothing anyway; clamping keeps the arithmetic in range.
    let floor: i64 = i64::MIN + ttl_ms;
    let now_eff: i64 = if now_ms < floor {
        floor
    } else {
        now_ms
    };
    let r = expired_auth_request_ids(reqs, now_eff, ttl_ms);
    proof {
        assert(r@.len() == expired_pending(reqs@, now_eff, ttl_ms).len());
    }
    r
}

} // verus!
