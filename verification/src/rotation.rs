use vstd::prelude::*;

use crate::entities::{
    ciphers_distinct, emergency_access_distinct, folders_distinct, memberships_distinct,
    sends_distinct, Cipher, EmergencyAccess, Folder, Membership, Send,
};
use crate::error::{RotationFamily, SecurityError, ValidationReason};
use crate::kdf::Kdf;
use crate::user::{opt_str_view, LogoutBroadcast, User};

verus! {

/// One folder entry of a rotation payload.  The entry identifier may be
/// absent (some clients submit a spurious null entry); such entries are
/// skipped, never applied.
pub struct UpdateFolderData {
    pub id: Option<String>,
    pub name: String,
}

/// One emergency-access entry of a rotation payload.
pub struct UpdateEmergencyAccessData {
    pub id: String,
    pub key_encrypted: String,
}

/// One organization reset-password entry of a rotation payload.
pub struct UpdateResetPasswordData {
    pub organization_id: String,
    pub reset_password_key: String,
}

/// One cipher entry of a rotation payload.  Entries that belong to an
/// organization are not part of a personal rotation and are filtered out.
pub struct RotateCipherData {
    pub id: Option<String>,
    pub organization_id: Option<String>,
    pub data: String,
}

/// One send entry of a rotation payload.
pub struct RotateSendData {
    pub id: Option<String>,
    pub data: String,
}

/// The KDF declaration and the new master-key material of a rotation
/// payload.  The declared KDF and email must equal the stored ones:
/// rotation is not a parameter-change path.
pub struct MasterPasswordUnlockData {
    pub kdf: Kdf,
    pub email: String,
    pub master_key_authentication_hash: String,
    pub master_key_encrypted_user_key: String,
}

/// The new asymmetric-key material: only the private-key ciphertext may
/// change, the public key itself is immutable across rotation.
pub struct RotateAccountKeys {
    pub user_key_encrypted_account_private_key: String,
    pub account_public_key: String,
}

pub struct RotateAccountUnlockData {
    pub emergency_access_unlock_data: Vec<UpdateEmergencyAccessData>,
    pub master_password_unlock_data: MasterPasswordUnlockData,
    pub organization_account_recovery_unlock_data: Vec<UpdateResetPasswordData>,
}

pub struct RotateAccountData {
    pub ciphers: Vec<RotateCipherData>,
    pub folders: Vec<UpdateFolderData>,
    pub sends: Vec<RotateSendData>,
}

/// A full key-rotation payload: the complete re-encrypted ciphertext set
/// of the account, as the client produced it locally.
pub struct KeyData {
    pub account_unlock_data: RotateAccountUnlockData,
    pub account_keys: RotateAccountKeys,
    pub account_data: RotateAccountData,
    pub old_master_key_authentication_hash: String,
}

// ---------------------------------------------------------------------
// Completeness: the payload identifier set must cover every identifier
// the user currently owns, per family.
// ---------------------------------------------------------------------

pub open spec fn payload_has_cipher(cs: Seq<RotateCipherData>, id: Seq<char>) -> bool {
    exists|j: int|
        #![trigger cs[j]]
        {
            &&& 0 <= j < cs.len()
            &&& cs[j].organization_id is None
            &&& cs[j].id matches Some(pid) && pid@ == id
        }
}

pub open spec fn ciphers_covered(cs: Seq<RotateCipherData>, existing: Seq<Cipher>) -> bool {
    forall|i: int| 0 <= i < existing.len() ==> payload_has_cipher(cs, existing[i].uuid@)
}

pub open spec fn payload_has_folder(fs: Seq<UpdateFolderData>, id: Seq<char>) -> bool {
    exists|j: int|
        #![trigger fs[j]]
        {
            &&& 0 <= j < fs.len()
            &&& fs[j].id matches Some(pid) && pid@ == id
        }
}

pub open spec fn folders_covered(fs: Seq<UpdateFolderData>, existing: Seq<Folder>) -> bool {
    forall|i: int| 0 <= i < existing.len() ==> payload_has_folder(fs, existing[i].uuid@)
}

pub open spec fn payload_has_emergency_access(es: Seq<UpdateEmergencyAccessData>, id: Seq<char>) -> bool {
    exists|j: int| 0 <= j < es.len() && es[j].id@ == id
}

pub open spec fn emergency_access_covered(
    es: Seq<UpdateEmergencyAccessData>,
    existing: Seq<EmergencyAccess>,
) -> bool {
    forall|i: int| 0 <= i < existing.len() ==> payload_has_emergency_access(es, existing[i].uuid@)
}

pub open spec fn payload_has_reset_password(rs: Seq<UpdateResetPasswordData>, org_id: Seq<char>) -> bool {
    exists|j: int| 0 <= j < rs.len() && rs[j].organization_id@ == org_id
}

/// Only memberships that carry a reset-password key take part.
pub open spec fn reset_passwords_covered(
    rs: Seq<UpdateResetPasswordData>,
    existing: Seq<Membership>,
) -> bool {
    forall|i: int|
        0 <= i < existing.len() && existing[i].reset_password_key is Some
            ==> payload_has_reset_password(rs, existing[i].org_uuid@)
}

pub open spec fn payload_has_send(ss: Seq<RotateSendData>, id: Seq<char>) -> bool {
    exists|j: int|
        #![trigger ss[j]]
        {
            &&& 0 <= j < ss.len()
            &&& ss[j].id matches Some(pid) && pid@ == id
        }
}

pub open spec fn sends_covered(ss: Seq<RotateSendData>, existing: Seq<Send>) -> bool {
    forall|i: int| 0 <= i < existing.len() ==> payload_has_send(ss, existing[i].uuid@)
}

// ---------------------------------------------------------------------
// The consistency validation performed before anything is written.
// ---------------------------------------------------------------------

/// Does the payload declare exactly the stored KDF selection and email?
pub open spec fn declared_kdf_and_email_match(data: KeyData, user: User) -> bool {
    &&& data.account_unlock_data.master_password_unlock_data.kdf == user.kdf
    &&& data.account_unlock_data.master_password_unlock_data.email@ == user.email@
}

/// Does the payload carry the stored public key unchanged?
pub open spec fn declared_public_key_matches(data: KeyData, user: User) -> bool {
    user.public_key matches Some(pk) && pk@ == data.account_keys.account_public_key@
}

/// The exact outcome the rotation validator owes: the first failed
/// precondition, or acceptance.
pub open spec fn validate_keydata_spec(
    data: KeyData,
    existing_ciphers: Seq<Cipher>,
    existing_folders: Seq<Folder>,
    existing_emergency_access: Seq<EmergencyAccess>,
    existing_memberships: Seq<Membership>,
    existing_sends: Seq<Send>,
    user: User,
) -> Result<(), SecurityError> {
    if !declared_kdf_and_email_match(data, user) {
        Err(SecurityError::ValidationFailed(ValidationReason::RotationChangesKdfOrEmail))
    } else if !declared_public_key_matches(data, user) {
        Err(SecurityError::ValidationFailed(ValidationReason::RotationChangesKeypair))
    } else if !ciphers_covered(data.account_data.ciphers@, existing_ciphers) {
        Err(SecurityError::IncompleteRotation(RotationFamily::Ciphers))
    } else if !folders_covered(data.account_data.folders@, existing_folders) {
        Err(SecurityError::IncompleteRotation(RotationFamily::Folders))
    } else if !emergency_access_covered(
        data.account_unlock_data.emergency_access_unlock_data@,
        existing_emergency_access,
    ) {
        Err(SecurityError::IncompleteRotation(RotationFamily::EmergencyAccess))
    } else if !reset_passwords_covered(
        data.account_unlock_data.organization_account_recovery_unlock_data@,
        existing_memberships,
    ) {
        Err(SecurityError::IncompleteRotation(RotationFamily::ResetPassword))
    } else if !sends_covered(data.account_data.sends@, existing_sends) {
        Err(SecurityError::IncompleteRotation(RotationFamily::Sends))
    } else {
        Ok(())
    }
}

fn cipher_payload_covers(cs: &Vec<RotateCipherData>, id: &String) -> (r: bool)
    ensures
        r == payload_has_cipher(cs@, id@),
{
    let mut j: usize = 0;
    while j < cs.len()
        invariant
            j <= cs@.len(),
            forall|k: int|
                0 <= k < j ==> !({
                    &&& cs@[k].organization_id is None
                    &&& cs@[k].id matches Some(pid) && pid@ == id@
                }),
        decreases cs@.len() - j,
    {
        if cs[j].organization_id.is_none() {
            if let Some(pid) = &cs[j].id {
                if *pid == *id {
                    return true;
                }
            }
        }
        j = j + 1;
    }
    false
}

fn folder_payload_covers(fs: &Vec<UpdateFolderData>, id: &String) -> (r: bool)
    ensures
        r == payload_has_folder(fs@, id@),
{
    let mut j: usize = 0;
    while j < fs.len()
        invariant
            j <= fs@.len(),
            forall|k: int|
                0 <= k < j ==> !(#[trigger] fs@[k].id matches Some(pid) && pid@ == id@),
        decreases fs@.len() - j,
    {
        if let Some(pid) = &fs[j].id {
            if *pid == *id {
                return true;
            }
        }
        j = j + 1;
    }
    false
}

fn emergency_access_payload_covers(es: &Vec<UpdateEmergencyAccessData>, id: &String) -> (r: bool)
    ensures
        r == payload_has_emergency_access(es@, id@),
{
    let mut j: usize = 0;
    while j < es.len()
        invariant
            j <= es@.len(),
            forall|k: int| 0 <= k < j ==> es@[k].id@ != id@,
        decreases es@.len() - j,
    {
        if es[j].id == *id {
            return true;
        }
        j = j + 1;
    }
    false
}

fn reset_password_payload_covers(rs: &Vec<UpdateResetPasswordData>, org_id: &String) -> (r: bool)
    ensures
        r == payload_has_reset_password(rs@, org_id@),
{
    let mut j: usize = 0;
    while j < rs.len()
        invariant
            j <= rs@.len(),
            forall|k: int| 0 <= k < j ==> rs@[k].organization_id@ != org_id@,
        decreases rs@.len() - j,
    {
        if rs[j].organization_id == *org_id {
            return true;
        }
        j = j + 1;
    }
    false
}

fn send_payload_covers(ss: &Vec<RotateSendData>, id: &String) -> (r: bool)
    ensures
        r == payload_has_send(ss@, id@),
{
    let mut j: usize = 0;
    while j < ss.len()
        invariant
            j <= ss@.len(),
            forall|k: int|
                0 <= k < j ==> !(#[trigger] ss@[k].id matches Some(pid) && pid@ == id@),
        decreases ss@.len() - j,
    {
        if let Some(pid) = &ss[j].id {
            if *pid == *id {
                return true;
            }
        }
        j = j + 1;
    }
    false
}

/// Consistency validation of a rotation payload against the user's
/// stored KDF, email and public key, and completeness of each of the
/// five entity families: the payload identifier set must be a superset
/// of the owned set, else an omitted item's key material would become
/// permanently undecryptable.  Nothing is mutated here.
#[verifier::loop_isolation(false)]
pub fn validate_keydata(
    data: &KeyData,
    existing_ciphers: &Vec<Cipher>,
    existing_folders: &Vec<Folder>,
    existing_emergency_access: &Vec<EmergencyAccess>,
    existing_memberships: &Vec<Membership>,
    existing_sends: &Vec<Send>,
    user: &User,
) -> (r: Result<(), SecurityError>)
    ensures
        r == validate_keydata_spec(
            *data,
            existing_ciphers@,
            existing_folders@,
            existing_emergency_access@,
            existing_memberships@,
            existing_sends@,
            *user,
        ),
{
    let mpu = &data.account_unlock_data.master_password_unlock_data;
    if !(user.kdf == mpu.kdf && user.email == mpu.email) {
        return Err(SecurityError::ValidationFailed(ValidationReason::RotationChangesKdfOrEmail));
    }
    let pk_matches = match &user.public_key {
        Some(pk) => *pk == data.account_keys.account_public_key,
        None => false,
    };
    if !pk_matches {
        return Err(SecurityError::ValidationFailed(ValidationReason::RotationChangesKeypair));
    }

    let mut i: usize = 0;
    while i < existing_ciphers.len()
        invariant
            i <= existing_ciphers@.len(),
            forall|k: int|
                0 <= k < i ==> payload_has_cipher(
                    data.account_data.ciphers@,
                    existing_ciphers@[k].uuid@,
                ),
        decreases existing_ciphers@.len() - i,
    {
        if !cipher_payload_covers(&data.account_data.ciphers, &existing_ciphers[i].uuid) {
            return Err(SecurityError::IncompleteRotation(RotationFamily::Ciphers));
        }
        i = i + 1;
    }

    let mut i: usize = 0;
    while i < existing_folders.len()
        invariant
            i <= existing_folders@.len(),
            forall|k: int|
                0 <= k < i ==> payload_has_folder(
                    data.account_data.folders@,
                    existing_folders@[k].uuid@,
                ),
        decreases existing_folders@.len() - i,
    {
        if !folder_payload_covers(&data.account_data.folders, &existing_folders[i].uuid) {
            return Err(SecurityError::IncompleteRotation(RotationFamily::Folders));
        }
        i = i + 1;
    }

    let mut i: usize = 0;
    while i < existing_emergency_access.len()
        invariant
            i <= existing_emergency_access@.len(),
            forall|k: int|
                0 <= k < i ==> payload_has_emergency_access(
                    data.account_unlock_data.emergency_access_unlock_data@,
                    existing_emergency_access@[k].uuid@,
                ),
        decreases existing_emergency_access@.len() - i,
    {
        if !emergency_access_payload_covers(
            &data.account_unlock_data.emergency_access_unlock_data,
            &existing_emergency_access[i].uuid,
        ) {
            return Err(SecurityError::IncompleteRotation(RotationFamily::EmergencyAccess));
        }
        i = i + 1;
    }

    let mut i: usize = 0;
    while i < existing_memberships.len()
        invariant
            i <= existing_memberships@.len(),
            forall|k: int|
                0 <= k < i && existing_memberships@[k].reset_password_key is Some
                    ==> payload_has_reset_password(
                    data.account_unlock_data.organization_account_recovery_unlock_data@,
                    existing_memberships@[k].org_uuid@,
                ),
        decreases existing_memberships@.len() - i,
    {
        if existing_memberships[i].reset_password_key.is_some() {
            if !reset_password_payload_covers(
                &data.account_unlock_data.organization_account_recovery_unlock_data,
                &existing_memberships[i].org_uuid,
            ) {
                return Err(SecurityError::IncompleteRotation(RotationFamily::ResetPassword));
            }
        }
        i = i + 1;
    }

    let mut i: usize = 0;
    while i < existing_sends.len()
        invariant
            i <= existing_sends@.len(),
            forall|k: int|
                0 <= k < i ==> payload_has_send(data.account_data.sends@, existing_sends@[k].uuid@),
        decreases existing_sends@.len() - i,
    {
        if !send_payload_covers(&data.account_data.sends, &existing_sends[i].uuid) {
            return Err(SecurityError::IncompleteRotation(RotationFamily::Sends));
        }
        i = i + 1;
    }

    Ok(())
}

/// A payload that omits an owned identifier of any family is rejected,
/// whichever single family is short one item.
pub proof fn lemma_incomplete_rotation_rejected(
    data: KeyData,
    existing_ciphers: Seq<Cipher>,
    existing_folders: Seq<Folder>,
    existing_emergency_access: Seq<EmergencyAccess>,
    existing_memberships: Seq<Membership>,
    existing_sends: Seq<Send>,
    user: User,
)
    requires
        !ciphers_covered(data.account_data.ciphers@, existing_ciphers) || !folders_covered(
            data.account_data.folders@,
            existing_folders,
        ) || !emergency_access_covered(
            data.account_unlock_data.emergency_access_unlock_data@,
            existing_emergency_access,
        ) || !reset_passwords_covered(
            data.account_unlock_data.organization_account_recovery_unlock_data@,
            existing_memberships,
        ) || !sends_covered(data.account_data.sends@, existing_sends),
    ensures
        validate_keydata_spec(
            data,
            existing_ciphers,
            existing_folders,
            existing_emergency_access,
            existing_memberships,
            existing_sends,
            user,
        ) is Err,
{
}

} // verus!

verus! {

// ---------------------------------------------------------------------
// The apply phase: each payload entry replaces the key material of the
// entity it names.  Applied in place, sequentially; a failure partway
// leaves the updates already applied, which the caller persists or not
// as its store allows.
// ---------------------------------------------------------------------

/// Does every folder entry of the payload (that carries an identifier)
/// name a folder the user owns?
pub open spec fn folder_update_entry_applicable(u: UpdateFolderData, folders: Seq<Folder>) -> bool {
    match u.id {
        Some(pid) => exists|i: int| 0 <= i < folders.len() && (#[trigger] folders[i].uuid@) == pid@,
        None => true,
    }
}

pub open spec fn folder_updates_applicable(updates: Seq<UpdateFolderData>, folders: Seq<Folder>) -> bool {
    forall|k: int|
        0 <= k < updates.len() ==> folder_update_entry_applicable(#[trigger] updates[k], folders)
}

/// The name a folder with identifier `uuid` and stored name `orig` holds
/// after the updates ran: the name of the last entry that names it.
pub open spec fn folder_name_after(uuid: Seq<char>, orig: Seq<char>, updates: Seq<UpdateFolderData>) -> Seq<char>
    decreases updates.len(),
{
    if updates.len() == 0 {
        orig
    } else if updates.last().id matches Some(pid) && pid@ == uuid {
        updates.last().name@
    } else {
        folder_name_after(uuid, orig, updates.drop_last())
    }
}

proof fn lemma_folder_name_after_push(
    uuid: Seq<char>,
    orig: Seq<char>,
    s: Seq<UpdateFolderData>,
    u: UpdateFolderData,
)
    ensures
        folder_name_after(uuid, orig, s.push(u)) == (if u.id matches Some(pid) && pid@ == uuid {
            u.name@
        } else {
            folder_name_after(uuid, orig, s)
        }),
{
    assert(s.push(u).drop_last() =~= s);
    assert(s.push(u).last() == u);
}

fn find_folder(folders: &Vec<Folder>, id: &String) -> (r: Option<usize>)
    ensures
        match r {
            Some(j) => (j as int) < folders@.len() && folders@[j as int].uuid@ == id@,
            None => forall|i: int| 0 <= i < folders@.len() ==> folders@[i].uuid@ != id@,
        },
{
    let mut j: usize = 0;
    while j < folders.len()
        invariant
            j <= folders@.len(),
            forall|i: int| 0 <= i < j ==> folders@[i].uuid@ != id@,
        decreases folders@.len() - j,
    {
        if folders[j].uuid == *id {
            return Some(j);
        }
        j = j + 1;
    }
    None
}

#[verifier::loop_isolation(false)]
fn apply_folder_updates(folders: &mut Vec<Folder>, updates: &Vec<UpdateFolderData>) -> (r: Result<
    (),
    SecurityError,
>)
    requires
        folders_distinct(old(folders)@),
    ensures
        final(folders)@.len() == old(folders)@.len(),
        forall|i: int|
            0 <= i < old(folders)@.len() ==> final(folders)@[i].uuid@ == old(folders)@[i].uuid@,
        r matches Ok(()) ==> folder_updates_applicable(updates@, old(folders)@) && (forall|i: int|
            0 <= i < old(folders)@.len() ==> final(folders)@[i].name@ == folder_name_after(
                old(folders)@[i].uuid@,
                old(folders)@[i].name@,
                updates@,
            )),
        r matches Err(e) ==> e == SecurityError::NotFound && !folder_updates_applicable(
            updates@,
            old(folders)@,
        ),
{
    let ghost orig = old(folders)@;
    let mut k: usize = 0;
    while k < updates.len()
        invariant
            k <= updates@.len(),
            folders@.len() == orig.len(),
            forall|i: int| 0 <= i < orig.len() ==> folders@[i].uuid@ == orig[i].uuid@,
            forall|i: int|
                0 <= i < orig.len() ==> folders@[i].name@ == folder_name_after(
                    orig[i].uuid@,
                    orig[i].name@,
                    updates@.take(k as int),
                ),
            forall|kk: int|
                0 <= kk < k ==> folder_update_entry_applicable(#[trigger] updates@[kk], orig),
        decreases updates@.len() - k,
    {
        let ghost prefix = updates@.take(k as int);
        proof {
            assert(updates@.take(k as int + 1) =~= prefix.push(updates@[k as int]));
        }
        match &updates[k].id {
            None => {
                proof {
                    assert forall|i: int| 0 <= i < orig.len() implies folders@[i].name@
                        == folder_name_after(
                        orig[i].uuid@,
                        orig[i].name@,
                        updates@.take(k as int + 1),
                    ) by {
                        lemma_folder_name_after_push(
                            orig[i].uuid@,
                            orig[i].name@,
                            prefix,
                            updates@[k as int],
                        );
                    }
                }
            },
            Some(pid) => {
                match find_folder(folders, pid) {
                    None => {
                        return Err(SecurityError::NotFound);
                    },
                    Some(j) => {
                        proof {
                            assert(folder_update_entry_applicable(updates@[k as int], orig));
                        }
                        folders[j].name = updates[k].name.clone();
                        proof {
                            assert forall|i: int| 0 <= i < orig.len() implies folders@[i].name@
                                == folder_name_after(
                                orig[i].uuid@,
                                orig[i].name@,
                                updates@.take(k as int + 1),
                            ) by {
                                lemma_folder_name_after_push(
                                    orig[i].uuid@,
                                    orig[i].name@,
                                    prefix,
                                    updates@[k as int],
                                );
                            }
                        }
                    },
                }
            },
        }
        k = k + 1;
    }
    proof {
        assert(updates@.take(updates@.len() as int) =~= updates@);
        assert forall|kk: int| 0 <= kk < updates@.len() implies folder_update_entry_applicable(
            #[trigger] updates@[kk],
            orig,
        ) by {}
        assert(folder_updates_applicable(updates@, orig));
    }
    Ok(())
}

} // verus!

verus! {

// --- emergency-access grants -------------------------------------------

pub open spec fn emergency_access_update_entry_applicable(
    u: UpdateEmergencyAccessData,
    es: Seq<EmergencyAccess>,
) -> bool {
    exists|i: int| 0 <= i < es.len() && (#[trigger] es[i].uuid@) == u.id@
}

pub open spec fn emergency_access_updates_applicable(
    updates: Seq<UpdateEmergencyAccessData>,
    es: Seq<EmergencyAccess>,
) -> bool {
    forall|k: int|
        0 <= k < updates.len() ==> emergency_access_update_entry_applicable(
            #[trigger] updates[k],
            es,
        )
}

/// The grant key a grant with identifier `uuid` holds after the updates
/// ran: the key of the last entry that names it.
pub open spec fn emergency_access_key_after(
    uuid: Seq<char>,
    orig: Option<Seq<char>>,
    updates: Seq<UpdateEmergencyAccessData>,
) -> Option<Seq<char>>
    decreases updates.len(),
{
    if updates.len() == 0 {
        orig
    } else if updates.last().id@ == uuid {
        Some(updates.last().key_encrypted@)
    } else {
        emergency_access_key_after(uuid, orig, updates.drop_last())
    }
}

proof fn lemma_emergency_access_key_after_push(
    uuid: Seq<char>,
    orig: Option<Seq<char>>,
    s: Seq<UpdateEmergencyAccessData>,
    u: UpdateEmergencyAccessData,
)
    ensures
        emergency_access_key_after(uuid, orig, s.push(u)) == (if u.id@ == uuid {
            Some(u.key_encrypted@)
        } else {
            emergency_access_key_after(uuid, orig, s)
        }),
{
    assert(s.push(u).drop_last() =~= s);
    assert(s.push(u).last() == u);
}

fn find_emergency_access(es: &Vec<EmergencyAccess>, id: &String) -> (r: Option<usize>)
    ensures
        match r {
            Some(j) => (j as int) < es@.len() && es@[j as int].uuid@ == id@,
            None => forall|i: int| 0 <= i < es@.len() ==> es@[i].uuid@ != id@,
        },
{
    let mut j: usize = 0;
    while j < es.len()
        invariant
            j <= es@.len(),
            forall|i: int| 0 <= i < j ==> es@[i].uuid@ != id@,
        decreases es@.len() - j,
    {
        if es[j].uuid == *id {
            return Some(j);
        }
        j = j + 1;
    }
    None
}

#[verifier::loop_isolation(false)]
fn apply_emergency_access_updates(
    es: &mut Vec<EmergencyAccess>,
    updates: &Vec<UpdateEmergencyAccessData>,
) -> (r: Result<(), SecurityError>)
    requires
        emergency_access_distinct(old(es)@),
    ensures
        final(es)@.len() == old(es)@.len(),
        forall|i: int| 0 <= i < old(es)@.len() ==> final(es)@[i].uuid@ == old(es)@[i].uuid@,
        r matches Ok(()) ==> emergency_access_updates_applicable(updates@, old(es)@) && (forall|i: int|
            0 <= i < old(es)@.len() ==> opt_str_view(final(es)@[i].key_encrypted)
                == emergency_access_key_after(
                old(es)@[i].uuid@,
                opt_str_view(old(es)@[i].key_encrypted),
                updates@,
            )),
        r matches Err(e) ==> e == SecurityError::NotFound && !emergency_access_updates_applicable(
            updates@,
            old(es)@,
        ),
{
    let ghost orig = old(es)@;
    let mut k: usize = 0;
    while k < updates.len()
        invariant
            k <= updates@.len(),
            es@.len() == orig.len(),
            forall|i: int| 0 <= i < orig.len() ==> es@[i].uuid@ == orig[i].uuid@,
            forall|i: int|
                0 <= i < orig.len() ==> opt_str_view(es@[i].key_encrypted)
                    == emergency_access_key_after(
                    orig[i].uuid@,
                    opt_str_view(orig[i].key_encrypted),
                    updates@.take(k as int),
                ),
            forall|kk: int|
                0 <= kk < k ==> emergency_access_update_entry_applicable(
                    #[trigger] updates@[kk],
                    orig,
                ),
        decreases updates@.len() - k,
    {
        let ghost prefix = updates@.take(k as int);
        proof {
            assert(updates@.take(k as int + 1) =~= prefix.push(updates@[k as int]));
        }
        match find_emergency_access(es, &updates[k].id) {
            None => {
                return Err(SecurityError::NotFound);
            },
            Some(j) => {
                proof {
                    assert(emergency_access_update_entry_applicable(updates@[k as int], orig));
                }
                es[j].key_encrypted = Some(updates[k].key_encrypted.clone());
                proof {
                    assert forall|i: int| 0 <= i < orig.len() implies opt_str_view(
                        es@[i].key_encrypted,
                    ) == emergency_access_key_after(
                        orig[i].uuid@,
                        opt_str_view(orig[i].key_encrypted),
                        updates@.take(k as int + 1),
                    ) by {
                        lemma_emergency_access_key_after_push(
                            orig[i].uuid@,
                            opt_str_view(orig[i].key_encrypted),
                            prefix,
                            updates@[k as int],
                        );
                    }
                }
            },
        }
        k = k + 1;
    }
    proof {
        assert(updates@.take(updates@.len() as int) =~= updates@);
    }
    Ok(())
}

// --- organization reset-password keys ----------------------------------

pub open spec fn reset_password_update_entry_applicable(
    u: UpdateResetPasswordData,
    ms: Seq<Membership>,
) -> bool {
    exists|i: int|
        0 <= i < ms.len() && (#[trigger] ms[i].org_uuid@) == u.organization_id@
            && ms[i].reset_password_key is Some
}

pub open spec fn reset_password_updates_applicable(
    updates: Seq<UpdateResetPasswordData>,
    ms: Seq<Membership>,
) -> bool {
    forall|k: int|
        0 <= k < updates.len() ==> reset_password_update_entry_applicable(
            #[trigger] updates[k],
            ms,
        )
}

/// The reset-password key a membership holds after the updates ran: the
/// key of the last entry naming its organization, and only memberships
/// that already carried a key take part.
pub open spec fn reset_password_key_after(
    org_uuid: Seq<char>,
    orig: Option<Seq<char>>,
    updates: Seq<UpdateResetPasswordData>,
) -> Option<Seq<char>>
    decreases updates.len(),
{
    if updates.len() == 0 {
        orig
    } else if orig is Some && updates.last().organization_id@ == org_uuid {
        Some(updates.last().reset_password_key@)
    } else {
        reset_password_key_after(org_uuid, orig, updates.drop_last())
    }
}

proof fn lemma_reset_password_key_after_push(
    org_uuid: Seq<char>,
    orig: Option<Seq<char>>,
    s: Seq<UpdateResetPasswordData>,
    u: UpdateResetPasswordData,
)
    ensures
        reset_password_key_after(org_uuid, orig, s.push(u)) == (if orig is Some
            && u.organization_id@ == org_uuid {
            Some(u.reset_password_key@)
        } else {
            reset_password_key_after(org_uuid, orig, s)
        }),
{
    assert(s.push(u).drop_last() =~= s);
    assert(s.push(u).last() == u);
}

fn find_membership_for_reset(ms: &Vec<Membership>, org_id: &String) -> (r: Option<usize>)
    ensures
        match r {
            Some(j) => (j as int) < ms@.len() && ms@[j as int].org_uuid@ == org_id@
                && ms@[j as int].reset_password_key is Some,
            None => forall|i: int|
                0 <= i < ms@.len() ==> !((#[trigger] ms@[i].org_uuid@) == org_id@
                    && ms@[i].reset_password_key is Some),
        },
{
    let mut j: usize = 0;
    while j < ms.len()
        invariant
            j <= ms@.len(),
            forall|i: int|
                0 <= i < j ==> !((#[trigger] ms@[i].org_uuid@) == org_id@
                    && ms@[i].reset_password_key is Some),
        decreases ms@.len() - j,
    {
        if ms[j].reset_password_key.is_some() && ms[j].org_uuid == *org_id {
            return Some(j);
        }
        j = j + 1;
    }
    None
}

#[verifier::loop_isolation(false)]
fn apply_reset_password_updates(
    ms: &mut Vec<Membership>,
    updates: &Vec<UpdateResetPasswordData>,
) -> (r: Result<(), SecurityError>)
    requires
        memberships_distinct(old(ms)@),
    ensures
        final(ms)@.len() == old(ms)@.len(),
        forall|i: int|
            0 <= i < old(ms)@.len() ==> final(ms)@[i].uuid@ == old(ms)@[i].uuid@
                && final(ms)@[i].org_uuid@ == old(ms)@[i].org_uuid@,
        r matches Ok(()) ==> reset_password_updates_applicable(updates@, old(ms)@) && (forall|i: int|
            0 <= i < old(ms)@.len() ==> opt_str_view(final(ms)@[i].reset_password_key)
                == reset_password_key_after(
                old(ms)@[i].org_uuid@,
                opt_str_view(old(ms)@[i].reset_password_key),
                updates@,
            )),
        r matches Err(e) ==> e == SecurityError::NotFound && !reset_password_updates_applicable(
            updates@,
            old(ms)@,
        ),
{
    let ghost orig = old(ms)@;
    let mut k: usize = 0;
    while k < updates.len()
        invariant
            k <= updates@.len(),
            ms@.len() == orig.len(),
            forall|i: int|
                0 <= i < orig.len() ==> ms@[i].uuid@ == orig[i].uuid@ && ms@[i].org_uuid@
                    == orig[i].org_uuid@,
            forall|i: int|
                0 <= i < orig.len() ==> (ms@[i].reset_password_key is Some
                    <==> orig[i].reset_password_key is Some),
            forall|i: int|
                0 <= i < orig.len() ==> opt_str_view(ms@[i].reset_password_key)
                    == reset_password_key_after(
                    orig[i].org_uuid@,
                    opt_str_view(orig[i].reset_password_key),
                    updates@.take(k as int),
                ),
            forall|kk: int|
                0 <= kk < k ==> reset_password_update_entry_applicable(
                    #[trigger] updates@[kk],
                    orig,
                ),
        decreases updates@.len() - k,
    {
        let ghost prefix = updates@.take(k as int);
        proof {
            assert(updates@.take(k as int + 1) =~= prefix.push(updates@[k as int]));
        }
        match find_membership_for_reset(ms, &updates[k].organization_id) {
            None => {
                return Err(SecurityError::NotFound);
            },
            Some(j) => {
                proof {
                    assert(reset_password_update_entry_applicable(updates@[k as int], orig));
                }
                ms[j].reset_password_key = Some(updates[k].reset_password_key.clone());
                proof {
                    assert forall|i: int| 0 <= i < orig.len() implies opt_str_view(
                        ms@[i].reset_password_key,
                    ) == reset_password_key_after(
                        orig[i].org_uuid@,
                        opt_str_view(orig[i].reset_password_key),
                        updates@.take(k as int + 1),
                    ) by {
                        lemma_reset_password_key_after_push(
                            orig[i].org_uuid@,
                            opt_str_view(orig[i].reset_password_key),
                            prefix,
                            updates@[k as int],
                        );
                    }
                }
            },
        }
        k = k + 1;
    }
    proof {
        assert(updates@.take(updates@.len() as int) =~= updates@);
    }
    Ok(())
}

// --- sends ---------------------------------------------------------------

pub open spec fn send_update_entry_applicable(u: RotateSendData, ss: Seq<Send>) -> bool {
    u.id matches Some(pid) && (exists|i: int| 0 <= i < ss.len() && (#[trigger] ss[i].uuid@) == pid@)
}

pub open spec fn send_updates_applicable(updates: Seq<RotateSendData>, ss: Seq<Send>) -> bool {
    forall|k: int| 0 <= k < updates.len() ==> send_update_entry_applicable(#[trigger] updates[k], ss)
}

/// The payload a send with identifier `uuid` holds after the updates ran.
pub open spec fn send_data_after(uuid: Seq<char>, orig: Seq<char>, updates: Seq<RotateSendData>) -> Seq<char>
    decreases updates.len(),
{
    if updates.len() == 0 {
        orig
    } else if updates.last().id matches Some(pid) && pid@ == uuid {
        updates.last().data@
    } else {
        send_data_after(uuid, orig, updates.drop_last())
    }
}

proof fn lemma_send_data_after_push(
    uuid: Seq<char>,
    orig: Seq<char>,
    s: Seq<RotateSendData>,
    u: RotateSendData,
)
    ensures
        send_data_after(uuid, orig, s.push(u)) == (if u.id matches Some(pid) && pid@ == uuid {
            u.data@
        } else {
            send_data_after(uuid, orig, s)
        }),
{
    assert(s.push(u).drop_last() =~= s);
    assert(s.push(u).last() == u);
}

fn find_send(ss: &Vec<Send>, id: &String) -> (r: Option<usize>)
    ensures
        match r {
            Some(j) => (j as int) < ss@.len() && ss@[j as int].uuid@ == id@,
            None => forall|i: int| 0 <= i < ss@.len() ==> ss@[i].uuid@ != id@,
        },
{
    let mut j: usize = 0;
    while j < ss.len()
        invariant
            j <= ss@.len(),
            forall|i: int| 0 <= i < j ==> ss@[i].uuid@ != id@,
        decreases ss@.len() - j,
    {
        if ss[j].uuid == *id {
            return Some(j);
        }
        j = j + 1;
    }
    None
}

#[verifier::loop_isolation(false)]
fn apply_send_updates(ss: &mut Vec<Send>, updates: &Vec<RotateSendData>) -> (r: Result<
    (),
    SecurityError,
>)
    requires
        sends_distinct(old(ss)@),
    ensures
        final(ss)@.len() == old(ss)@.len(),
        forall|i: int| 0 <= i < old(ss)@.len() ==> final(ss)@[i].uuid@ == old(ss)@[i].uuid@,
        r matches Ok(()) ==> send_updates_applicable(updates@, old(ss)@) && (forall|i: int|
            0 <= i < old(ss)@.len() ==> final(ss)@[i].data@ == send_data_after(
                old(ss)@[i].uuid@,
                old(ss)@[i].data@,
                updates@,
            )),
        r matches Err(e) ==> e == SecurityError::NotFound && !send_updates_applicable(
            updates@,
            old(ss)@,
        ),
{
    let ghost orig = old(ss)@;
    let mut k: usize = 0;
    while k < updates.len()
        invariant
            k <= updates@.len(),
            ss@.len() == orig.len(),
            forall|i: int| 0 <= i < orig.len() ==> ss@[i].uuid@ == orig[i].uuid@,
            forall|i: int|
                0 <= i < orig.len() ==> ss@[i].data@ == send_data_after(
                    orig[i].uuid@,
                    orig[i].data@,
                    updates@.take(k as int),
                ),
            forall|kk: int|
                0 <= kk < k ==> send_update_entry_applicable(#[trigger] updates@[kk], orig),
        decreases updates@.len() - k,
    {
        let ghost prefix = updates@.take(k as int);
        proof {
            assert(updates@.take(k as int + 1) =~= prefix.push(updates@[k as int]));
        }
        match &updates[k].id {
            None => {
                return Err(SecurityError::NotFound);
            },
            Some(pid) => {
                match find_send(ss, pid) {
                    None => {
                        return Err(SecurityError::NotFound);
                    },
                    Some(j) => {
                        proof {
                            assert(send_update_entry_applicable(updates@[k as int], orig));
                        }
                        ss[j].data = updates[k].data.clone();
                        proof {
                            assert forall|i: int| 0 <= i < orig.len() implies ss@[i].data@
                                == send_data_after(
                                orig[i].uuid@,
                                orig[i].data@,
                                updates@.take(k as int + 1),
                            ) by {
                                lemma_send_data_after_push(
                                    orig[i].uuid@,
                                    orig[i].data@,
                                    prefix,
                                    updates@[k as int],
                                );
                            }
                        }
                    },
                }
            },
        }
        k = k + 1;
    }
    proof {
        assert(updates@.take(updates@.len() as int) =~= updates@);
    }
    Ok(())
}

// --- ciphers ---------------------------------------------------------------

pub open spec fn cipher_update_entry_applicable(u: RotateCipherData, cs: Seq<Cipher>) -> bool {
    match u.organization_id {
        Some(_) => true,
        None => u.id matches Some(pid) && (exists|i: int|
            0 <= i < cs.len() && (#[trigger] cs[i].uuid@) == pid@),
    }
}

pub open spec fn cipher_updates_applicable(updates: Seq<RotateCipherData>, cs: Seq<Cipher>) -> bool {
    forall|k: int|
        0 <= k < updates.len() ==> cipher_update_entry_applicable(#[trigger] updates[k], cs)
}

/// The payload a personal cipher with identifier `uuid` holds after the
/// updates ran; entries that belong to an organization are skipped.
pub open spec fn cipher_data_after(uuid: Seq<char>, orig: Seq<char>, updates: Seq<RotateCipherData>) -> Seq<char>
    decreases updates.len(),
{
    if updates.len() == 0 {
        orig
    } else if updates.last().organization_id is None && (updates.last().id matches Some(pid)
        && pid@ == uuid) {
        updates.last().data@
    } else {
        cipher_data_after(uuid, orig, updates.drop_last())
    }
}

proof fn lemma_cipher_data_after_push(
    uuid: Seq<char>,
    orig: Seq<char>,
    s: Seq<RotateCipherData>,
    u: RotateCipherData,
)
    ensures
        cipher_data_after(uuid, orig, s.push(u)) == (if u.organization_id is None && (
        u.id matches Some(pid) && pid@ == uuid) {
            u.data@
        } else {
            cipher_data_after(uuid, orig, s)
        }),
{
    assert(s.push(u).drop_last() =~= s);
    assert(s.push(u).last() == u);
}

fn find_cipher(cs: &Vec<Cipher>, id: &String) -> (r: Option<usize>)
    ensures
        match r {
            Some(j) => (j as int) < cs@.len() && cs@[j as int].uuid@ == id@,
            None => forall|i: int| 0 <= i < cs@.len() ==> cs@[i].uuid@ != id@,
        },
{
    let mut j: usize = 0;
    while j < cs.len()
        invariant
            j <= cs@.len(),
            forall|i: int| 0 <= i < j ==> cs@[i].uuid@ != id@,
        decreases cs@.len() - j,
    {
        if cs[j].uuid == *id {
            return Some(j);
        }
        j = j + 1;
    }
    None
}

#[verifier::loop_isolation(false)]
fn apply_cipher_updates(cs: &mut Vec<Cipher>, updates: &Vec<RotateCipherData>) -> (r: Result<
    (),
    SecurityError,
>)
    requires
        ciphers_distinct(old(cs)@),
    ensures
        final(cs)@.len() == old(cs)@.len(),
        forall|i: int| 0 <= i < old(cs)@.len() ==> final(cs)@[i].uuid@ == old(cs)@[i].uuid@,
        r matches Ok(()) ==> cipher_updates_applicable(updates@, old(cs)@) && (forall|i: int|
            0 <= i < old(cs)@.len() ==> final(cs)@[i].data@ == cipher_data_after(
                old(cs)@[i].uuid@,
                old(cs)@[i].data@,
                updates@,
            )),
        r matches Err(e) ==> e == SecurityError::NotFound && !cipher_updates_applicable(
            updates@,
            old(cs)@,
        ),
{
    let ghost orig = old(cs)@;
    let mut k: usize = 0;
    while k < updates.len()
        invariant
            k <= updates@.len(),
            cs@.len() == orig.len(),
            forall|i: int| 0 <= i < orig.len() ==> cs@[i].uuid@ == orig[i].uuid@,
            forall|i: int|
                0 <= i < orig.len() ==> cs@[i].data@ == cipher_data_after(
                    orig[i].uuid@,
                    orig[i].data@,
                    updates@.take(k as int),
                ),
            forall|kk: int|
                0 <= kk < k ==> cipher_update_entry_applicable(#[trigger] updates@[kk], orig),
        decreases updates@.len() - k,
    {
        let ghost prefix = updates@.take(k as int);
        proof {
            assert(updates@.take(k as int + 1) =~= prefix.push(updates@[k as int]));
        }
        if updates[k].organization_id.is_some() {
            proof {
                assert forall|i: int| 0 <= i < orig.len() implies cs@[i].data@ == cipher_data_after(
                    orig[i].uuid@,
                    orig[i].data@,
                    updates@.take(k as int + 1),
                ) by {
                    lemma_cipher_data_after_push(
                        orig[i].uuid@,
                        orig[i].data@,
                        prefix,
                        updates@[k as int],
                    );
                }
            }
        } else {
            match &updates[k].id {
                None => {
                    return Err(SecurityError::NotFound);
                },
                Some(pid) => {
                    match find_cipher(cs, pid) {
                        None => {
                            return Err(SecurityError::NotFound);
                        },
                        Some(j) => {
                            proof {
                                assert(cipher_update_entry_applicable(updates@[k as int], orig));
                            }
                            cs[j].data = updates[k].data.clone();
                            proof {
                                assert forall|i: int| 0 <= i < orig.len() implies cs@[i].data@
                                    == cipher_data_after(
                                    orig[i].uuid@,
                                    orig[i].data@,
                                    updates@.take(k as int + 1),
                                ) by {
                                    lemma_cipher_data_after_push(
                                        orig[i].uuid@,
                                        orig[i].data@,
                                        prefix,
                                        updates@[k as int],
                                    );
                                }
                            }
                        },
                    }
                },
            }
        }
        k = k + 1;
    }
    proof {
        assert(updates@.take(updates@.len() as int) =~= updates@);
    }
    Ok(())
}

} // verus!

verus! {

/// Token-kind names whose already-issued short-lived capability tokens
/// are treated as stale after a password or key change.
pub open spec fn stale_capability_route_names() -> Seq<Seq<char>> {
    seq!["post_rotatekey"@, "get_contacts"@, "get_public_keys"@, "get_api_webauthn"@]
}

pub fn stale_capability_routes() -> (r: Vec<String>)
    ensures
        r@.map_values(|s: String| s@) == stale_capability_route_names(),
{
    let mut v: Vec<String> = Vec::new();
    v.push("post_rotatekey".to_owned());
    v.push("get_contacts".to_owned());
    v.push("get_public_keys".to_owned());
    v.push("get_api_webauthn".to_owned());
    proof {
        assert(v@.map_values(|s: String| s@) =~= stale_capability_route_names());
    }
    v
}

/// Does every payload entry of every family name an entity the user owns?
pub open spec fn rotation_applicable(
    data: KeyData,
    folders: Seq<Folder>,
    emergency_access: Seq<EmergencyAccess>,
    memberships: Seq<Membership>,
    sends: Seq<Send>,
    ciphers: Seq<Cipher>,
) -> bool {
    &&& folder_updates_applicable(data.account_data.folders@, folders)
    &&& emergency_access_updates_applicable(
        data.account_unlock_data.emergency_access_unlock_data@,
        emergency_access,
    )
    &&& reset_password_updates_applicable(
        data.account_unlock_data.organization_account_recovery_unlock_data@,
        memberships,
    )
    &&& send_updates_applicable(data.account_data.sends@, sends)
    &&& cipher_updates_applicable(data.account_data.ciphers@, ciphers)
}

/// The master key is changing: every piece of data encrypted under the
/// old user key is replaced by the ciphertext the client re-encrypted.
/// Nothing is decrypted here; the job is consistency validation and
/// application.  The current-hash check comes first, then the full
/// validation (no mutation if it fails), then the apply phase in the
/// order folders, emergency access, reset-password keys, sends, ciphers,
/// and finally the user record itself: new private-key ciphertext, new
/// authentication hash and user key, and a fresh session epoch.  On
/// success the returned broadcast logs out every session except the
/// initiating device's.  The store gives no multi-entity transaction:
/// an apply failure partway leaves the entities already updated, which
/// the caller persists or discards as its store allows.
#[verifier::loop_isolation(false)]
pub fn rotate_account_keys(
    user: &mut User,
    device_id: &String,
    data: KeyData,
    folders: &mut Vec<Folder>,
    emergency_access: &mut Vec<EmergencyAccess>,
    memberships: &mut Vec<Membership>,
    sends: &mut Vec<Send>,
    ciphers: &mut Vec<Cipher>,
) -> (r: Result<LogoutBroadcast, SecurityError>)
    requires
        folders_distinct(old(folders)@),
        emergency_access_distinct(old(emergency_access)@),
        memberships_distinct(old(memberships)@),
        sends_distinct(old(sends)@),
        ciphers_distinct(old(ciphers)@),
    ensures
        r is Ok <==> ({
            &&& data.old_master_key_authentication_hash@ == old(user).password_hash@
            &&& validate_keydata_spec(
                data,
                old(ciphers)@,
                old(folders)@,
                old(emergency_access)@,
                old(memberships)@,
                old(sends)@,
                *old(user),
            ) is Ok
            &&& rotation_applicable(
                data,
                old(folders)@,
                old(emergency_access)@,
                old(memberships)@,
                old(sends)@,
                old(ciphers)@,
            )
        }),
        r matches Err(e) ==> {
            &&& *final(user) == *old(user)
            &&& e == (if data.old_master_key_authentication_hash@ != old(user).password_hash@ {
                SecurityError::AuthenticationFailed
            } else {
                match validate_keydata_spec(
                    data,
                    old(ciphers)@,
                    old(folders)@,
                    old(emergency_access)@,
                    old(memberships)@,
                    old(sends)@,
                    *old(user),
                ) {
                    Err(v) => v,
                    Ok(_) => SecurityError::NotFound,
                }
            })
        },
        r matches Ok(b) ==> ({
            &&& final(user).password_hash
                == data.account_unlock_data.master_password_unlock_data.master_key_authentication_hash
            &&& final(user).akey
                == data.account_unlock_data.master_password_unlock_data.master_key_encrypted_user_key
            &&& final(user).private_key == Some(
                data.account_keys.user_key_encrypted_account_private_key,
            )
            &&& final(user).security_stamp != old(user).security_stamp
            &&& final(user).stamp_exception matches Some(ts) && ts@.map_values(|s: String| s@)
                == stale_capability_route_names()
            &&& *final(user) == (User {
                password_hash: final(user).password_hash,
                akey: final(user).akey,
                private_key: final(user).private_key,
                security_stamp: final(user).security_stamp,
                stamp_exception: final(user).stamp_exception,
                ..*old(user)
            })
            &&& b.user_id@ == old(user).uuid@
            &&& b.excluded_device matches Some(d) && d@ == device_id@
        }),
        final(folders)@.len() == old(folders)@.len(),
        forall|i: int|
            0 <= i < old(folders)@.len() ==> final(folders)@[i].uuid@ == old(folders)@[i].uuid@,
        final(emergency_access)@.len() == old(emergency_access)@.len(),
        forall|i: int|
            0 <= i < old(emergency_access)@.len() ==> final(emergency_access)@[i].uuid@ == old(
                emergency_access,
            )@[i].uuid@,
        final(memberships)@.len() == old(memberships)@.len(),
        forall|i: int|
            0 <= i < old(memberships)@.len() ==> final(memberships)@[i].uuid@ == old(
                memberships,
            )@[i].uuid@ && final(memberships)@[i].org_uuid@ == old(memberships)@[i].org_uuid@,
        final(sends)@.len() == old(sends)@.len(),
        forall|i: int|
            0 <= i < old(sends)@.len() ==> final(sends)@[i].uuid@ == old(sends)@[i].uuid@,
        final(ciphers)@.len() == old(ciphers)@.len(),
        forall|i: int|
            0 <= i < old(ciphers)@.len() ==> final(ciphers)@[i].uuid@ == old(ciphers)@[i].uuid@,
        r is Ok ==> (forall|i: int|
            0 <= i < old(folders)@.len() ==> final(folders)@[i].name@ == folder_name_after(
                old(folders)@[i].uuid@,
                old(folders)@[i].name@,
                data.account_data.folders@,
            )),
        r is Ok ==> (forall|i: int|
            0 <= i < old(emergency_access)@.len() ==> opt_str_view(
                final(emergency_access)@[i].key_encrypted,
            ) == emergency_access_key_after(
                old(emergency_access)@[i].uuid@,
                opt_str_view(old(emergency_access)@[i].key_encrypted),
                data.account_unlock_data.emergency_access_unlock_data@,
            )),
        r is Ok ==> (forall|i: int|
            0 <= i < old(memberships)@.len() ==> opt_str_view(
                final(memberships)@[i].reset_password_key,
            ) == reset_password_key_after(
                old(memberships)@[i].org_uuid@,
                opt_str_view(old(memberships)@[i].reset_password_key),
                data.account_unlock_data.organization_account_recovery_unlock_data@,
            )),
        r is Ok ==> (forall|i: int|
            0 <= i < old(sends)@.len() ==> final(sends)@[i].data@ == send_data_after(
                old(sends)@[i].uuid@,
                old(sends)@[i].data@,
                data.account_data.sends@,
            )),
        r is Ok ==> (forall|i: int|
            0 <= i < old(ciphers)@.len() ==> final(ciphers)@[i].data@ == cipher_data_after(
                old(ciphers)@[i].uuid@,
                old(ciphers)@[i].data@,
                data.account_data.ciphers@,
            )),
{
    if !user.check_valid_password(data.old_master_key_authentication_hash.as_str()) {
        return Err(SecurityError::AuthenticationFailed);
    }

    match validate_keydata(&data, ciphers, folders, emergency_access, memberships, sends, user) {
        Err(e) => {
            return Err(e);
        },
        Ok(()) => {},
    }

    match apply_folder_updates(folders, &data.account_data.folders) {
        Err(e) => {
            return Err(e);
        },
        Ok(()) => {},
    }
    match apply_emergency_access_updates(
        emergency_access,
        &data.account_unlock_data.emergency_access_unlock_data,
    ) {
        Err(e) => {
            return Err(e);
        },
        Ok(()) => {},
    }
    match apply_reset_password_updates(
        memberships,
        &data.account_unlock_data.organization_account_recovery_unlock_data,
    ) {
        Err(e) => {
            return Err(e);
        },
        Ok(()) => {},
    }
    match apply_send_updates(sends, &data.account_data.sends) {
        Err(e) => {
            return Err(e);
        },
        Ok(()) => {},
    }
    match apply_cipher_updates(ciphers, &data.account_data.ciphers) {
        Err(e) => {
            return Err(e);
        },
        Ok(()) => {},
    }

    user.private_key = Some(data.account_keys.user_key_encrypted_account_private_key);
    user.set_password(
        data.account_unlock_data.master_password_unlock_data.master_key_authentication_hash,
        Some(data.account_unlock_data.master_password_unlock_data.master_key_encrypted_user_key),
        true,
        Some(stale_capability_routes()),
    );

    Ok(LogoutBroadcast { user_id: user.uuid.clone(), excluded_device: Some(device_id.clone()) })
}

} // verus!

verus! {

/// A rotation payload that matches the stored KDF, email and public key,
/// covers every owned identifier of every family (exact match or
/// superset), and names only owned entities, is accepted by the
/// validator and applicable in full: with a verified current hash,
/// `rotate_account_keys` then succeeds and issues a fresh session epoch.
pub proof fn lemma_complete_rotation_accepted(
    data: KeyData,
    existing_ciphers: Seq<Cipher>,
    existing_folders: Seq<Folder>,
    existing_emergency_access: Seq<EmergencyAccess>,
    existing_memberships: Seq<Membership>,
    existing_sends: Seq<Send>,
    user: User,
)
    requires
        declared_kdf_and_email_match(data, user),
        declared_public_key_matches(data, user),
        ciphers_covered(data.account_data.ciphers@, existing_ciphers),
        folders_covered(data.account_data.folders@, existing_folders),
        emergency_access_covered(
            data.account_unlock_data.emergency_access_unlock_data@,
            existing_emergency_access,
        ),
        reset_passwords_covered(
            data.account_unlock_data.organization_account_recovery_unlock_data@,
            existing_memberships,
        ),
        sends_covered(data.account_data.sends@, existing_sends),
        cipher_updates_applicable(data.account_data.ciphers@, existing_ciphers),
        folder_updates_applicable(data.account_data.folders@, existing_folders),
        emergency_access_updates_applicable(
            data.account_unlock_data.emergency_access_unlock_data@,
            existing_emergency_access,
        ),
        reset_password_updates_applicable(
            data.account_unlock_data.organization_account_recovery_unlock_data@,
            existing_memberships,
        ),
        send_updates_applicable(data.account_data.sends@, existing_sends),
    ensures
        validate_keydata_spec(
            data,
            existing_ciphers,
            existing_folders,
            existing_emergency_access,
            existing_memberships,
            existing_sends,
            user,
        ) == Ok::<(), SecurityError>(()),
        rotation_applicable(
            data,
            existing_folders,
            existing_emergency_access,
            existing_memberships,
            existing_sends,
            existing_ciphers,
        ),
{
}

} // verus!
