use vstd::prelude::*;

verus! {

/// A vault item owned by the user.  Its payload is an opaque ciphertext
/// re-encrypted by the client during key rotation; this core never reads
/// inside it.
#[derive(Clone, Debug)]
pub struct Cipher {
    pub uuid: String,
    pub data: String,
}

/// A folder owned by the user; its name is encrypted under the user key.
#[derive(Clone, Debug)]
pub struct Folder {
    pub uuid: String,
    pub name: String,
}

/// An emergency-access grant made by the user as grantor; the grant key
/// is encrypted key material rolled over during rotation.
#[derive(Clone, Debug)]
pub struct EmergencyAccess {
    pub uuid: String,
    pub key_encrypted: Option<String>,
}

/// A membership of the user in an organization.  Only memberships whose
/// reset-password key is set take part in rotation.
#[derive(Clone, Debug)]
pub struct Membership {
    pub uuid: String,
    pub org_uuid: String,
    pub reset_password_key: Option<String>,
}

/// A send owned by the user; its payload is opaque encrypted material.
#[derive(Clone, Debug)]
pub struct Send {
    pub uuid: String,
    pub data: String,
}

/// The store keys each family by its identifier, so a fetched set of
/// entities carries pairwise distinct identifiers.
pub open spec fn ciphers_distinct(s: Seq<Cipher>) -> bool {
    forall|i: int, j: int| 0 <= i < j < s.len() ==> s[i].uuid@ != s[j].uuid@
}

pub open spec fn folders_distinct(s: Seq<Folder>) -> bool {
    forall|i: int, j: int| 0 <= i < j < s.len() ==> s[i].uuid@ != s[j].uuid@
}

pub open spec fn emergency_access_distinct(s: Seq<EmergencyAccess>) -> bool {
    forall|i: int, j: int| 0 <= i < j < s.len() ==> s[i].uuid@ != s[j].uuid@
}

/// A user holds at most one membership per organization.
pub open spec fn memberships_distinct(s: Seq<Membership>) -> bool {
    forall|i: int, j: int| 0 <= i < j < s.len() ==> s[i].org_uuid@ != s[j].org_uuid@
}

pub open spec fn sends_distinct(s: Seq<Send>) -> bool {
    forall|i: int, j: int| 0 <= i < j < s.len() ==> s[i].uuid@ != s[j].uuid@
}

} // verus!
