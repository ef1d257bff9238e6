use vstd::prelude::*;

verus! {

/// A client installation bound to exactly one user: the client type it
/// declared, and the push token registered for it, if any.
#[derive(Clone, Debug)]
pub struct Device {
    pub uuid: String,
    pub user_uuid: String,
    pub atype: i32,
    pub push_token: Option<String>,
}

impl Device {
    /// Register a push token.  A token identical to the registered one is
    /// left alone (no save, no re-registration); the return says whether
    /// anything changed and so must be persisted and registered.
    pub fn update_push_token(&mut self, token: String) -> (changed: bool)
        ensures
            changed == !(old(self).push_token matches Some(t) && t@ == token@),
            !changed ==> *final(self) == *old(self),
            changed ==> *final(self) == (Device { push_token: Some(token), ..*old(self) }),
    {
        let same = match &self.push_token {
            Some(t) => *t == token,
            None => false,
        };
        if same {
            return false;
        }
        self.push_token = Some(token);
        true
    }

    /// Drop the push token, whatever it was.
    pub fn clear_push_token(&mut self)
        ensures
            *final(self) == (Device { push_token: None, ..*old(self) }),
    {
        self.push_token = None;
    }
}

} // verus!

verus! {

use vstd::string::StringSliceAdditionalSpecFns;

use crate::encoding::{b64url_decode, base64url_nopad_decode, string_from_utf8};

/// A device-recognition query: which account the caller claims and which
/// device identifier it presents, extracted from two request headers.
pub struct KnownDevice {
    pub email: String,
    pub uuid: String,
}

/// Why a device-recognition query could not be read.
#[derive(Clone, Copy, Debug, PartialEq, Eq, Structural)]
pub enum KnownDeviceParseError {
    /// The address header is absent.
    MissingEmail,
    /// The address header does not decode as base64url without padding.
    EmailNotBase64,
    /// The decoded address is not UTF-8.
    EmailNotUtf8,
    /// The device-identifier header is absent.
    MissingDeviceId,
}

/// The exact reading a recognition query owes, as views: the address is
/// carried base64url-encoded (headers cannot hold every address
/// directly), the identifier plain.
pub open spec fn parse_known_device_spec(
    email_b64: Option<&str>,
    device_id: Option<&str>,
) -> Result<(Seq<char>, Seq<char>), KnownDeviceParseError> {
    match email_b64 {
        None => Err(KnownDeviceParseError::MissingEmail),
        Some(e) => match base64url_nopad_decode(e.spec_bytes()) {
            None => Err(KnownDeviceParseError::EmailNotBase64),
            Some(bytes) => {
                if !vstd::utf8::valid_utf8(bytes) {
                    Err(KnownDeviceParseError::EmailNotUtf8)
                } else {
                    match device_id {
                        None => Err(KnownDeviceParseError::MissingDeviceId),
                        Some(d) => Ok((vstd::utf8::decode_utf8(bytes), d@)),
                    }
                }
            },
        },
    }
}

/// Read a device-recognition query from its two headers.
pub fn parse_known_device(email_b64: Option<&str>, device_id: Option<&str>) -> (r: Result<
    KnownDevice,
    KnownDeviceParseError,
>)
    ensures
        r matches Ok(kd) ==> parse_known_device_spec(email_b64, device_id) == Ok::<
            (Seq<char>, Seq<char>),
            KnownDeviceParseError,
        >((kd.email@, kd.uuid@)),
        r matches Err(e) ==> parse_known_device_spec(email_b64, device_id) == Err::<
            (Seq<char>, Seq<char>),
            KnownDeviceParseError,
        >(e),
{
    let e = match email_b64 {
        None => {
            return Err(KnownDeviceParseError::MissingEmail);
        },
        Some(e) => e,
    };
    let bytes = match b64url_decode(e.as_bytes()) {
        None => {
            return Err(KnownDeviceParseError::EmailNotBase64);
        },
        Some(v) => v,
    };
    let email = match string_from_utf8(bytes) {
        None => {
            return Err(KnownDeviceParseError::EmailNotUtf8);
        },
        Some(s) => s,
    };
    proof {
        vstd::utf8::encode_utf8_decode_utf8(email@);
    }
    let d = match device_id {
        None => {
            return Err(KnownDeviceParseError::MissingDeviceId);
        },
        Some(d) => d,
    };
    Ok(KnownDevice { email, uuid: d.to_owned() })
}

} // verus!
