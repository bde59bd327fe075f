//! The answers to the key-bundle requests.

use crate::identity::models::{
    Device,
    OneTimePreKey,
    Response,
    STATUS_CREATED,
    STATUS_INTERNAL_SERVER_ERROR,
    STATUS_NOT_FOUND,
    STATUS_OK,
};
use vstd::prelude::*;
use vstd::string::StringExecFns;

verus! {

/// A device to register, with its keys.
pub struct UploadDeviceRequest {
    pub device_name: String,
    pub identity_key_public: Vec<u8>,
    pub signed_prekey_id: i32,
    pub signed_prekey_public: Vec<u8>,
    pub signed_prekey_signature: Vec<u8>,
    pub one_time_prekeys: Vec<OneTimePreKeyUpload>,
}

/// A one-time prekey to store.
pub struct OneTimePreKeyUpload {
    pub key_id: i32,
    pub public_key: Vec<u8>,
}

/// The answer to a successful upload.
pub struct UploadDeviceResponse {
    pub device_id: i64,
    pub message: String,
}

/// What a peer needs to open an encrypted session with a device.
pub struct PreKeyBundle {
    pub device_id: i64,
    pub identity_key_public: Vec<u8>,
    pub signed_prekey_id: i32,
    pub signed_prekey_public: Vec<u8>,
    pub signed_prekey_signature: Vec<u8>,
    /// Absent when the device has no one-time prekey left.
    pub one_time_prekey: Option<OneTimePreKeyResponse>,
}

/// A one-time prekey handed out in a bundle.
pub struct OneTimePreKeyResponse {
    pub key_id: i32,
    pub public_key: Vec<u8>,
}

/// The decimal digit for a number below ten.
pub open spec fn digit(d: nat) -> char
    recommends
        d < 10,
{
    (d + 48) as char
}

/// The decimal form of a number, without sign or leading zeros.
pub open spec fn decimal(n: nat) -> Seq<char>
    decreases n,
{
    if n < 10 {
        seq![digit(n)]
    } else {
        decimal(n / 10).push(digit(n % 10))
    }
}

/// The text of one decimal digit.
fn digit_text(d: usize) -> (r: &'static str)
    requires
        d < 10,
    ensures
        r@ == seq![digit(d as nat)],
{
    proof {
        reveal_strlit("0");
        reveal_strlit("1");
        reveal_strlit("2");
        reveal_strlit("3");
        reveal_strlit("4");
        reveal_strlit("5");
        reveal_strlit("6");
        reveal_strlit("7");
        reveal_strlit("8");
        reveal_strlit("9");
    }
    let r = if d == 0 {
        "0"
    } else if d == 1 {
        "1"
    } else if d == 2 {
        "2"
    } else if d == 3 {
        "3"
    } else if d == 4 {
        "4"
    } else if d == 5 {
        "5"
    } else if d == 6 {
        "6"
    } else if d == 7 {
        "7"
    } else if d == 8 {
        "8"
    } else {
        "9"
    };
    assert(r@ =~= seq![digit(d as nat)]);
    r
}

/// Writes a number in decimal, without sign or leading zeros.
pub fn decimal_text(n: usize) -> (r: String)
    ensures
        r@ == decimal(n as nat),
    decreases n,
{
    if n < 10 {
        String::from_str(digit_text(n))
    } else {
        let mut text = decimal_text(n / 10);
        text.append(digit_text(n % 10));
        assert(text@ =~= decimal((n / 10) as nat).push(digit((n % 10) as nat)));
        text
    }
}

/// The message that confirms an upload with `prekeys` one-time prekeys.
pub open spec fn upload_message(prekeys: nat) -> Seq<char> {
    "Device created with "@ + decimal(prekeys) + " one-time prekeys"@
}

/// The answer to an upload, given what the database made of the device and
/// how many one-time prekeys came with it: the identifier of the new device
/// with status 201, or the database's complaint with status 500.
pub fn upload_device(created: Result<i64, String>, prekeys: usize) -> (r: Response<
    UploadDeviceResponse,
>)
    ensures
        match created {
            Ok(device_id) => r matches Response::Json { status, body } && status == STATUS_CREATED
                && body.device_id == device_id && body.message@ == upload_message(prekeys as nat),
            Err(reason) => r matches Response::Text { status, text } && status
                == STATUS_INTERNAL_SERVER_ERROR && text@ == "Failed to create device: "@
                + reason@,
        },
{
    match created {
        Ok(device_id) => {
            let mut message = String::from_str("Device created with ");
            message.append(decimal_text(prekeys).as_str());
            message.append(" one-time prekeys");
            Response::Json {
                status: STATUS_CREATED,
                body: UploadDeviceResponse { device_id, message },
            }
        },
        Err(reason) => {
            let mut text = String::from_str("Failed to create device: ");
            text.append(reason.as_str());
            Response::Text { status: STATUS_INTERNAL_SERVER_ERROR, text }
        },
    }
}

/// The bundle of a device: its identity key and signed prekey, and the
/// one-time prekey that was taken out of the store for this request, if one
/// was left.
pub fn bundle_of(device: Device, one_time_prekey: Option<OneTimePreKey>) -> (bundle: PreKeyBundle)
    ensures
        bundle.device_id == device.id,
        bundle.identity_key_public == device.identity_key_public,
        bundle.signed_prekey_id == device.signed_prekey_id,
        bundle.signed_prekey_public == device.signed_prekey_public,
        bundle.signed_prekey_signature == device.signed_prekey_signature,
        match one_time_prekey {
            Some(key) => bundle.one_time_prekey == Some(
                OneTimePreKeyResponse { key_id: key.key_id, public_key: key.public_key },
            ),
            None => bundle.one_time_prekey is None,
        },
{
    PreKeyBundle {
        device_id: device.id,
        identity_key_public: device.identity_key_public,
        signed_prekey_id: device.signed_prekey_id,
        signed_prekey_public: device.signed_prekey_public,
        signed_prekey_signature: device.signed_prekey_signature,
        one_time_prekey: match one_time_prekey {
            Some(key) => Some(
                OneTimePreKeyResponse { key_id: key.key_id, public_key: key.public_key },
            ),
            None => None,
        },
    }
}

/// The answer to a request for a bundle: the bundle of the user's device
/// with status 200, or status 404 if the user has no device.
pub fn get_prekey_bundle(device: Option<Device>, one_time_prekey: Option<OneTimePreKey>) -> (r:
    Response<PreKeyBundle>)
    ensures
        match device {
            Some(device) => r matches Response::Json { status, body } && status == STATUS_OK
                && body.device_id == device.id && body.identity_key_public
                == device.identity_key_public && body.signed_prekey_id == device.signed_prekey_id
                && body.signed_prekey_public == device.signed_prekey_public
                && body.signed_prekey_signature == device.signed_prekey_signature && (
            match one_time_prekey {
                Some(key) => body.one_time_prekey == Some(
                    OneTimePreKeyResponse { key_id: key.key_id, public_key: key.public_key },
                ),
                None => body.one_time_prekey is None,
            }),
            None => r matches Response::Text { status, text } && status == STATUS_NOT_FOUND
                && text@ == "No device found for user"@,
        },
{
    match device {
        Some(device) => Response::Json {
            status: STATUS_OK,
            body: bundle_of(device, one_time_prekey),
        },
        None => Response::Text {
            status: STATUS_NOT_FOUND,
            text: String::from_str("No device found for user"),
        },
    }
}

/// The answer to a request for a user's devices: the devices with status
/// 200, or the database's complaint with status 500.
pub fn list_user_devices(fetched: Result<Vec<Device>, String>) -> (r: Response<Vec<Device>>)
    ensures
        match fetched {
            Ok(devices) => r == (Response::Json { status: STATUS_OK, body: devices }),
            Err(reason) => r matches Response::Text { status, text } && status
                == STATUS_INTERNAL_SERVER_ERROR && text@ == "Failed to fetch devices: "@
                + reason@,
        },
{
    match fetched {
        Ok(devices) => Response::Json { status: STATUS_OK, body: devices },
        Err(reason) => {
            let mut text = String::from_str("Failed to fetch devices: ");
            text.append(reason.as_str());
            Response::Text { status: STATUS_INTERNAL_SERVER_ERROR, text }
        },
    }
}

} // verus!
