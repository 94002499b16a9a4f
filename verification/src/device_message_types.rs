//! The device message-type classifier: the closed set of lifecycle and
//! command kinds that a device topic may carry in its third segment.
//!
//! The set mirrors the node family token for token, but the two are kept
//! as distinct types: the parser picks the family by segment count, and a
//! node token is never valid where a device token is expected.

use vstd::prelude::*;
use crate::segments::{no_sep, str_eq};

verus! {

/// The message kind of a device topic.
#[derive(Debug, Clone, PartialEq)]
pub enum DeviceMessageType {
    /// Device birth certificate, token `DBIRTH`.
    DBIRTH,
    /// Device death certificate, token `DDEATH`.
    DDEATH,
    /// Device data message, token `DDATA`.
    DDATA,
    /// Device command message, token `DCMD`.
    DCMD,
}

/// The canonical token of a device message type.
pub open spec fn device_type_token(t: DeviceMessageType) -> Seq<char> {
    match t {
        DeviceMessageType::DBIRTH => "DBIRTH"@,
        DeviceMessageType::DDEATH => "DDEATH"@,
        DeviceMessageType::DDATA => "DDATA"@,
        DeviceMessageType::DCMD => "DCMD"@,
    }
}

/// Whether `s` is the canonical token of some device message type.
pub open spec fn is_device_type_token(s: Seq<char>) -> bool {
    ||| s == device_type_token(DeviceMessageType::DBIRTH)
    ||| s == device_type_token(DeviceMessageType::DDEATH)
    ||| s == device_type_token(DeviceMessageType::DDATA)
    ||| s == device_type_token(DeviceMessageType::DCMD)
}

/// The device message type whose canonical token is `s`.
pub open spec fn device_type_of_token(s: Seq<char>) -> DeviceMessageType
    recommends
        is_device_type_token(s),
{
    if s == device_type_token(DeviceMessageType::DBIRTH) {
        DeviceMessageType::DBIRTH
    } else if s == device_type_token(DeviceMessageType::DDEATH) {
        DeviceMessageType::DDEATH
    } else if s == device_type_token(DeviceMessageType::DDATA) {
        DeviceMessageType::DDATA
    } else {
        DeviceMessageType::DCMD
    }
}

/// Distinct device message types have distinct tokens: a token matches at
/// most one of them.
pub proof fn lemma_device_type_token_injective(a: DeviceMessageType, b: DeviceMessageType)
    requires
        device_type_token(a) == device_type_token(b),
    ensures
        a == b,
{
    reveal_strlit("DBIRTH");
    reveal_strlit("DDEATH");
    reveal_strlit("DDATA");
    reveal_strlit("DCMD");
    assert("DBIRTH"@.len() == 6 && "DBIRTH"@[1] == 'B');
    assert("DDEATH"@.len() == 6 && "DDEATH"@[1] == 'D');
    assert("DDATA"@.len() == 5);
    assert("DCMD"@.len() == 4);
}

/// Reading a device message type's own token back yields that type:
/// formatting then parsing a device message type is the identity.
pub proof fn lemma_device_type_token_inverse(t: DeviceMessageType)
    ensures
        device_type_of_token(device_type_token(t)) == t,
{
    reveal_strlit("DBIRTH");
    reveal_strlit("DDEATH");
    reveal_strlit("DDATA");
    reveal_strlit("DCMD");
    assert("DBIRTH"@.len() == 6 && "DBIRTH"@[1] == 'B');
    assert("DDEATH"@.len() == 6 && "DDEATH"@[1] == 'D');
    assert("DDATA"@.len() == 5);
    assert("DCMD"@.len() == 4);
}

/// No device message-type token contains the segment separator.
pub proof fn lemma_device_type_token_no_sep(t: DeviceMessageType)
    ensures
        no_sep(device_type_token(t)),
{
    reveal_strlit("DBIRTH");
    reveal_strlit("DDEATH");
    reveal_strlit("DDATA");
    reveal_strlit("DCMD");
}

/// The error of parsing a string that matches no device message-type token.
#[derive(Debug, Clone, PartialEq)]
pub struct DeviceMessageTypeParseError;

impl DeviceMessageTypeParseError {
    /// The diagnostic text of this error.
    pub fn to_string(&self) -> (r: String)
        ensures
            r@ == "Unknown DeviceMessageType"@,
    {
        "Unknown DeviceMessageType".to_owned()
    }
}

impl DeviceMessageType {
    /// The canonical MQTT token of this message type.
    pub fn to_string(&self) -> (r: String)
        ensures
            r@ == device_type_token(*self),
    {
        match self {
            DeviceMessageType::DBIRTH => "DBIRTH".to_owned(),
            DeviceMessageType::DDEATH => "DDEATH".to_owned(),
            DeviceMessageType::DDATA => "DDATA".to_owned(),
            DeviceMessageType::DCMD => "DCMD".to_owned(),
        }
    }

    /// Parses a device message type from its canonical token: an exact,
    /// case-sensitive match against the closed token set, and an error on
    /// everything else.
    pub fn from_str(s: &str) -> (r: Result<DeviceMessageType, DeviceMessageTypeParseError>)
        ensures
            (match r {
                Ok(t) => is_device_type_token(s@) && t == device_type_of_token(s@),
                Err(_) => !is_device_type_token(s@),
            }),
    {
        if str_eq(s, "DBIRTH") {
            Ok(DeviceMessageType::DBIRTH)
        } else if str_eq(s, "DDEATH") {
            Ok(DeviceMessageType::DDEATH)
        } else if str_eq(s, "DDATA") {
            Ok(DeviceMessageType::DDATA)
        } else if str_eq(s, "DCMD") {
            Ok(DeviceMessageType::DCMD)
        } else {
            Err(DeviceMessageTypeParseError)
        }
    }
}

} // verus!
