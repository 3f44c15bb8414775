//! The front-end connect request: reading it, and deciding whether the connecting user is
//! accepted. A password is checked as the base64 text of the SHA-1 digest of the normalized
//! password.

use vstd::prelude::*;
use base64::Engine;
use sha1::Digest;
use crate::boo_codec::MessageError;
use crate::etdr_build::text;
use crate::tcoc_messages::FE_CONNECT;
use crate::text::{normalize_etag, normalize_seq};
use crate::wire::{le_i32_at, le_i64_at, read_i32_le, read_i64_le, utf8_lossy, string_from_utf8_lossy};

verus! {

/// Size of a connect request.
pub const CONNECT_LEN: usize = 44;

/// What a connect request read from `d` holds, the length and command coming from the request
/// header already read.
pub open spec fn connect_from(d: Seq<u8>, message_length: i32, command_id: i32, r: FE_CONNECT) -> bool {
    &&& r.message_length == message_length
    &&& r.command_id == command_id
    &&& r.version_id == le_i32_at(d, 8)
    &&& r.request_id == le_i64_at(d, 12)
    &&& r.username@ == utf8_lossy(d.subrange(20, 30))
    &&& r.password@ == utf8_lossy(d.subrange(30, 40))
    &&& r.timeout == le_i32_at(d, 40)
}

/// Reads a connect request; too short a request is refused.
pub fn parse_fe_connect(message_length: i32, command_id: i32, data: &[u8]) -> (r: Result<FE_CONNECT, MessageError>)
    ensures
        data@.len() < CONNECT_LEN <==> r is Err,
        r matches Err(e) ==> e == (MessageError::TooShort { len: data@.len() as usize, need: CONNECT_LEN }),
        r matches Ok(c) ==> connect_from(data@, message_length, command_id, c),
{
    if data.len() < CONNECT_LEN {
        return Err(MessageError::TooShort { len: data.len(), need: CONNECT_LEN });
    }
    let _len = data.len();
    Ok(FE_CONNECT {
        message_length,
        command_id,
        version_id: read_i32_le(data, 8),
        request_id: read_i64_le(data, 12),
        username: string_from_utf8_lossy(vstd::slice::slice_subrange(data, 20, 30)),
        password: string_from_utf8_lossy(vstd::slice::slice_subrange(data, 30, 40)),
        timeout: read_i32_le(data, 40),
    })
}

/// Name for the SHA-1 digest of a byte sequence.
pub uninterp spec fn sha1_of(data: Seq<u8>) -> Seq<u8>;

/// Wraps `sha1::Sha1` (new, update, finalize): the digest of `data`, 20 bytes as SHA-1 digests
/// are.
#[verifier::external_body]
fn sha1_digest(data: &[u8]) -> (r: Vec<u8>)
    ensures
        r@ == sha1_of(data@),
        r@.len() == 20,
{
    let mut hasher = sha1::Sha1::new();
    hasher.update(data);
    hasher.finalize().to_vec()
}

/// Name for the base64 text (standard alphabet, padded) of a byte sequence.
pub uninterp spec fn base64_of(data: Seq<u8>) -> Seq<char>;

/// Wraps `base64::engine::general_purpose::STANDARD.encode`: the padded base64 text of `data`,
/// four characters per started group of three bytes. Inputs whose encoded size would overflow
/// `usize` (where the crate panics) are excluded.
#[verifier::external_body]
fn base64_standard(data: &[u8]) -> (r: String)
    requires
        data@.len() <= usize::MAX / 4 * 3,
    ensures
        r@ == base64_of(data@),
        r@.len() == 4 * ((data@.len() + 2) / 3),
{
    base64::engine::general_purpose::STANDARD.encode(data)
}

/// The stored form of a password: the base64 text of the SHA-1 digest of its UTF-8 bytes,
/// after trailing NULs and surrounding white space are removed.
pub open spec fn password_hash_of(raw: Seq<char>) -> Seq<char> {
    base64_of(sha1_of(vstd::utf8::encode_utf8(normalize_seq(raw))))
}

/// The stored form of a password (see [`password_hash_of`]).
pub fn hash_password(raw: &str) -> (r: String)
    ensures
        r@ == password_hash_of(raw@),
{
    let p = normalize_etag(raw);
    let d = sha1_digest(p.as_str().as_bytes());
    base64_standard(d.as_slice())
}

/// What the user store answered for the connecting user name.
#[derive(Debug, Clone)]
pub enum ConnectUserLookup {
    /// The user, with its status and stored password hash.
    Found { user_id: i64, status: Option<String>, password: String },
    /// No such user.
    NotFound,
    /// The store could not be queried.
    Failed,
}

/// The outcome of a connect.
#[derive(Debug, Clone, PartialEq, Eq, Structural)]
pub enum ConnectDecision {
    /// Accepted, for the authenticated user when authentication ran.
    Accept { user_id: Option<i64> },
    /// The user's account is not activated (status other than `1`).
    AccountNotActivated { user_id: i64 },
    /// The password does not match.
    InvalidPassword { user_id: i64 },
    /// No such user.
    UserNotFound,
    /// The user store could not be queried.
    LookupFailed,
}

/// The outcome of a connect given whether authentication is bypassed, what the user store
/// answered (`None` when not asked) and the hash of the given password: a bypass accepts
/// anyone; otherwise the user must exist, be activated (status `1`) and have that hash.
pub open spec fn connect_decision_of(bypass_auth: bool, lookup: Option<ConnectUserLookup>, hash: Seq<char>) -> ConnectDecision {
    if bypass_auth {
        ConnectDecision::Accept { user_id: None }
    } else {
        match lookup {
            Some(ConnectUserLookup::Found { user_id, status, password }) => {
                if !(status matches Some(s) && s@ == "1"@) {
                    ConnectDecision::AccountNotActivated { user_id }
                } else if password@ != hash {
                    ConnectDecision::InvalidPassword { user_id }
                } else {
                    ConnectDecision::Accept { user_id: Some(user_id) }
                }
            },
            Some(ConnectUserLookup::NotFound) => ConnectDecision::UserNotFound,
            _ => ConnectDecision::LookupFailed,
        }
    }
}

/// The outcome of a connect given the hash of the given password (see
/// [`connect_decision_of`]).
pub fn decide_connect_with_hash(bypass_auth: bool, lookup: &Option<ConnectUserLookup>, hash: &str) -> (r: ConnectDecision)
    ensures
        r == connect_decision_of(bypass_auth, *lookup, hash@),
{
    if bypass_auth {
        return ConnectDecision::Accept { user_id: None };
    }
    match lookup {
        Some(ConnectUserLookup::Found { user_id, status, password }) => {
            let active = match status {
                Some(s) => *s == text("1"),
                None => false,
            };
            if !active {
                ConnectDecision::AccountNotActivated { user_id: *user_id }
            } else if *password != text(hash) {
                ConnectDecision::InvalidPassword { user_id: *user_id }
            } else {
                ConnectDecision::Accept { user_id: Some(*user_id) }
            }
        },
        Some(ConnectUserLookup::NotFound) => ConnectDecision::UserNotFound,
        _ => ConnectDecision::LookupFailed,
    }
}

/// The outcome of a connect given the password as the front-end sent it (see
/// [`connect_decision_of`], [`password_hash_of`]).
pub fn decide_connect(bypass_auth: bool, lookup: &Option<ConnectUserLookup>, raw_password: &str) -> (r: ConnectDecision)
    ensures
        r == connect_decision_of(bypass_auth, *lookup, password_hash_of(raw_password@)),
{
    let h = hash_password(raw_password);
    decide_connect_with_hash(bypass_auth, lookup, h.as_str())
}

impl ConnectDecision {
    /// The description recorded for the session.
    pub fn description(&self) -> (r: &'static str)
        ensures
            r@ == match *self {
                ConnectDecision::Accept { .. } => "FE_CONNECT"@,
                ConnectDecision::AccountNotActivated { .. } => "CONNECT account not activated"@,
                ConnectDecision::InvalidPassword { .. } => "CONNECT invalid password"@,
                ConnectDecision::UserNotFound => "CONNECT user not found"@,
                ConnectDecision::LookupFailed => "CONNECT query user failed"@,
            },
    {
        match self {
            ConnectDecision::Accept { .. } => "FE_CONNECT",
            ConnectDecision::AccountNotActivated { .. } => "CONNECT account not activated",
            ConnectDecision::InvalidPassword { .. } => "CONNECT invalid password",
            ConnectDecision::UserNotFound => "CONNECT user not found",
            ConnectDecision::LookupFailed => "CONNECT query user failed",
        }
    }
}

/// The session row written for a connect, accepted or not.
#[derive(Debug)]
pub struct TcocSession {
    pub session_id: i64,
    pub user_id: Option<i64>,
    pub init_datetime: Option<String>,
    pub login_datetime: Option<String>,
    pub logout_datetime: Option<String>,
    pub valid_code: Option<String>,
    pub ip_address: Option<String>,
    pub user_name: Option<String>,
    pub toll_id: Option<i64>,
    pub status: Option<String>,
    pub description: Option<String>,
    pub server_id: Option<i64>,
}

/// The user a connect outcome names, if any.
pub open spec fn decision_user(d: ConnectDecision) -> Option<i64> {
    match d {
        ConnectDecision::Accept { user_id } => user_id,
        ConnectDecision::AccountNotActivated { user_id } => Some(user_id),
        ConnectDecision::InvalidPassword { user_id } => Some(user_id),
        _ => None,
    }
}

/// Whether `t` holds the text `v`.
pub open spec fn text_is(t: Option<String>, v: Seq<char>) -> bool {
    t matches Some(s) && s@ == v
}

/// The session row of a connect with outcome `d`, session `session_id`, at time text `now`,
/// from `client_ip`, for the user name as sent: the user the outcome names; opened and logged
/// in now; closed now unless accepted; `VALID` and `ACTIVE` when accepted, `INVALID` and
/// `FAILED` otherwise; the outcome's description; station `0`, server `1`; the user name
/// normalized.
pub open spec fn is_session_of(r: TcocSession, d: ConnectDecision, session_id: i64, now: Seq<char>, client_ip: Option<Seq<char>>, user_name: Seq<char>) -> bool {
    let accepted = d is Accept;
    &&& r.session_id == session_id
    &&& r.user_id == decision_user(d)
    &&& text_is(r.init_datetime, now)
    &&& text_is(r.login_datetime, now)
    &&& if accepted { r.logout_datetime is None } else { text_is(r.logout_datetime, now) }
    &&& text_is(r.valid_code, if accepted { "VALID"@ } else { "INVALID"@ })
    &&& match client_ip {
        Some(ip) => text_is(r.ip_address, ip),
        None => r.ip_address is None,
    }
    &&& text_is(r.user_name, normalize_seq(user_name))
    &&& r.toll_id == Some(0i64)
    &&& text_is(r.status, if accepted { "ACTIVE"@ } else { "FAILED"@ })
    &&& text_is(r.description, match d {
        ConnectDecision::Accept { .. } => "FE_CONNECT"@,
        ConnectDecision::AccountNotActivated { .. } => "CONNECT account not activated"@,
        ConnectDecision::InvalidPassword { .. } => "CONNECT invalid password"@,
        ConnectDecision::UserNotFound => "CONNECT user not found"@,
        ConnectDecision::LookupFailed => "CONNECT query user failed"@,
    })
    &&& r.server_id == Some(1i64)
}

/// The session row of a connect (see [`is_session_of`]).
pub fn connect_session(d: &ConnectDecision, session_id: i64, now: &str, client_ip: Option<&str>, user_name: &str) -> (r: TcocSession)
    ensures
        is_session_of(r, *d, session_id, now@, match client_ip { Some(ip) => Some(ip@), None => None }, user_name@),
{
    let accepted = match d {
        ConnectDecision::Accept { .. } => true,
        _ => false,
    };
    let user_id = match d {
        ConnectDecision::Accept { user_id } => *user_id,
        ConnectDecision::AccountNotActivated { user_id } => Some(*user_id),
        ConnectDecision::InvalidPassword { user_id } => Some(*user_id),
        _ => None,
    };
    TcocSession {
        session_id,
        user_id,
        init_datetime: Some(text(now)),
        login_datetime: Some(text(now)),
        logout_datetime: if accepted { None } else { Some(text(now)) },
        valid_code: Some(if accepted { text("VALID") } else { text("INVALID") }),
        ip_address: match client_ip {
            Some(ip) => Some(text(ip)),
            None => None,
        },
        user_name: Some(normalize_etag(user_name)),
        toll_id: Some(0),
        status: Some(if accepted { text("ACTIVE") } else { text("FAILED") }),
        description: Some(text(d.description())),
        server_id: Some(1),
    }
}

} // verus!
