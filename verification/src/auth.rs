//! The authentication payload and its JSON text.
//!
//! The text is a single JSON object with six members in a fixed order and no
//! white space:
//! `{"uid":…,"roomid":…,"protover":…,"platform":…,"type":…,"key":…}`.
//! Numbers are written in decimal. The two strings are quoted and escaped by
//! `serde_json`.

use vstd::prelude::*;

verus! {

/// Protocol level that the client announces.
pub const AUTH_PROTOVER: u32 = 3;

/// Client type that the client announces.
pub const AUTH_CLIENT_TYPE: u16 = 2;

/// What the client presents to the server right after connecting.
#[derive(Debug, Clone, PartialEq, Eq)]
pub struct AuthPayload {
    pub uid: u64,
    pub roomid: u32,
    pub protover: u32,
    pub platform: String,
    /// Sent as the member `type`.
    pub client_type: u16,
    pub key: String,
}

/// An authentication payload as a mathematical value.
pub struct AuthPayloadView {
    pub uid: u64,
    pub roomid: u32,
    pub protover: u32,
    pub platform: Seq<char>,
    pub client_type: u16,
    pub key: Seq<char>,
}

impl View for AuthPayload {
    type V = AuthPayloadView;

    open spec fn view(&self) -> AuthPayloadView {
        AuthPayloadView {
            uid: self.uid,
            roomid: self.roomid,
            protover: self.protover,
            platform: self.platform@,
            client_type: self.client_type,
            key: self.key@,
        }
    }
}

/// The payload of a web client for the given user, room and token.
pub open spec fn web_auth(uid: u64, roomid: u32, key: Seq<char>) -> AuthPayloadView {
    AuthPayloadView {
        uid,
        roomid,
        protover: AUTH_PROTOVER,
        platform: "web"@,
        client_type: AUTH_CLIENT_TYPE,
        key,
    }
}

/// The text of one decimal digit.
pub open spec fn digit_text(d: nat) -> Seq<char>
    recommends
        d < 10,
{
    if d == 0 {
        "0"@
    } else if d == 1 {
        "1"@
    } else if d == 2 {
        "2"@
    } else if d == 3 {
        "3"@
    } else if d == 4 {
        "4"@
    } else if d == 5 {
        "5"@
    } else if d == 6 {
        "6"@
    } else if d == 7 {
        "7"@
    } else if d == 8 {
        "8"@
    } else {
        "9"@
    }
}

/// `v` in decimal, without sign or leading zeros.
pub open spec fn decimal(v: nat) -> Seq<char>
    decreases v,
{
    if v < 10 {
        digit_text(v)
    } else {
        decimal(v / 10) + digit_text(v % 10)
    }
}

/// `text` as a JSON string literal, quotes included, as `serde_json` writes
/// it; `None` where `serde_json` reports an error.
pub uninterp spec fn json_string(text: Seq<char>) -> Option<Seq<char>>;

/// The view of an optional text.
pub open spec fn text_view(t: Option<String>) -> Option<Seq<char>> {
    match t {
        Some(s) => Some(s@),
        None => None,
    }
}

/// The JSON object for `p`, given its two strings already quoted.
pub open spec fn auth_json_with(
    p: AuthPayloadView,
    platform: Seq<char>,
    key: Seq<char>,
) -> Seq<char> {
    "{\"uid\":"@ + decimal(p.uid as nat) + ",\"roomid\":"@ + decimal(p.roomid as nat)
        + ",\"protover\":"@ + decimal(p.protover as nat) + ",\"platform\":"@ + platform
        + ",\"type\":"@ + decimal(p.client_type as nat) + ",\"key\":"@ + key + "}"@
}

/// The JSON text of `p`; `None` where one of its strings cannot be quoted.
pub open spec fn auth_json(p: AuthPayloadView) -> Option<Seq<char>> {
    match (json_string(p.platform), json_string(p.key)) {
        (Some(platform), Some(key)) => Some(auth_json_with(p, platform, key)),
        _ => None,
    }
}

/// `serde_json::to_string` on a string slice writes it as one JSON string
/// literal. The contract only names the outcome.
#[verifier::external_body]
fn quote(text: &str) -> (r: Option<String>)
    ensures
        text_view(r) == json_string(text@),
{
    serde_json::to_string(text).ok()
}

fn digit_str(d: u64) -> (s: &'static str)
    requires
        d < 10,
    ensures
        s@ == digit_text(d as nat),
{
    if d == 0 {
        "0"
    } else if d == 1 {
        "1"
    } else if d == 2 {
        "2"
    } else if d == 3 {
        "3"
    } else if d == 4 {
        "4"
    } else if d == 5 {
        "5"
    } else if d == 6 {
        "6"
    } else if d == 7 {
        "7"
    } else if d == 8 {
        "8"
    } else {
        "9"
    }
}

/// Appends `v` in decimal to `out`.
pub fn push_decimal(out: &mut String, v: u64)
    ensures
        final(out)@ == old(out)@ + decimal(v as nat),
    decreases v,
{
    if v >= 10 {
        push_decimal(out, v / 10);
    }
    out.append(digit_str(v % 10));
}

impl AuthPayload {
    /// The payload of a web client for the given user, room and token.
    pub fn new(uid: u64, roomid: u32, key: String) -> (p: AuthPayload)
        ensures
            p@ == web_auth(uid, roomid, key@),
    {
        AuthPayload {
            uid,
            roomid,
            protover: AUTH_PROTOVER,
            platform: "web".to_owned(),
            client_type: AUTH_CLIENT_TYPE,
            key,
        }
    }

    /// Assembles the JSON object from the payload's numbers and its two
    /// strings as already quoted; `None` where either is missing.
    pub fn json_with(&self, platform: Option<String>, key: Option<String>) -> (r: Option<String>)
        ensures
            text_view(r) == match (text_view(platform), text_view(key)) {
                (Some(p), Some(k)) => Some(auth_json_with(self@, p, k)),
                _ => None,
            },
    {
        match (platform, key) {
            (Some(p), Some(k)) => {
                let mut out = "{\"uid\":".to_owned();
                push_decimal(&mut out, self.uid);
                out.append(",\"roomid\":");
                push_decimal(&mut out, self.roomid as u64);
                out.append(",\"protover\":");
                push_decimal(&mut out, self.protover as u64);
                out.append(",\"platform\":");
                out.append(p.as_str());
                out.append(",\"type\":");
                push_decimal(&mut out, self.client_type as u64);
                out.append(",\"key\":");
                out.append(k.as_str());
                out.append("}");
                Some(out)
            },
            _ => None,
        }
    }

    /// The JSON text of the payload.
    pub fn to_json(&self) -> (r: Option<String>)
        ensures
            text_view(r) == auth_json(self@),
    {
        let platform = quote(self.platform.as_str());
        let key = quote(self.key.as_str());
        self.json_with(platform, key)
    }
}

} // verus!
