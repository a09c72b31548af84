//! The signed-in user, as the agent's credentials file names them.

use crate::json::{
    decode, decode_bytes, decoded_json, decoded_json_bytes, value_of_owned, Json, JsonValue,
};
use crate::models::{CodexUser, CodexUserView};
use crate::text::{
    after_first, before_first, owned, push_text, text_after_first, text_before_first,
};
use vstd::prelude::*;

verus! {

/// What `base64`'s engine `URL_SAFE_NO_PAD` decodes `text` to, where `text`
/// is base64 in the URL-safe alphabet without padding.
pub uninterp spec fn base64_url_unpadded(text: Seq<char>) -> Option<Seq<u8>>;

/// What `base64`'s engine `URL_SAFE` decodes `text` to, where `text` is
/// base64 in the URL-safe alphabet with padding.
pub uninterp spec fn base64_url_padded(text: Seq<char>) -> Option<Seq<u8>>;

/// The view of optional bytes.
pub open spec fn bytes_of(b: Option<Vec<u8>>) -> Option<Seq<u8>> {
    match b {
        Some(b) => Some(b@),
        None => None,
    }
}

/// `Engine::decode` of `base64::engine::general_purpose::URL_SAFE_NO_PAD` on
/// `text`: the result depends on the text alone.
#[verifier::external_body]
fn decode_url_unpadded(text: &str) -> (r: Option<Vec<u8>>)
    ensures
        bytes_of(r) == base64_url_unpadded(text@),
{
    base64::Engine::decode(&base64::engine::general_purpose::URL_SAFE_NO_PAD, text).ok()
}

/// `Engine::decode` of `base64::engine::general_purpose::URL_SAFE` on
/// `text`: the result depends on the text alone.
#[verifier::external_body]
fn decode_url_padded(text: &str) -> (r: Option<Vec<u8>>)
    ensures
        bytes_of(r) == base64_url_padded(text@),
{
    base64::Engine::decode(&base64::engine::general_purpose::URL_SAFE, text).ok()
}

/// The second of the parts that dots divide `token` into, if there are two.
pub open spec fn token_payload(token: Seq<char>) -> Option<Seq<char>> {
    match after_first(token, '.') {
        Some(rest) => Some(before_first(rest, '.')),
        None => None,
    }
}

/// The bytes that a token's payload stands for: read without padding, or
/// with padding where that fails.
pub open spec fn payload_bytes(payload: Seq<char>) -> Option<Seq<u8>> {
    match base64_url_unpadded(payload) {
        Some(bytes) => Some(bytes),
        None => base64_url_padded(payload),
    }
}

/// The claims of a signed token: the JSON value that its payload encodes.
pub open spec fn jwt_claims(token: Seq<char>) -> Option<JsonValue> {
    match token_payload(token) {
        Some(payload) => match payload_bytes(payload) {
            Some(bytes) => decoded_json_bytes(bytes),
            None => None,
        },
        None => None,
    }
}

/// The claims of the signed token `token`, if its payload holds any.
pub fn parse_jwt_payload(token: &str) -> (r: Option<Json>)
    ensures
        value_of_owned(r) == jwt_claims(token@),
{
    let rest = match text_after_first(token, '.') {
        Some(rest) => rest,
        None => {
            return None;
        },
    };
    let payload = text_before_first(rest.as_str(), '.');
    let bytes = match decode_url_unpadded(payload.as_str()) {
        Some(bytes) => bytes,
        None => match decode_url_padded(payload.as_str()) {
            Some(bytes) => bytes,
            None => {
                return None;
            },
        },
    };
    decode_bytes(bytes.as_slice())
}

/// The text of the member `key` of the member `tokens` of `auth`.
pub open spec fn token_text(auth: JsonValue, key: Seq<char>) -> Option<Seq<char>> {
    match auth.member("tokens"@) {
        Some(tokens) => tokens.text_at(key),
        None => None,
    }
}

/// The claims that the identity token of `auth` carries.
pub open spec fn identity_claims(auth: JsonValue) -> Option<JsonValue> {
    match token_text(auth, "id_token"@) {
        Some(token) => jwt_claims(token),
        None => None,
    }
}

/// The text of the claim `key`, and nothing where there are no claims.
pub open spec fn claim_text(claims: Option<JsonValue>, key: Seq<char>) -> Seq<char> {
    match claims {
        Some(c) => c.text_or(key, Seq::empty()),
        None => Seq::empty(),
    }
}

/// The user that the credentials `auth` name. A user with an e-mail address
/// is called by what stands before its `@`; any other by the way they signed
/// in.
pub open spec fn codex_user(auth: JsonValue) -> CodexUserView {
    let auth_mode = auth.text_or("auth_mode"@, "unknown"@);
    let email = claim_text(identity_claims(auth), "email"@);
    CodexUserView {
        id: match token_text(auth, "account_id"@) {
            Some(id) => id,
            None => "codex-user"@,
        },
        email,
        name: if email.len() > 0 {
            before_first(email, '@')
        } else {
            "codex-"@ + auth_mode
        },
        picture: Seq::empty(),
        auth_mode,
        auth_provider: if auth_mode == "api_key"@ {
            "api_key"@
        } else {
            claim_text(identity_claims(auth), "auth_provider"@)
        },
    }
}

/// The text of the member `key` of the member `tokens` of `auth`.
fn token_text_of<'a>(auth: &'a Json, key: &str) -> (r: Option<&'a str>)
    ensures
        crate::json::text_of_opt(r) == token_text(auth@, key@),
{
    match auth.get("tokens") {
        Some(tokens) => tokens.str_at(key),
        None => None,
    }
}

/// The user that the credentials `auth` name.
pub fn parse_codex_user(auth: &Json) -> (r: CodexUser)
    ensures
        r@ == codex_user(auth@),
{
    let auth_mode = auth.str_or("auth_mode", "unknown");
    let account_id = match token_text_of(auth, "account_id") {
        Some(id) => id,
        None => "codex-user",
    };
    let claims = match token_text_of(auth, "id_token") {
        Some(token) => parse_jwt_payload(token),
        None => None,
    };
    let (email, claimed_provider) = match &claims {
        Some(c) => (owned(c.str_or_empty("email")), owned(c.str_or_empty("auth_provider"))),
        None => (String::new(), String::new()),
    };
    let auth_provider = if auth_mode.eq("api_key") {
        owned("api_key")
    } else {
        claimed_provider
    };
    let name = if !email.as_str().is_empty() {
        text_before_first(email.as_str(), '@')
    } else {
        let mut name = owned("codex-");
        push_text(&mut name, auth_mode);
        name
    };
    CodexUser {
        id: owned(account_id),
        email,
        name,
        picture: String::new(),
        auth_mode: owned(auth_mode),
        auth_provider,
    }
}

/// The user that the text of a credentials file names, if the text is JSON.
pub open spec fn cached_user(content: Seq<char>) -> Option<CodexUserView> {
    match decoded_json(content) {
        Some(auth) => Some(codex_user(auth)),
        None => None,
    }
}

/// The view of an optional user.
pub open spec fn user_view(u: Option<CodexUser>) -> Option<CodexUserView> {
    match u {
        Some(u) => Some(u@),
        None => None,
    }
}

/// The user that the text `content` of a credentials file names.
pub fn parse_cached_credentials(content: &str) -> (r: Option<CodexUser>)
    ensures
        user_view(r) == cached_user(content@),
{
    match decode(content) {
        Some(auth) => Some(parse_codex_user(&auth)),
        None => None,
    }
}

} // verus!
