//! The session step: the credentials request that is sent, and the reading
//! of the session that comes back.

use vstd::prelude::*;
use crate::encode::{json_quoted, push_json_quoted, push_str_chars, string_from_chars};
use crate::json::{json_str_field, json_str_field_of};

verus! {

/// The short-lived credential obtained by the session step.
pub struct Token {
    pub token: String,
    pub did: String,
}

/// The mathematical value of the credential.
pub struct TokenView {
    pub token: Seq<char>,
    pub did: Seq<char>,
}

impl View for Token {
    type V = TokenView;

    open spec fn view(&self) -> TokenView {
        TokenView { token: self.token@, did: self.did@ }
    }
}

/// The JSON body of the session-creation request for these credentials.
pub open spec fn session_request(identifier: Seq<char>, password: Seq<char>) -> Seq<char> {
    "{\"identifier\":"@ + json_quoted(identifier) + ",\"password\":"@ + json_quoted(password)
        + "}"@
}

/// Builds the JSON body of the session-creation request.
pub fn build_session_request(identifier: &str, password: &str) -> (r: String)
    ensures
        r@ == session_request(identifier@, password@),
{
    let mut out: Vec<char> = Vec::new();
    push_str_chars(&mut out, "{\"identifier\":");
    push_json_quoted(&mut out, identifier);
    push_str_chars(&mut out, ",\"password\":");
    push_json_quoted(&mut out, password);
    push_str_chars(&mut out, "}");
    proof {
        assert(out@ =~= session_request(identifier@, password@));
    }
    string_from_chars(&out)
}

/// The session announced by a response body: its access token and account
/// identifier, or nothing when either field is missing.
pub open spec fn session_of(body: Seq<char>) -> Option<TokenView> {
    let tok = json_str_field_of(body, "accessJwt"@);
    let did = json_str_field_of(body, "did"@);
    if tok is Some && did is Some {
        Some(TokenView { token: tok->Some_0, did: did->Some_0 })
    } else {
        None
    }
}

/// Reads the access token and the account identifier out of the response of
/// the session-creation endpoint. Fails, with no partial result, when either
/// field is missing.
pub fn parse_session(body: &str) -> (r: Option<Token>)
    ensures
        match r {
            Some(t) => session_of(body@) == Some(t@),
            None => session_of(body@) is None,
        },
{
    let token = match json_str_field(body, "accessJwt") {
        Some(t) => t,
        None => return None,
    };
    let did = match json_str_field(body, "did") {
        Some(d) => d,
        None => return None,
    };
    Some(Token { token, did })
}

} // verus!
