use vstd::prelude::*;

use crate::auth::{create_refresh_token_cookie, RefreshCookie};

verus! {

/// The body of a reply that hands out an access token.
#[derive(Debug)]
pub struct TokenResponse {
    pub ok: bool,
    pub access_token: String,
}

/// The reply to a successful registration or login: status `200 OK`, the
/// refresh token in its cookie, the access token in the body.
#[derive(Debug)]
pub struct TokenReply {
    pub status: u16,
    pub cookie: RefreshCookie,
    pub body: TokenResponse,
}

/// The reply that hands out a freshly issued pair of tokens.
pub fn token_reply(access_token: String, refresh_token: &str) -> (reply: TokenReply)
    ensures
        reply.status == 200,
        reply.body.ok,
        reply.body.access_token@ == access_token@,
        reply.cookie.name@ == "jid"@,
        reply.cookie.value@ == refresh_token@,
        reply.cookie.http_only,
{
    TokenReply {
        status: 200,
        cookie: create_refresh_token_cookie(refresh_token),
        body: TokenResponse { ok: true, access_token },
    }
}

} // verus!
