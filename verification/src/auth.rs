use vstd::prelude::*;

use crate::errors::{AppError, message_of, status_of};
use crate::models::users::User;

verus! {

// ---------------------------------------------------------------------------
// Claims carried by the two kinds of tokens
// ---------------------------------------------------------------------------

/// How long an access token stays valid: one minute.
pub const ACCESS_TOKEN_VALID_FOR_SECS: u64 = 60;

/// How long a refresh token stays valid: seven days.
pub const REFRESH_TOKEN_VALID_FOR_SECS: u64 = 604800;

/// What an access token says about its holder.
#[derive(Debug)]
pub struct AccessTokenClaims {
    pub user_id: i32,
}

/// What a refresh token says about its holder: the user and the version of
/// that user's tokens at the time it was issued.
#[derive(Debug)]
pub struct RefreshTokenClaims {
    pub user_id: i32,
    pub token_version: i32,
}

/// The user named by a valid access token.
#[derive(Debug)]
pub struct ValidatedUser {
    pub user_id: i32,
}

/// The claims of the access token issued to `user`.
pub fn access_token_claims(user: &User) -> (claims: AccessTokenClaims)
    ensures
        claims.user_id == user.id,
{
    AccessTokenClaims { user_id: user.id }
}

/// The claims of the refresh token issued to `user`.
pub fn refresh_token_claims(user: &User) -> (claims: RefreshTokenClaims)
    ensures
        claims.user_id == user.id,
        claims.token_version == user.token_version,
{
    RefreshTokenClaims { user_id: user.id, token_version: user.token_version }
}

/// The cookie in which a refresh token travels to the browser.
#[derive(Debug)]
pub struct RefreshCookie {
    pub name: String,
    pub value: String,
    pub http_only: bool,
}

/// The HTTP-only cookie `jid` that holds `token`.
pub fn create_refresh_token_cookie(token: &str) -> (cookie: RefreshCookie)
    ensures
        cookie.name@ == "jid"@,
        cookie.value@ == token@,
        cookie.http_only,
{
    RefreshCookie {
        name: String::from_str("jid"),
        value: String::from_str(token),
        http_only: true,
    }
}

// ---------------------------------------------------------------------------
// The `Authorization` header
// ---------------------------------------------------------------------------

/// A character that an HTTP header value may hold once read as text:
/// visible ASCII, the space, or the tab.
pub open spec fn is_header_char(c: char) -> bool {
    (32 <= (c as int) && (c as int) < 127) || c == '\t'
}

/// Header text: what a header value turns into when it is read as text.
pub open spec fn is_header_text(s: Seq<char>) -> bool {
    forall|i: int| 0 <= i < s.len() ==> is_header_char(#[trigger] s[i])
}

/// The white space that can occur in header text.
pub open spec fn is_blank(c: char) -> bool {
    c == ' ' || c == '\t'
}

/// The words of `s`: its maximal runs of non-blank characters, in order.
pub open spec fn words(s: Seq<char>) -> Seq<Seq<char>>
    decreases s.len(),
{
    if s.len() == 0 {
        Seq::empty()
    } else {
        let before = words(s.drop_last());
        let c = s.last();
        if is_blank(c) {
            before
        } else if s.len() >= 2 && !is_blank(s[s.len() - 2]) {
            before.drop_last().push(before.last().push(c))
        } else {
            before.push(seq![c])
        }
    }
}

/// The token of an `Authorization` header: its second word, when the header
/// has exactly two words (a scheme such as `Bearer`, then the token).
pub open spec fn bearer_token_of(header: Seq<char>) -> Option<Seq<char>> {
    let w = words(header);
    if w.len() == 2 {
        Some(w[1])
    } else {
        None
    }
}

fn is_blank_char(c: char) -> (b: bool)
    ensures
        b == is_blank(c),
{
    c == ' ' || c == '\t'
}

/// Takes the token out of an `Authorization` header: the header must consist
/// of exactly two words, and the token is the second.
pub fn bearer_token<'a>(header: &'a str) -> (token: Option<&'a str>)
    requires
        is_header_text(header@),
    ensures
        match token {
            Some(t) => bearer_token_of(header@) == Some(t@),
            None => bearer_token_of(header@) is None,
        },
        token matches Some(t) ==> is_word(t@),
{
    proof {
        lemma_bearer_token_is_word(header@);
    }
    let n = header.unicode_len();
    let ghost s = header@;
    let mut count: usize = 0;
    let mut in_word = false;
    let mut second_start: usize = 0;
    let mut second_end: usize = 0;
    let mut i: usize = 0;
    assert(s.take(0) =~= Seq::<char>::empty());
    while i < n
        invariant
            n == s.len(),
            s == header@,
            i <= n,
            count <= i,
            count == words(s.take(i as int)).len(),
            in_word == (i > 0 && !is_blank(s[i - 1])),
            in_word ==> count > 0,
            count >= 2 ==> second_start <= second_end <= i,
            count >= 2 ==> words(s.take(i as int))[1] == s.subrange(
                second_start as int,
                second_end as int,
            ),
            count == 2 && in_word ==> second_end == i,
        decreases n - i,
    {
        let c = header.get_char(i);
        let ghost before = words(s.take(i as int));
        assert(s.take(i + 1).drop_last() =~= s.take(i as int));
        assert(s.take(i + 1).last() == c);
        if i > 0 {
            assert(s.take(i + 1)[i - 1] == s[i - 1]);
        }
        if is_blank_char(c) {
            in_word = false;
        } else if in_word {
            if count == 2 {
                second_end = i + 1;
                assert(s.subrange(second_start as int, i + 1) =~= s.subrange(
                    second_start as int,
                    i as int,
                ).push(c));
            }
            assert(words(s.take(i + 1)) == before.drop_last().push(before.last().push(c)));
        } else {
            count = count + 1;
            in_word = true;
            if count == 2 {
                second_start = i;
                second_end = i + 1;
                assert(s.subrange(i as int, i + 1) =~= seq![c]);
            }
        }
        i = i + 1;
    }
    assert(s.take(n as int) =~= s);
    if count == 2 {
        Some(header.substring_char(second_start, second_end))
    } else {
        None
    }
}

/// The reasons for which a request is refused before or at the check of its access token.
pub open spec fn is_authorization_refusal(e: AppError) -> bool {
    match e {
        AppError::Unauthorized(reason) => {
            ||| reason@ == "No authorization header"@
            ||| reason@ == "Malformed authorization header"@
            ||| reason@ == "Bad access token"@
        },
        _ => false,
    }
}

/// `e` refuses a request as unauthorized for `reason`.
pub open spec fn refuses_with(e: AppError, reason: Seq<char>) -> bool {
    e matches AppError::Unauthorized(r) && r@ == reason
}

/// Reads the `Authorization` header of a request (absent, or read as text) and
/// yields the access token it carries, or the refusal of the request.
pub fn access_token_from_header<'a>(header: Option<&'a str>) -> (r: Result<&'a str, AppError>)
    requires
        header matches Some(h) ==> is_header_text(h@),
    ensures
        header is None ==> (r matches Err(e) && refuses_with(e, "No authorization header"@)),
        header matches Some(h) ==> match bearer_token_of(h@) {
            Some(t) => (r matches Ok(token) && token@ == t),
            None => (r matches Err(e) && refuses_with(e, "Malformed authorization header"@)),
        },
        r matches Err(e) ==> is_authorization_refusal(e),
{
    match header {
        Some(h) => match bearer_token(h) {
            Some(token) => Ok(token),
            None => Err(AppError::Unauthorized(String::from_str("Malformed authorization header"))),
        },
        None => Err(AppError::Unauthorized(String::from_str("No authorization header"))),
    }
}

/// The user of a request, given what the verification of its access token
/// yielded: the token's claims, or `None` for a token that did not verify.
pub fn validated_user(verified: Option<ValidatedUser>) -> (r: Result<ValidatedUser, AppError>)
    ensures
        verified matches Some(u) ==> (r matches Ok(v) && v == u),
        verified is None ==> (r matches Err(e) && refuses_with(e, "Bad access token"@)),
        r matches Err(e) ==> is_authorization_refusal(e),
{
    match verified {
        Some(u) => Ok(u),
        None => Err(AppError::Unauthorized(String::from_str("Bad access token"))),
    }
}

/// Every refusal at the check of the `Authorization` header or of the access
/// token is answered `401 Unauthorized`, with the text `Unauthorized: ` and the reason.
pub proof fn lemma_refusal_is_unauthorized(e: AppError)
    requires
        is_authorization_refusal(e),
    ensures
        status_of(e) == 401,
        (e matches AppError::Unauthorized(reason) && message_of(e) == "Unauthorized: "@ + reason@),
{
}

/// A run of characters that is not empty and holds no blank.
pub open spec fn is_word(w: Seq<char>) -> bool {
    w.len() > 0 && forall|i: int| 0 <= i < w.len() ==> !is_blank(#[trigger] w[i])
}

/// Every word of `s` is non-empty and holds no blank; when `s` ends in a
/// non-blank character, its last word runs to the end of `s`.
proof fn lemma_words_are_words(s: Seq<char>)
    ensures
        forall|k: int| 0 <= k < words(s).len() ==> is_word(#[trigger] words(s)[k]),
        s.len() > 0 && !is_blank(s.last()) ==> words(s).len() > 0,
    decreases s.len(),
{
    if s.len() > 0 {
        let before = words(s.drop_last());
        lemma_words_are_words(s.drop_last());
        let c = s.last();
        if !is_blank(c) {
            if s.len() >= 2 && !is_blank(s[s.len() - 2]) {
                assert(s.drop_last().last() == s[s.len() - 2]);
                let w = before.last().push(c);
                assert(is_word(before[before.len() - 1]));
                assert(is_word(w));
                assert forall|k: int| 0 <= k < words(s).len() implies is_word(
                    #[trigger] words(s)[k],
                ) by {
                    if k < before.len() - 1 {
                        assert(words(s)[k] == before[k]);
                    }
                }
            } else {
                assert(is_word(seq![c]));
                assert forall|k: int| 0 <= k < words(s).len() implies is_word(
                    #[trigger] words(s)[k],
                ) by {
                    if k < before.len() {
                        assert(words(s)[k] == before[k]);
                    }
                }
            }
        }
    }
}

/// The token taken out of a header is one whole word of it: never empty,
/// and free of blanks (so trimming it would change nothing).
pub proof fn lemma_bearer_token_is_word(header: Seq<char>)
    ensures
        bearer_token_of(header) matches Some(t) ==> is_word(t),
{
    lemma_words_are_words(header);
}

/// A word followed by a blank and a second word splits into exactly those two words.
proof fn lemma_words_append_word(p: Seq<char>, t: Seq<char>)
    requires
        t.len() > 0,
        forall|i: int| 0 <= i < t.len() ==> !is_blank(#[trigger] t[i]),
        p.len() == 0 || is_blank(p.last()),
    ensures
        words(p + t) == words(p).push(t),
    decreases t.len(),
{
    if t.len() == 1 {
        assert((p + t).drop_last() =~= p);
        assert(t =~= seq![t[0]]);
    } else {
        let t1 = t.drop_last();
        lemma_words_append_word(p, t1);
        assert((p + t).drop_last() =~= p + t1);
        assert((p + t)[(p + t).len() - 2] == t[t.len() - 2]);
        assert(words(p).push(t1).drop_last() =~= words(p));
        assert(t1.push(t.last()) =~= t);
    }
}

/// A header made of a scheme, one space and a token yields that token:
/// for every scheme and token that are non-empty and hold no blank,
/// `bearer_token_of(scheme + " " + token) == Some(token)`.
pub proof fn lemma_bearer_token_round_trip(scheme: Seq<char>, token: Seq<char>)
    requires
        scheme.len() > 0,
        token.len() > 0,
        forall|i: int| 0 <= i < scheme.len() ==> !is_blank(#[trigger] scheme[i]),
        forall|i: int| 0 <= i < token.len() ==> !is_blank(#[trigger] token[i]),
    ensures
        bearer_token_of(scheme + seq![' '] + token) == Some(token),
{
    lemma_words_append_word(Seq::empty(), scheme);
    assert(Seq::<char>::empty() + scheme =~= scheme);
    let p = scheme + seq![' '];
    assert(p.drop_last() =~= scheme);
    lemma_words_append_word(p, token);
}

/// Words are separated by white space only, a space or a tab: for every scheme
/// and token that are non-empty and hold neither a space nor a tab (hyphens,
/// underscores, dots and every other character included), the header made of
/// the scheme, one space or tab, and the token yields exactly the token.
pub proof fn lemma_only_space_and_tab_separate(scheme: Seq<char>, sep: char, token: Seq<char>)
    requires
        sep == ' ' || sep == '\t',
        scheme.len() > 0,
        token.len() > 0,
        forall|i: int| 0 <= i < scheme.len() ==> #[trigger] scheme[i] != ' ' && scheme[i] != '\t',
        forall|i: int| 0 <= i < token.len() ==> #[trigger] token[i] != ' ' && token[i] != '\t',
    ensures
        bearer_token_of(scheme + seq![sep] + token) == Some(token),
{
    assert forall|i: int| 0 <= i < scheme.len() implies !is_blank(#[trigger] scheme[i]) by {}
    assert forall|i: int| 0 <= i < token.len() implies !is_blank(#[trigger] token[i]) by {}
    lemma_words_append_word(Seq::empty(), scheme);
    assert(Seq::<char>::empty() + scheme =~= scheme);
    let p = scheme + seq![sep];
    assert(p.drop_last() =~= scheme);
    lemma_words_append_word(p, token);
}

} // verus!
