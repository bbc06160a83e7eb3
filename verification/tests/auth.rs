use latin_website::auth::{
    access_token_claims, access_token_from_header, bearer_token, create_refresh_token_cookie,
    refresh_token_claims, validated_user, ValidatedUser, ACCESS_TOKEN_VALID_FOR_SECS,
    REFRESH_TOKEN_VALID_FOR_SECS,
};
use latin_website::errors::AppError;
use latin_website::models::users::{Role, User};

fn sample_user() -> User {
    User {
        id: 42,
        email: String::from("marcus@example.org"),
        username: String::from("marcus"),
        password: String::from("$argon2id$v=19$m=19456,t=2,p=1$c2FsdHNhbHQ$aGFzaA"),
        role: Role::User,
        token_version: 3,
    }
}

fn unauthorized_reason(e: AppError) -> String {
    match e {
        AppError::Unauthorized(reason) => reason,
        other => panic!("expected Unauthorized, got {:?}", other),
    }
}

#[test]
fn bearer_header_yields_its_token() {
    assert_eq!(bearer_token("Bearer abc.def.ghi"), Some("abc.def.ghi"));
}

#[test]
fn any_scheme_word_is_accepted() {
    assert_eq!(bearer_token("Token xyz"), Some("xyz"));
}

#[test]
fn surrounding_and_repeated_blanks_are_ignored() {
    assert_eq!(bearer_token("  Bearer \t  tok  "), Some("tok"));
    assert_eq!(bearer_token("\tBearer\ttok\t"), Some("tok"));
}

#[test]
fn header_with_one_word_is_malformed() {
    assert_eq!(bearer_token("Bearer"), None);
    assert_eq!(bearer_token("abc.def.ghi"), None);
}

#[test]
fn header_with_three_words_is_malformed() {
    assert_eq!(bearer_token("Bearer abc def"), None);
}

#[test]
fn empty_or_blank_header_is_malformed() {
    assert_eq!(bearer_token(""), None);
    assert_eq!(bearer_token("   \t "), None);
}

#[test]
fn missing_header_is_refused() {
    let e = access_token_from_header(None).unwrap_err();
    assert_eq!(e.status_code(), 401);
    assert_eq!(e.message(), "Unauthorized: No authorization header");
    assert_eq!(unauthorized_reason(e), "No authorization header");
}

#[test]
fn malformed_header_is_refused() {
    let e = access_token_from_header(Some("Bearer")).unwrap_err();
    assert_eq!(e.status_code(), 401);
    assert_eq!(unauthorized_reason(e), "Malformed authorization header");
    let e = access_token_from_header(Some("Bearer a b")).unwrap_err();
    assert_eq!(e.message(), "Unauthorized: Malformed authorization header");
}

#[test]
fn well_formed_header_yields_token() {
    assert_eq!(access_token_from_header(Some("Bearer t0k3n")).unwrap(), "t0k3n");
}

#[test]
fn verified_token_yields_its_user() {
    let u = validated_user(Some(ValidatedUser { user_id: 7 })).unwrap();
    assert_eq!(u.user_id, 7);
}

#[test]
fn unverified_token_is_refused() {
    let e = validated_user(None).unwrap_err();
    assert_eq!(e.status_code(), 401);
    assert_eq!(e.message(), "Unauthorized: Bad access token");
}

#[test]
fn access_claims_name_the_user() {
    let claims = access_token_claims(&sample_user());
    assert_eq!(claims.user_id, 42);
}

#[test]
fn refresh_claims_carry_the_token_version() {
    let claims = refresh_token_claims(&sample_user());
    assert_eq!(claims.user_id, 42);
    assert_eq!(claims.token_version, 3);
}

#[test]
fn token_lifetimes() {
    assert_eq!(ACCESS_TOKEN_VALID_FOR_SECS, 60);
    assert_eq!(REFRESH_TOKEN_VALID_FOR_SECS, 7 * 24 * 60 * 60);
}

#[test]
fn refresh_cookie_is_http_only_jid() {
    let cookie = create_refresh_token_cookie("refresh.token.value");
    assert_eq!(cookie.name, "jid");
    assert_eq!(cookie.value, "refresh.token.value");
    assert!(cookie.http_only);
}
