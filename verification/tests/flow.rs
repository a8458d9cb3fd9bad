use authsystem::authorize::{authorize, authorize_gate, authorize_with_code, check_login, invalid_login, resume_pending, AuthorizeGate};
use authsystem::client::validate_client;
use authsystem::clock::MAX_UTC_TIMESTAMP;
use authsystem::model::{AuthRequestParams, Fetched, Notice, OAuthClient, OAuthSession, Reply, Status, TokenRequest, User};
use authsystem::password::hash_password;
use authsystem::store::AuthCodeStore;
use authsystem::token::{
    create_jwt, exchange_auth_code, issue_tokens, jwt_claims, plan_issuance, redeem_refresh, redeem_refresh_entry,
    refresh_session_key, refresh_token_param, token_grant, token_response, Grant, GrantKind,
};

fn client() -> OAuthClient {
    OAuthClient {
        client_id: "clinic-app".to_string(),
        client_secret_hash: Some("s3cret".to_string()),
        redirect_uris: vec!["https://app.example/cb".to_string(), "https://app.example/alt".to_string()],
        scopes: vec!["openid".to_string(), "patients".to_string()],
    }
}

fn params() -> AuthRequestParams {
    AuthRequestParams {
        client_id: "clinic-app".to_string(),
        redirect_uri: "https://app.example/cb".to_string(),
        response_type: "code".to_string(),
        state: "xyz".to_string(),
        code_challenge: None,
    }
}

fn code_request(code: Option<&str>, redirect: Option<&str>, secret: Option<&str>) -> TokenRequest {
    TokenRequest {
        grant_type: "authorization_code".to_string(),
        code: code.map(|c| c.to_string()),
        redirect_uri: redirect.map(|r| r.to_string()),
        client_id: "clinic-app".to_string(),
        client_secret: secret.map(|s| s.to_string()),
        refresh_token: None,
    }
}

fn refresh_request(client_id: &str, token: Option<&str>) -> TokenRequest {
    TokenRequest {
        grant_type: "refresh_token".to_string(),
        code: None,
        redirect_uri: None,
        client_id: client_id.to_string(),
        client_secret: Some("s3cret".to_string()),
        refresh_token: token.map(|t| t.to_string()),
    }
}

fn error_of(reply: Reply) -> (Status, Notice) {
    match reply {
        Reply::Error(s, n) => (s, n),
        _ => panic!("expected an error reply"),
    }
}

fn location_of(reply: Reply) -> String {
    match reply {
        Reply::Redirect(to) => to,
        _ => panic!("expected a redirect"),
    }
}

const USER: u128 = 0x67e5504410b1426f9247bb680e5fe0c8;

#[test]
fn grant_types() {
    assert_eq!(token_grant(&code_request(None, None, None)).ok(), Some(GrantKind::AuthorizationCode));
    assert_eq!(token_grant(&refresh_request("c", None)).ok(), Some(GrantKind::RefreshToken));
    let mut other = code_request(None, None, None);
    other.grant_type = "password".to_string();
    assert_eq!(
        error_of(token_grant(&other).err().unwrap()),
        (Status::UnprocessableEntity, Notice::UnsupportedGrantType)
    );
}

#[test]
fn client_validation() {
    assert!(validate_client(Fetched::Found(client()), "s3cret").is_ok());
    assert_eq!(
        error_of(validate_client(Fetched::Found(client()), "wrong").err().unwrap()),
        (Status::Unauthorized, Notice::InvalidSecret)
    );
    assert_eq!(
        error_of(validate_client(Fetched::NotFound, "s3cret").err().unwrap()),
        (Status::Unauthorized, Notice::InvalidClient)
    );
    assert_eq!(
        error_of(validate_client(Fetched::Failed, "s3cret").err().unwrap()),
        (Status::Unauthorized, Notice::InvalidClient)
    );
    let mut public = client();
    public.client_secret_hash = None;
    assert!(validate_client(Fetched::Found(public), "").is_ok());
}

#[test]
fn authorize_then_exchange_once() {
    let mut codes = AuthCodeStore::new();
    let reply = authorize_with_code(&mut codes, &params(), USER, Fetched::Found(client()), "abc123".to_string());
    assert_eq!(location_of(reply), "https://app.example/cb?code=abc123&state=xyz");

    let req = code_request(Some("abc123"), Some("https://app.example/alt"), Some("s3cret"));
    let grant = exchange_auth_code(&mut codes, &req, Fetched::Found(client())).ok().unwrap();
    assert_eq!(grant.user_id, USER);
    assert_eq!(grant.client_id, "clinic-app");
    assert_eq!(grant.scopes, vec!["openid".to_string(), "patients".to_string()]);

    let again = exchange_auth_code(&mut codes, &req, Fetched::Found(client())).err().unwrap();
    assert_eq!(error_of(again), (Status::BadRequest, Notice::InvalidOrExpiredCode));
}

#[test]
fn random_code_from_authorize_is_exchangeable() {
    let mut codes = AuthCodeStore::new();
    let location = location_of(authorize(&mut codes, &params(), USER, Fetched::Found(client())).unwrap());
    let rest = location.strip_prefix("https://app.example/cb?code=").unwrap();
    let code = rest.strip_suffix("&state=xyz").unwrap();
    assert_eq!(code.len(), 64);
    let req = code_request(Some(code), Some("https://app.example/cb"), Some("s3cret"));
    let grant = exchange_auth_code(&mut codes, &req, Fetched::Found(client())).ok().unwrap();
    assert_eq!(grant.user_id, USER);
}

#[test]
fn authorize_refusals_record_no_code() {
    let mut codes = AuthCodeStore::new();
    let mut bad = params();
    bad.redirect_uri = "https://evil.example/cb".to_string();
    assert_eq!(
        error_of(authorize(&mut codes, &bad, USER, Fetched::Found(client())).unwrap()),
        (Status::BadRequest, Notice::UnregisteredRedirectUrl)
    );
    assert_eq!(
        error_of(authorize(&mut codes, &params(), USER, Fetched::NotFound).unwrap()),
        (Status::NotFound, Notice::ClientNotFound)
    );
    assert_eq!(
        error_of(authorize(&mut codes, &params(), USER, Fetched::Failed).unwrap()),
        (Status::InternalServerError, Notice::ClientFetchFailed)
    );
    let empty = authorize_with_code(&mut codes, &bad, USER, Fetched::Found(client()), "c".to_string());
    assert!(matches!(empty, Reply::Error(..)));
    let req = code_request(Some("c"), Some("https://app.example/cb"), Some("s3cret"));
    assert_eq!(
        error_of(exchange_auth_code(&mut codes, &req, Fetched::Found(client())).err().unwrap()),
        (Status::BadRequest, Notice::InvalidOrExpiredCode)
    );
}

#[test]
fn exchange_checks_in_order() {
    let mut codes = AuthCodeStore::new();
    codes.insert("k".to_string(), OAuthSession { user_id: USER, client_id: "clinic-app".to_string(), expires_at: None });
    let found = || Fetched::Found(client());
    let err = |codes: &mut AuthCodeStore, req: TokenRequest, f: Fetched<OAuthClient>| {
        error_of(exchange_auth_code(codes, &req, f).err().unwrap())
    };
    assert_eq!(
        err(&mut codes, code_request(Some("k"), Some("https://app.example/cb"), Some("bad")), found()),
        (Status::Unauthorized, Notice::InvalidSecret)
    );
    assert_eq!(
        err(&mut codes, code_request(Some("k"), Some("https://app.example/cb"), None), found()),
        (Status::Unauthorized, Notice::InvalidSecret)
    );
    assert_eq!(
        err(&mut codes, code_request(Some("k"), Some("https://app.example/cb"), Some("s3cret")), Fetched::NotFound),
        (Status::Unauthorized, Notice::InvalidClient)
    );
    assert_eq!(
        err(&mut codes, code_request(None, Some("https://app.example/cb"), Some("s3cret")), found()),
        (Status::BadRequest, Notice::MissingCode)
    );
    assert_eq!(
        err(&mut codes, code_request(Some("k"), None, Some("s3cret")), found()),
        (Status::BadRequest, Notice::MissingRedirectUri)
    );
    assert_eq!(
        err(&mut codes, code_request(Some("k"), Some("https://other/cb"), Some("s3cret")), found()),
        (Status::Unauthorized, Notice::UnregisteredRedirectUri)
    );
    // The refused requests left the code in place.
    let ok = exchange_auth_code(&mut codes, &code_request(Some("k"), Some("https://app.example/cb"), Some("s3cret")), found());
    assert!(ok.is_ok());
}

#[test]
fn access_claims() {
    let claims = jwt_claims(USER, "clinic-app", 1_700_000_000).unwrap();
    assert_eq!(claims.sub, "67e55044-10b1-426f-9247-bb680e5fe0c8");
    assert_eq!(claims.iat, 1_700_000_000);
    assert_eq!(claims.exp, 1_700_003_600);
    assert_eq!(claims.client_id, "clinic-app");
    assert_eq!(claims.permissions, vec!["read:patients".to_string(), "write:patients".to_string()]);
    assert!(jwt_claims(USER, "c", MAX_UTC_TIMESTAMP - 3600).is_some());
    assert!(jwt_claims(USER, "c", MAX_UTC_TIMESTAMP - 3599).is_none());
}

fn grant() -> Grant {
    Grant { user_id: USER, client_id: "clinic-app".to_string(), scopes: vec!["openid".to_string()] }
}

#[test]
fn issuance_and_response() {
    let i = plan_issuance(grant(), 1_000, "tok".to_string(), b"key").unwrap();
    assert_eq!(i.refresh_key, "refresh_token:tok");
    assert_eq!(i.refresh_entry.user_id, USER);
    assert_eq!(i.refresh_entry.client_id, "clinic-app");
    assert_eq!(i.refresh_entry.expires_at, Some(1_180));
    let claims = decode(&i.access_token, b"key");
    assert_eq!(claims["exp"], 4_600);
    assert_eq!(claims["iat"], 1_000);
    let token = i.access_token.clone();
    let r = token_response(i);
    assert_eq!(r.access_token, token);
    assert_eq!(r.token_type, "Bearer");
    assert_eq!(r.expires_in, 3600);
    assert_eq!(r.refresh_token, Some("tok".to_string()));
    assert_eq!(r.scope, vec!["openid".to_string()]);
}

#[test]
fn issue_tokens_now() {
    let i = issue_tokens(grant(), b"key").unwrap();
    assert_eq!(i.refresh_token.len(), 64);
    assert_eq!(i.refresh_key, format!("refresh_token:{}", i.refresh_token));
    let exp = i.refresh_entry.expires_at.unwrap();
    let claims = decode(&i.access_token, b"key");
    let iat = claims["iat"].as_i64().unwrap();
    assert_eq!(claims["exp"].as_i64().unwrap(), iat + 3600);
    assert_eq!(exp, iat + 180);
}

#[test]
fn refresh_token_parameter() {
    assert_eq!(refresh_token_param(&refresh_request("c", Some("t"))).ok(), Some("t".to_string()));
    assert_eq!(
        error_of(refresh_token_param(&refresh_request("c", None)).err().unwrap()),
        (Status::BadRequest, Notice::MissingRefreshToken)
    );
    assert_eq!(refresh_session_key("abc"), "refresh_token:abc");
}

#[test]
fn refresh_round_trip_and_expiry() {
    let i = plan_issuance(grant(), 5_000, "tok".to_string(), b"key").unwrap();
    let entry = || Some(OAuthSession { user_id: i.refresh_entry.user_id, client_id: i.refresh_entry.client_id.clone(), expires_at: i.refresh_entry.expires_at });
    let req = refresh_request("clinic-app", Some("tok"));

    let at_limit = redeem_refresh_entry(&req, client(), entry(), 5_180);
    assert!(at_limit.discard_entry);
    let g = at_limit.outcome.ok().unwrap();
    assert_eq!(g.user_id, USER);
    assert_eq!(g.client_id, "clinic-app");
    assert_eq!(g.scopes, client().scopes);

    let late = redeem_refresh_entry(&req, client(), entry(), 5_181);
    assert!(late.discard_entry);
    assert_eq!(error_of(late.outcome.err().unwrap()), (Status::Unauthorized, Notice::RefreshTokenExpired));

    let other = redeem_refresh_entry(&refresh_request("other-app", Some("tok")), client(), entry(), 5_000);
    assert!(other.discard_entry);
    assert_eq!(error_of(other.outcome.err().unwrap()), (Status::Unauthorized, Notice::ClientMismatch));

    let missing = redeem_refresh_entry(&req, client(), None, 5_000);
    let missing_now = redeem_refresh(&req, client(), None).unwrap();
    assert!(!missing_now.discard_entry);
    assert_eq!(error_of(missing_now.outcome.err().unwrap()), (Status::Unauthorized, Notice::InvalidRefreshToken));
    assert!(!missing.discard_entry);
    assert_eq!(error_of(missing.outcome.err().unwrap()), (Status::Unauthorized, Notice::InvalidRefreshToken));
}

#[test]
fn refresh_now_against_the_clock() {
    let req = refresh_request("clinic-app", Some("tok"));
    let fresh = OAuthSession { user_id: USER, client_id: "clinic-app".to_string(), expires_at: Some(i64::MAX) };
    assert!(redeem_refresh(&req, client(), Some(fresh)).unwrap().outcome.is_ok());
    let stale = OAuthSession { user_id: USER, client_id: "clinic-app".to_string(), expires_at: Some(0) };
    let r = redeem_refresh(&req, client(), Some(stale)).unwrap();
    assert!(r.discard_entry);
    assert_eq!(error_of(r.outcome.err().unwrap()), (Status::Unauthorized, Notice::RefreshTokenExpired));
}

#[test]
fn gate_and_resume() {
    match authorize_gate(None) {
        AuthorizeGate::SignInFirst(r) => assert_eq!(location_of(r), "/auth/login"),
        _ => panic!("expected a sign-in"),
    }
    assert!(matches!(authorize_gate(Some(7)), AuthorizeGate::SignedIn(7)));

    let r = resume_pending(Some(params()));
    assert!(r.clear_pending);
    assert_eq!(
        location_of(r.reply),
        "/auth/authorize?client_id=clinic-app&redirect_uri=https://app.example/cb&response_type=code&state=xyz"
    );
    let none = resume_pending(None);
    assert!(!none.clear_pending);
    assert_eq!(error_of(none.reply), (Status::BadRequest, Notice::NoPendingSession));
}

#[test]
fn login_checks() {
    let hash = hash_password("correct horse").ok().unwrap();
    let user = || User {
        id: USER,
        email: "a@b.c".to_string(),
        password_hash: hash.clone(),
        first_name: "A".to_string(),
        last_name: "B".to_string(),
    };
    assert_eq!(check_login(Fetched::Found(user()), "correct horse").ok(), Some(USER));
    let expected = "/auth/login?error=Invalid+email+or+password";
    assert_eq!(location_of(check_login(Fetched::Found(user()), "wrong").err().unwrap()), expected);
    assert_eq!(location_of(check_login(Fetched::NotFound, "x").err().unwrap()), expected);
    assert_eq!(location_of(check_login(Fetched::Failed, "x").err().unwrap()), expected);
    assert_eq!(location_of(invalid_login()), expected);
}

fn decode(token: &str, secret: &[u8]) -> serde_json::Map<String, serde_json::Value> {
    let mut validation = jsonwebtoken::Validation::new(jsonwebtoken::Algorithm::HS256);
    validation.validate_exp = false;
    validation.required_spec_claims.clear();
    jsonwebtoken::decode::<serde_json::Map<String, serde_json::Value>>(
        token,
        &jsonwebtoken::DecodingKey::from_secret(secret),
        &validation,
    )
    .unwrap()
    .claims
}

#[test]
fn access_token_is_signed_jwt_of_the_claims() {
    let token = create_jwt(USER, "clinic-app", 1_700_000_000, b"s3cret-key").unwrap();
    assert_eq!(token.split('.').count(), 3);
    let claims = decode(&token, b"s3cret-key");
    let keys: Vec<&str> = claims.keys().map(|k| k.as_str()).collect();
    assert_eq!(keys, vec!["sub", "exp", "iat", "client_id", "permissions"]);
    assert_eq!(claims["sub"], "67e55044-10b1-426f-9247-bb680e5fe0c8");
    assert_eq!(claims["exp"], 1_700_003_600);
    assert_eq!(claims["iat"], 1_700_000_000);
    assert_eq!(claims["client_id"], "clinic-app");
    assert_eq!(claims["permissions"], serde_json::Value::from(vec!["read:patients", "write:patients"]));
    assert_eq!(token, create_jwt(USER, "clinic-app", 1_700_000_000, b"s3cret-key").unwrap());
    assert_ne!(token, create_jwt(USER, "clinic-app", 1_700_000_000, b"other-key").unwrap());
    assert!(create_jwt(USER, "c", MAX_UTC_TIMESTAMP - 3599, b"k").is_none());
}
