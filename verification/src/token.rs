//! The token endpoint: exchanging authorization codes and refresh tokens
//! for access tokens.

use vstd::prelude::*;
use crate::client::{bad_request, client_check, contains_text, lists, presented_secret, str_or_empty, unauthorized, validate_client};
use crate::clock::{unix_now, MAX_UTC_TIMESTAMP};
use crate::codes::generate_auth_code;
use crate::model::{Claims, Fetched, Notice, OAuthClient, OAuthSession, Reply, Status, TokenRequest, TokenResponse};
use crate::store::{AuthCodeStore, CodeEntries};
use crate::text::{is_lower_hex, same_text, uuid_text, uuid_text_of};

verus! {

/// Seconds an access token is valid for.
pub const ACCESS_TOKEN_SECONDS: i64 = 3600i64;

/// Seconds a refresh token is valid for.
pub const REFRESH_TOKEN_SECONDS: i64 = 180i64;

/// The grants the token endpoint supports.
#[derive(PartialEq, Eq, Structural, Clone, Copy, Debug)]
pub enum GrantKind {
    AuthorizationCode,
    RefreshToken,
}

/// The grant a `grant_type` names, if it is a supported one.
pub open spec fn grant_kind_of(grant_type: Seq<char>) -> Option<GrantKind> {
    if grant_type == "authorization_code"@ {
        Some(GrantKind::AuthorizationCode)
    } else if grant_type == "refresh_token"@ {
        Some(GrantKind::RefreshToken)
    } else {
        None
    }
}

/// Dispatches a token request on its `grant_type`; any other grant is
/// `422 Unsupported grant type`.
pub fn token_grant(request: &TokenRequest) -> (res: Result<GrantKind, Reply>)
    ensures
        grant_kind_of(request.grant_type@) matches Some(k) ==> res == Ok::<GrantKind, Reply>(k),
        grant_kind_of(request.grant_type@) is None ==> res == Err::<GrantKind, Reply>(
            Reply::Error(Status::UnprocessableEntity, Notice::UnsupportedGrantType),
        ),
{
    if same_text(request.grant_type.as_str(), "authorization_code") {
        Ok(GrantKind::AuthorizationCode)
    } else if same_text(request.grant_type.as_str(), "refresh_token") {
        Ok(GrantKind::RefreshToken)
    } else {
        Err(Reply::Error(Status::UnprocessableEntity, Notice::UnsupportedGrantType))
    }
}

/// Access granted to a client on behalf of a user.
pub struct Grant {
    pub user_id: u128,
    pub client_id: String,
    pub scopes: Vec<String>,
}

/// The outcome of exchanging an authorization code, and the codes left.
pub open spec fn code_exchange(
    codes: CodeEntries,
    request: TokenRequest,
    found: Fetched<OAuthClient>,
) -> (Result<Grant, Reply>, CodeEntries) {
    match client_check(found, presented_secret(request)) {
        Err(reply) => (Err(reply), codes),
        Ok(client) => match request.code {
            None => (Err(bad_request(Notice::MissingCode)), codes),
            Some(code) => match request.redirect_uri {
                None => (Err(bad_request(Notice::MissingRedirectUri)), codes),
                Some(uri) => {
                    if !lists(client.redirect_uris@, uri@) {
                        (Err(unauthorized(Notice::UnregisteredRedirectUri)), codes)
                    } else if !codes.contains_key(code@) {
                        (Err(bad_request(Notice::InvalidOrExpiredCode)), codes)
                    } else {
                        (
                            Ok(
                                Grant {
                                    user_id: codes[code@].0,
                                    client_id: request.client_id,
                                    scopes: client.scopes,
                                },
                            ),
                            codes.remove(code@),
                        )
                    }
                },
            },
        },
    }
}

/// The `authorization_code` grant, given the result of looking the client
/// up: the client must authenticate, the request must carry a code and a
/// redirect URI registered for the client, and the code must be pending.
/// The code is then used up, and access is granted to the requesting client
/// on behalf of the user who authorized the code.
pub fn exchange_auth_code(
    codes: &mut AuthCodeStore,
    request: &TokenRequest,
    found: Fetched<OAuthClient>,
) -> (res: Result<Grant, Reply>)
    ensures
        (res, final(codes)@) == code_exchange(old(codes)@, *request, found),
{
    let client = match validate_client(found, str_or_empty(&request.client_secret)) {
        Ok(c) => c,
        Err(e) => return Err(e),
    };
    let code = match &request.code {
        Some(c) => c,
        None => return Err(Reply::Error(Status::BadRequest, Notice::MissingCode)),
    };
    let redirect_uri = match &request.redirect_uri {
        Some(r) => r,
        None => return Err(Reply::Error(Status::BadRequest, Notice::MissingRedirectUri)),
    };
    if !contains_text(&client.redirect_uris, redirect_uri.as_str()) {
        return Err(Reply::Error(Status::Unauthorized, Notice::UnregisteredRedirectUri));
    }
    let session = match codes.take(code.as_str()) {
        Some(s) => s,
        None => return Err(Reply::Error(Status::BadRequest, Notice::InvalidOrExpiredCode)),
    };
    Ok(Grant { user_id: session.user_id, client_id: request.client_id.clone(), scopes: client.scopes })
}

/// The permissions every access token carries.
pub open spec fn access_permissions() -> Seq<Seq<char>> {
    seq!["read:patients"@, "write:patients"@]
}

pub open spec fn texts(list: Seq<String>) -> Seq<Seq<char>> {
    list.map_values(|s: String| s@)
}

/// The permissions every access token carries.
pub fn patient_permissions() -> (perms: Vec<String>)
    ensures
        texts(perms@) == access_permissions(),
{
    let mut perms: Vec<String> = Vec::new();
    perms.push(String::from_str("read:patients"));
    perms.push(String::from_str("write:patients"));
    assert(texts(perms@) =~= access_permissions());
    perms
}

/// The claims of an access token issued at `now` for a user and client.
pub open spec fn claims_for(claims: Claims, user_id: u128, client_id: Seq<char>, now: i64) -> bool {
    &&& claims.sub@ == uuid_text_of(user_id)
    &&& claims.iat == now as usize
    &&& claims.exp == (now + ACCESS_TOKEN_SECONDS) as usize
    &&& claims.client_id@ == client_id
    &&& texts(claims.permissions@) == access_permissions()
}

/// Whether an access token issued at `now` can have an expiry: `chrono`
/// cannot represent a time later than `MAX_UTC_TIMESTAMP`.
pub open spec fn can_expire(now: i64) -> bool {
    now <= MAX_UTC_TIMESTAMP - ACCESS_TOKEN_SECONDS
}

/// The claims of an access token for a user and client issued at `now`:
/// subject the user's UUID, issued at `now`, expiring an hour later, with
/// the patient permissions. There are none when the expiry is beyond the
/// latest time `chrono` represents.
pub fn jwt_claims(user_id: u128, client_id: &str, now: i64) -> (res: Option<Claims>)
    ensures
        res is Some <==> can_expire(now),
        res matches Some(c) ==> claims_for(c, user_id, client_id@, now),
{
    if now > MAX_UTC_TIMESTAMP - ACCESS_TOKEN_SECONDS {
        return None;
    }
    let exp = now + ACCESS_TOKEN_SECONDS;
    Some(
        Claims {
            sub: uuid_text(user_id),
            exp: exp as usize,
            iat: now as usize,
            client_id: String::from_str(client_id),
            permissions: patient_permissions(),
        },
    )
}

/// The compact JSON Web Token that `jsonwebtoken::encode` makes with the
/// default header (HS256) and an HMAC key of these secret bytes, for a
/// payload with these claims in the order `sub`, `exp`, `iat`, `client_id`,
/// `permissions`.
pub uninterp spec fn hs256_jwt(
    sub: Seq<char>,
    exp: usize,
    iat: usize,
    client_id: Seq<char>,
    permissions: Seq<Seq<char>>,
    secret: Seq<u8>,
) -> Seq<char>;

/// `jsonwebtoken::encode(&Header::default(), &payload,
/// &EncodingKey::from_secret(secret))`, the payload being the claims as a
/// JSON object in field order. The key's family (HMAC) matches the header's
/// algorithm (HS256), serialising a JSON object cannot fail and HMAC
/// signing cannot fail, so a token always comes back; it is the one named
/// `hs256_jwt`. Trusted.
#[verifier::external_body]
fn sign_claims(claims: &Claims, secret: &[u8]) -> (token: Option<String>)
    ensures
        token is Some,
        token matches Some(t) ==> t@ == hs256_jwt(
            claims.sub@,
            claims.exp,
            claims.iat,
            claims.client_id@,
            texts(claims.permissions@),
            secret@,
        ),
{
    let mut payload = serde_json::Map::new();
    payload.insert(String::from("sub"), claims.sub.clone().into());
    payload.insert(String::from("exp"), claims.exp.into());
    payload.insert(String::from("iat"), claims.iat.into());
    payload.insert(String::from("client_id"), claims.client_id.clone().into());
    payload.insert(String::from("permissions"), claims.permissions.clone().into());
    let key = jsonwebtoken::EncodingKey::from_secret(secret);
    jsonwebtoken::encode(&jsonwebtoken::Header::default(), &payload, &key).ok()
}

/// The access token of a user and client issued at `now`, signed with a
/// secret: the claims of `claims_for` under HS256.
pub open spec fn jwt_for(user_id: u128, client_id: Seq<char>, now: i64, secret: Seq<u8>) -> Seq<char> {
    hs256_jwt(
        uuid_text_of(user_id),
        (now + ACCESS_TOKEN_SECONDS) as usize,
        now as usize,
        client_id,
        access_permissions(),
        secret,
    )
}

/// Signs an access token for a user and client issued at `now`: subject
/// the user's UUID, issued at `now`, expiring an hour later, with the
/// patient permissions, as an HS256 JSON Web Token under the secret. There
/// is none when the expiry is beyond the latest time `chrono` represents.
pub fn create_jwt(user_id: u128, client_id: &str, now: i64, secret: &[u8]) -> (res: Option<String>)
    ensures
        res is Some <==> can_expire(now),
        res matches Some(t) ==> t@ == jwt_for(user_id, client_id@, now, secret@),
{
    let claims = match jwt_claims(user_id, client_id, now) {
        Some(c) => c,
        None => return None,
    };
    sign_claims(&claims, secret)
}

/// The session key a refresh token is kept under.
pub open spec fn refresh_key_of(token: Seq<char>) -> Seq<char> {
    "refresh_token:"@ + token
}

/// The session key a refresh token is kept under: `refresh_token:<token>`.
pub fn refresh_session_key(token: &str) -> (key: String)
    ensures
        key@ == refresh_key_of(token@),
{
    let mut key = String::from_str("refresh_token:");
    key.append(token);
    key
}

/// What a successful token request hands out: the signed access token, and
/// a refresh token with the session entry to keep for it.
pub struct Issuance {
    pub access_token: String,
    pub refresh_token: String,
    pub refresh_key: String,
    pub refresh_entry: OAuthSession,
    pub scope: Vec<String>,
}

/// An issuance for a grant at `now` with this refresh token: access claims
/// for the grant's user and client; the refresh token stored under its key
/// for the same user and client, expiring three minutes after `now`; the
/// grant's scopes.
pub open spec fn issued(i: Issuance, grant: Grant, now: i64, token: Seq<char>, secret: Seq<u8>) -> bool {
    &&& i.access_token@ == jwt_for(grant.user_id, grant.client_id@, now, secret)
    &&& i.refresh_token@ == token
    &&& i.refresh_key@ == refresh_key_of(token)
    &&& i.refresh_entry.user_id == grant.user_id
    &&& i.refresh_entry.client_id@ == grant.client_id@
    &&& i.refresh_entry.expires_at == Some((now + REFRESH_TOKEN_SECONDS) as i64)
    &&& i.scope == grant.scopes
}

/// Plans the tokens for a grant at `now` with a given refresh token.
pub fn plan_issuance(grant: Grant, now: i64, refresh_token: String, secret: &[u8]) -> (res: Option<
    Issuance,
>)
    ensures
        res is Some <==> can_expire(now),
        res matches Some(i) ==> issued(i, grant, now, refresh_token@, secret@),
{
    let access_token = match create_jwt(grant.user_id, grant.client_id.as_str(), now, secret) {
        Some(t) => t,
        None => return None,
    };
    let refresh_key = refresh_session_key(refresh_token.as_str());
    let refresh_entry = OAuthSession {
        user_id: grant.user_id,
        client_id: grant.client_id,
        expires_at: Some(now + REFRESH_TOKEN_SECONDS),
    };
    Some(Issuance { access_token, refresh_token, refresh_key, refresh_entry, scope: grant.scopes })
}

/// Plans the tokens for a grant now, with a fresh random refresh token.
/// There are none when the clock cannot be read as `chrono` reads it, when
/// it is within an hour of the latest time `chrono` represents, or when the
/// random source fails.
pub fn issue_tokens(grant: Grant, secret: &[u8]) -> (res: Option<Issuance>)
    ensures
        res matches Some(i) ==> {
            &&& i.refresh_token@.len() == 64
            &&& is_lower_hex(i.refresh_token@)
            &&& exists|now: i64| 0 <= now && #[trigger] can_expire(now) && issued(i, grant, now, i.refresh_token@, secret@)
        },
{
    let now = match unix_now() {
        Some(t) => t,
        None => return None,
    };
    let refresh_token = match generate_auth_code() {
        Some(t) => t,
        None => return None,
    };
    let res = plan_issuance(grant, now, refresh_token, secret);
    proof {
        if res is Some {
            assert(can_expire(now));
        }
    }
    res
}

/// The JSON answer to a successful token request: the access token, a
/// bearer token valid for an hour, with the refresh token and the client's
/// scopes.
pub fn token_response(issuance: Issuance) -> (res: TokenResponse)
    ensures
        res.access_token == issuance.access_token,
        res.token_type@ == "Bearer"@,
        res.expires_in == 3600,
        res.refresh_token == Some(issuance.refresh_token),
        res.scope == issuance.scope,
{
    TokenResponse {
        access_token: issuance.access_token,
        token_type: String::from_str("Bearer"),
        expires_in: 3600,
        refresh_token: Some(issuance.refresh_token),
        scope: issuance.scope,
    }
}

/// The refresh token a `refresh_token` grant presents; none is
/// `400 Missing refresh token`.
pub fn refresh_token_param(request: &TokenRequest) -> (res: Result<String, Reply>)
    ensures
        request.refresh_token matches Some(t) ==> res == Ok::<String, Reply>(t),
        request.refresh_token is None ==> res == Err::<String, Reply>(bad_request(Notice::MissingRefreshToken)),
{
    match &request.refresh_token {
        Some(t) => Ok(t.clone()),
        None => Err(Reply::Error(Status::BadRequest, Notice::MissingRefreshToken)),
    }
}

/// What redeeming a refresh token comes to: whether its session entry is to
/// be discarded, and the grant or the error reply.
pub struct Redemption {
    pub discard_entry: bool,
    pub outcome: Result<Grant, Reply>,
}

/// Redeeming the session entry found under a refresh token's key at `now`,
/// for an authenticated client: no entry is `401 Invalid refresh token`; an
/// entry past its expiry is discarded and `401 Refresh token expired`; any
/// other entry is discarded too, and grants access to its user and client,
/// unless it was issued to another client (`401 Client mismatch`).
pub open spec fn redemption(
    request: TokenRequest,
    client: OAuthClient,
    entry: Option<OAuthSession>,
    now: i64,
) -> (bool, Result<Grant, Reply>) {
    match entry {
        None => (false, Err(unauthorized(Notice::InvalidRefreshToken))),
        Some(e) => {
            if now > e.expires_at->0 {
                (true, Err(unauthorized(Notice::RefreshTokenExpired)))
            } else if e.client_id@ != request.client_id@ {
                (true, Err(unauthorized(Notice::ClientMismatch)))
            } else {
                (true, Ok(Grant { user_id: e.user_id, client_id: e.client_id, scopes: client.scopes }))
            }
        },
    }
}

/// Redeems the session entry of a refresh token at `now`; see `redemption`.
pub fn redeem_refresh_entry(
    request: &TokenRequest,
    client: OAuthClient,
    entry: Option<OAuthSession>,
    now: i64,
) -> (res: Redemption)
    requires
        entry matches Some(e) ==> e.expires_at is Some,
    ensures
        (res.discard_entry, res.outcome) == redemption(*request, client, entry, now),
{
    match entry {
        None => Redemption {
            discard_entry: false,
            outcome: Err(Reply::Error(Status::Unauthorized, Notice::InvalidRefreshToken)),
        },
        Some(e) => {
            let expires_at = match e.expires_at {
                Some(t) => t,
                None => 0,
            };
            if now > expires_at {
                Redemption {
                    discard_entry: true,
                    outcome: Err(Reply::Error(Status::Unauthorized, Notice::RefreshTokenExpired)),
                }
            } else if !same_text(e.client_id.as_str(), request.client_id.as_str()) {
                Redemption {
                    discard_entry: true,
                    outcome: Err(Reply::Error(Status::Unauthorized, Notice::ClientMismatch)),
                }
            } else {
                Redemption {
                    discard_entry: true,
                    outcome: Ok(Grant { user_id: e.user_id, client_id: e.client_id, scopes: client.scopes }),
                }
            }
        },
    }
}

/// Redeems the session entry of a refresh token now. The clock is read
/// only when there is an entry; `None` when it cannot be read as `chrono`
/// reads it.
pub fn redeem_refresh(request: &TokenRequest, client: OAuthClient, entry: Option<OAuthSession>) -> (res: Option<Redemption>)
    requires
        entry matches Some(e) ==> e.expires_at is Some,
    ensures
        entry is None ==> (res matches Some(r) && (r.discard_entry, r.outcome) == redemption(
            *request,
            client,
            entry,
            0,
        )),
        res matches Some(r) ==> exists|now: i64|
            0 <= now && now <= MAX_UTC_TIMESTAMP && (r.discard_entry, r.outcome) == #[trigger] redemption(
                *request,
                client,
                entry,
                now,
            ),
{
    if entry.is_none() {
        let r = redeem_refresh_entry(request, client, entry, 0);
        assert(redemption(*request, client, entry, 0) == redemption(*request, client, entry, 0));
        return Some(r);
    }
    let now = match unix_now() {
        Some(t) => t,
        None => return None,
    };
    Some(redeem_refresh_entry(request, client, entry, now))
}

} // verus!
