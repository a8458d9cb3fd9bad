//! Properties of the authorization flow that span several steps.

use vstd::prelude::*;
use crate::authorize::{accepts_redirect, authorization, pending_after_resume, resume_reply};
use crate::client::{client_check, lists, presented_secret, stored_secret, unauthorized};
use crate::model::{AuthRequestParams, Fetched, Notice, OAuthClient, OAuthSession, Status, TokenRequest};
use crate::model::Claims;
use crate::store::CodeEntries;
use crate::text::is_lower_hex;
use crate::token::{refresh_key_of, can_expire, claims_for, code_exchange, issued, redemption, Grant, Issuance, ACCESS_TOKEN_SECONDS, REFRESH_TOKEN_SECONDS};

verus! {

/// An authorization code is good for one exchange: once exchanged it is
/// gone from the store, and exchanging it again fails, whoever asks.
pub proof fn law_auth_code_single_use(
    codes: CodeEntries,
    request: TokenRequest,
    first: Fetched<OAuthClient>,
    second: Fetched<OAuthClient>,
)
    requires
        code_exchange(codes, request, first).0 is Ok,
    ensures
        !code_exchange(codes, request, first).1.contains_key(request.code->0@),
        code_exchange(code_exchange(codes, request, first).1, request, second).0 is Err,
{
}

/// A code issued by the authorization endpoint, exchanged by an
/// authenticated client with one of its registered redirect URIs, grants
/// access on behalf of the user who authorized it.
pub proof fn law_issued_code_redeems(
    codes: CodeEntries,
    params: AuthRequestParams,
    user_id: u128,
    found: Fetched<OAuthClient>,
    code: Seq<char>,
    request: TokenRequest,
    requester: Fetched<OAuthClient>,
)
    requires
        authorization(codes, params, user_id, found, code).0 is Ok,
        request.code matches Some(c) && c@ == code,
        client_check(requester, presented_secret(request)) is Ok,
        request.redirect_uri matches Some(u) && lists(
            client_check(requester, presented_secret(request))->Ok_0.redirect_uris@,
            u@,
        ),
    ensures
        code_exchange(authorization(codes, params, user_id, found, code).1, request, requester).0 matches Ok(g)
            && g.user_id == user_id && g.client_id == request.client_id,
{
}

/// No code is exchanged unless the client is registered, presents its
/// stored secret, and names one of its registered redirect URIs; and the
/// other pending codes stay as they were.
pub proof fn law_exchange_requires_client(
    codes: CodeEntries,
    request: TokenRequest,
    found: Fetched<OAuthClient>,
)
    requires
        code_exchange(codes, request, found).0 is Ok,
    ensures
        found matches Fetched::Found(c) && stored_secret(c) == presented_secret(request)
            && lists(c.redirect_uris@, request.redirect_uri->0@),
        code_exchange(codes, request, found).1 == codes.remove(request.code->0@),
{
}

/// Every pending code is 64 lowercase hexadecimal digits.
pub open spec fn codes_well_formed(codes: CodeEntries) -> bool {
    forall|k: Seq<char>| #[trigger] codes.contains_key(k) ==> k.len() == 64 && is_lower_hex(k)
}

/// Issuing a code of 64 lowercase hexadecimal digits, as `authorize` does,
/// keeps every pending code so; at most that code is added and no other
/// entry changes.
pub proof fn law_authorize_keeps_codes_well_formed(
    codes: CodeEntries,
    params: AuthRequestParams,
    user_id: u128,
    found: Fetched<OAuthClient>,
    code: Seq<char>,
)
    requires
        codes_well_formed(codes),
        code.len() == 64,
        is_lower_hex(code),
    ensures
        codes_well_formed(authorization(codes, params, user_id, found, code).1),
        forall|k: Seq<char>| #[trigger] codes.contains_key(k) && k != code ==> authorization(codes, params, user_id, found, code).1.contains_key(k)
            && authorization(codes, params, user_id, found, code).1[k] == codes[k],
        forall|k: Seq<char>| #[trigger] authorization(codes, params, user_id, found, code).1.contains_key(k) ==> codes.contains_key(k) || k == code,
{
}

/// Exchanging a code keeps every pending code well formed.
pub proof fn law_exchange_keeps_codes_well_formed(
    codes: CodeEntries,
    request: TokenRequest,
    found: Fetched<OAuthClient>,
)
    requires
        codes_well_formed(codes),
    ensures
        codes_well_formed(code_exchange(codes, request, found).1),
{
}

/// A refused token request leaves every pending code in place.
pub proof fn law_refused_exchange_keeps_codes(
    codes: CodeEntries,
    request: TokenRequest,
    found: Fetched<OAuthClient>,
)
    requires
        code_exchange(codes, request, found).0 is Err,
    ensures
        code_exchange(codes, request, found).1 == codes,
{
}

/// The authorization endpoint issues a code only for a registered client
/// and one of its redirect URIs; otherwise no code is recorded. The code it
/// records stands for the signed-in user and the requesting client.
pub proof fn law_authorize_requires_registered_redirect(
    codes: CodeEntries,
    params: AuthRequestParams,
    user_id: u128,
    found: Fetched<OAuthClient>,
    code: Seq<char>,
)
    ensures
        authorization(codes, params, user_id, found, code).0 is Ok <==> accepts_redirect(found, params),
        !accepts_redirect(found, params) ==> authorization(codes, params, user_id, found, code).1 == codes,
        accepts_redirect(found, params) ==> authorization(codes, params, user_id, found, code).1[code] == (
            user_id,
            params.client_id@,
            None::<i64>,
        ),
{
}

/// A refresh token redeemed by the client it was issued to, no later than
/// three minutes after issue, grants access again to the same user and
/// client, and its session entry is discarded so that it cannot be
/// redeemed twice.
pub proof fn law_refresh_token_redeems(
    i: Issuance,
    grant: Grant,
    now: i64,
    token: Seq<char>,
    secret: Seq<u8>,
    request: TokenRequest,
    client: OAuthClient,
    later: i64,
)
    requires
        can_expire(now),
        issued(i, grant, now, token, secret),
        request.client_id@ == grant.client_id@,
        later <= now + REFRESH_TOKEN_SECONDS,
    ensures
        redemption(request, client, Some(i.refresh_entry), later).0,
        redemption(request, client, Some(i.refresh_entry), later).1 matches Ok(g) && g.user_id
            == grant.user_id && g.client_id@ == grant.client_id@ && g.scopes == client.scopes,
{
}

/// A refresh token presented more than three minutes after issue is
/// refused as expired, and its session entry is discarded.
pub proof fn law_refresh_token_expires(
    i: Issuance,
    grant: Grant,
    now: i64,
    token: Seq<char>,
    secret: Seq<u8>,
    request: TokenRequest,
    client: OAuthClient,
    later: i64,
)
    requires
        can_expire(now),
        issued(i, grant, now, token, secret),
        later > now + REFRESH_TOKEN_SECONDS,
    ensures
        redemption(request, client, Some(i.refresh_entry), later) == (
            true,
            Err::<Grant, crate::model::Reply>(unauthorized(Notice::RefreshTokenExpired)),
        ),
{
}

/// A refresh token presented by another client than the one it was issued
/// to is refused, and its session entry is discarded all the same.
pub proof fn law_refresh_token_bound_to_client(
    i: Issuance,
    grant: Grant,
    now: i64,
    token: Seq<char>,
    secret: Seq<u8>,
    request: TokenRequest,
    client: OAuthClient,
    later: i64,
)
    requires
        can_expire(now),
        issued(i, grant, now, token, secret),
        request.client_id@ != grant.client_id@,
        later <= now + REFRESH_TOKEN_SECONDS,
    ensures
        redemption(request, client, Some(i.refresh_entry), later) == (
            true,
            Err::<Grant, crate::model::Reply>(unauthorized(Notice::ClientMismatch)),
        ),
{
}

/// An access token expires one hour after it is issued.
pub proof fn law_access_token_lifetime(claims: Claims, user_id: u128, client_id: Seq<char>, now: i64)
    requires
        claims_for(claims, user_id, client_id, now),
        0 <= now,
        now + ACCESS_TOKEN_SECONDS <= usize::MAX,
    ensures
        claims.exp == claims.iat + 3600,
{
}

/// The refresh-token entries of a session: each key's text and the view of
/// the entry stored under it.
pub type SessionEntries = Map<Seq<char>, (u128, Seq<char>, Option<i64>)>;

/// The session after the token endpoint has redeemed the entry under `key`
/// and, when that granted access, handed out `issuance`: the redeemed entry
/// is discarded when the redemption says so, and the new refresh entry is
/// stored under its key.
pub open spec fn session_after_refresh(
    session: SessionEntries,
    key: Seq<char>,
    discard: bool,
    issuance: Option<Issuance>,
) -> SessionEntries {
    let kept = if discard {
        session.remove(key)
    } else {
        session
    };
    match issuance {
        Some(i) => kept.insert(i.refresh_key@, i.refresh_entry@),
        None => kept,
    }
}

/// Refresh tokens rotate: redeeming one that grants access discards its
/// entry and stores a new one for the same user and client, expiring three
/// minutes after issue; presenting the old token again then finds no entry
/// and is refused as `401 Invalid refresh token`.
pub proof fn law_refresh_token_rotates(
    session: SessionEntries,
    token: Seq<char>,
    entry: OAuthSession,
    request: TokenRequest,
    client: OAuthClient,
    now: i64,
    i: Issuance,
    new_token: Seq<char>,
    secret: Seq<u8>,
    again: TokenRequest,
    client_again: OAuthClient,
    later: i64,
)
    requires
        session.contains_key(refresh_key_of(token)),
        session[refresh_key_of(token)] == entry@,
        entry.expires_at is Some,
        redemption(request, client, Some(entry), now).1 is Ok,
        can_expire(now),
        issued(i, redemption(request, client, Some(entry), now).1->Ok_0, now, new_token, secret),
        new_token != token,
    ensures
        redemption(request, client, Some(entry), now).0,
        !session_after_refresh(session, refresh_key_of(token), true, Some(i)).contains_key(
            refresh_key_of(token),
        ),
        session_after_refresh(session, refresh_key_of(token), true, Some(i)).contains_key(
            refresh_key_of(new_token),
        ),
        session_after_refresh(session, refresh_key_of(token), true, Some(i))[refresh_key_of(new_token)]
            == (entry.user_id, entry.client_id@, Some((now + REFRESH_TOKEN_SECONDS) as i64)),
        redemption(again, client_again, None, later) == (
            false,
            Err::<Grant, crate::model::Reply>(unauthorized(Notice::InvalidRefreshToken)),
        ),
{
    assert(refresh_key_of(new_token) != refresh_key_of(token)) by {
        if refresh_key_of(new_token) == refresh_key_of(token) {
            let p = "refresh_token:"@;
            assert(new_token =~= refresh_key_of(new_token).subrange(p.len() as int, refresh_key_of(new_token).len() as int));
            assert(token =~= refresh_key_of(token).subrange(p.len() as int, refresh_key_of(token).len() as int));
        }
    }
}

/// A parked authorization request is resumed at most once: the login that
/// resumes it clears it (`resume_pending` sets `clear_pending` exactly when
/// one is parked) and so takes it out of the session, so the next login finds none
/// and is answered `400 No active Pending OAuth session`.
pub proof fn law_pending_request_resumed_once(pending: Option<AuthRequestParams>)
    requires
        pending is Some,
    ensures
        resume_reply(pending) is Ok,
        pending_after_resume(pending, pending is Some) is None,
        resume_reply(pending_after_resume(pending, pending is Some)) == Err::<Seq<char>, (Status, Notice)>(
            (Status::BadRequest, Notice::NoPendingSession),
        ),
{
}

/// A registered client that presents exactly its stored secret (the empty
/// secret when it has none) is accepted, whatever the secret's length or
/// content; any other secret is refused as `401 Invalid Secret`, and an
/// unknown client or a failed lookup as `401 Invalid Client`.
pub proof fn law_client_accepted_by_its_secret(client: OAuthClient, secret: Seq<char>)
    ensures
        (client.client_secret_hash matches Some(s) && s@ == secret) ==> client_check(
            Fetched::Found(client),
            secret,
        ) == Ok::<OAuthClient, crate::model::Reply>(client),
        (client.client_secret_hash is None && secret.len() == 0) ==> client_check(
            Fetched::Found(client),
            secret,
        ) == Ok::<OAuthClient, crate::model::Reply>(client),
        (client.client_secret_hash matches Some(s) && s@ != secret) ==> client_check(
            Fetched::Found(client),
            secret,
        ) == Err::<OAuthClient, crate::model::Reply>(unauthorized(Notice::InvalidSecret)),
        (client.client_secret_hash is None && secret.len() != 0) ==> client_check(
            Fetched::Found(client),
            secret,
        ) == Err::<OAuthClient, crate::model::Reply>(unauthorized(Notice::InvalidSecret)),
        client_check(Fetched::NotFound, secret) == Err::<OAuthClient, crate::model::Reply>(
            unauthorized(Notice::InvalidClient),
        ),
        client_check(Fetched::Failed, secret) == Err::<OAuthClient, crate::model::Reply>(
            unauthorized(Notice::InvalidClient),
        ),
{
    if client.client_secret_hash is None && secret.len() == 0 {
        assert(secret =~= Seq::<char>::empty());
    }
}

/// An accepted authorization request is sent back to the redirect URI it
/// asked for (one the client registered), with the recorded code and the
/// request's state appended as `?code=<code>&state=<state>`; the code is
/// recorded for the signed-in user and the requesting client, and nothing
/// else in the store changes.
pub proof fn law_authorize_redirects_to_requested_uri(
    codes: CodeEntries,
    params: AuthRequestParams,
    user_id: u128,
    client: OAuthClient,
    code: Seq<char>,
)
    requires
        exists|i: int| 0 <= i < client.redirect_uris@.len() && (#[trigger] client.redirect_uris@[i])@ == params.redirect_uri@,
    ensures
        authorization(codes, params, user_id, Fetched::Found(client), code).0 == Ok::<
            Seq<char>,
            (crate::model::Status, Notice),
        >(params.redirect_uri@ + "?code="@ + code + "&state="@ + params.state@),
        authorization(codes, params, user_id, Fetched::Found(client), code).1 == codes.insert(
            code,
            (user_id, params.client_id@, None::<i64>),
        ),
{
}

} // verus!
