//! The authorization endpoint and the login form that precedes it.

use vstd::prelude::*;
use crate::client::{contains_text, lists};
use crate::codes::generate_auth_code;
use crate::model::{AuthRequestParams, Fetched, Notice, OAuthClient, OAuthSession, Reply, Status, User};
use crate::password::{phc_verifies, verify_user_password};
use crate::store::{AuthCodeStore, CodeEntries};
use crate::text::is_lower_hex;

verus! {

/// Whether a reply redirects to this location.
pub open spec fn redirects_to(reply: Reply, location: Seq<char>) -> bool {
    reply matches Reply::Redirect(to) && to@ == location
}

/// Whether a reply is the one that a spec outcome describes: a redirect to
/// a location, or an error status with its message.
pub open spec fn answers(reply: Reply, outcome: Result<Seq<char>, (Status, Notice)>) -> bool {
    match outcome {
        Ok(location) => redirects_to(reply, location),
        Err((status, notice)) => reply == Reply::Error(status, notice),
    }
}

/// What the authorization endpoint does first, given the user signed in to
/// the session, if any.
pub enum AuthorizeGate {
    /// Go on with the request on behalf of this user.
    SignedIn(u128),
    /// Keep the request parameters in the session under `pending_auth`, and
    /// answer with this reply.
    SignInFirst(Reply),
}

/// The login page.
pub open spec fn login_location() -> Seq<char> {
    "/auth/login"@
}

/// A request from a session with no signed-in user is parked and the user
/// is sent to the login page.
pub fn authorize_gate(user_id: Option<u128>) -> (gate: AuthorizeGate)
    ensures
        user_id matches Some(u) ==> gate == AuthorizeGate::SignedIn(u),
        user_id is None ==> (gate matches AuthorizeGate::SignInFirst(r) && redirects_to(r, login_location())),
{
    match user_id {
        Some(u) => AuthorizeGate::SignedIn(u),
        None => AuthorizeGate::SignInFirst(Reply::Redirect(String::from_str("/auth/login"))),
    }
}

/// Where the user agent is sent back to with a fresh code.
pub open spec fn code_location(params: AuthRequestParams, code: Seq<char>) -> Seq<char> {
    params.redirect_uri@ + "?code="@ + code + "&state="@ + params.state@
}

/// Whether a lookup found a client that registered the requested redirect URI.
pub open spec fn accepts_redirect(found: Fetched<OAuthClient>, params: AuthRequestParams) -> bool {
    found matches Fetched::Found(c) && lists(c.redirect_uris@, params.redirect_uri@)
}

/// The authorization endpoint for a signed-in user, given the result of
/// looking the client up and the code to issue: an unknown client is
/// `404 Error: Client not found`, a failed lookup `500 Error: Failed to
/// fetch client`, a redirect URI the client did not register `400 Invalid
/// redirect url`. Otherwise the code is recorded for the user and the client
/// and the user agent is sent to the redirect URI with the code and state.
pub open spec fn authorization(
    codes: CodeEntries,
    params: AuthRequestParams,
    user_id: u128,
    found: Fetched<OAuthClient>,
    code: Seq<char>,
) -> (Result<Seq<char>, (Status, Notice)>, CodeEntries) {
    match found {
        Fetched::Found(client) => {
            if !lists(client.redirect_uris@, params.redirect_uri@) {
                (Err((Status::BadRequest, Notice::UnregisteredRedirectUrl)), codes)
            } else {
                (
                    Ok(code_location(params, code)),
                    codes.insert(code, (user_id, params.client_id@, None)),
                )
            }
        },
        Fetched::NotFound => (Err((Status::NotFound, Notice::ClientNotFound)), codes),
        Fetched::Failed => (Err((Status::InternalServerError, Notice::ClientFetchFailed)), codes),
    }
}

/// The authorization endpoint with a given code to issue; see `authorization`.
pub fn authorize_with_code(
    codes: &mut AuthCodeStore,
    params: &AuthRequestParams,
    user_id: u128,
    found: Fetched<OAuthClient>,
    code: String,
) -> (reply: Reply)
    ensures
        answers(reply, authorization(old(codes)@, *params, user_id, found, code@).0),
        final(codes)@ == authorization(old(codes)@, *params, user_id, found, code@).1,
        accepts_redirect(found, *params) ==> {
            &&& reply matches Reply::Redirect(to) && to@ == params.redirect_uri@ + "?code="@ + code@
                + "&state="@ + params.state@
            &&& final(codes)@ == old(codes)@.insert(code@, (user_id, params.client_id@, None))
        },
        !accepts_redirect(found, *params) ==> final(codes)@ == old(codes)@ && reply is Error,
{
    match found {
        Fetched::Found(client) => {
            if !contains_text(&client.redirect_uris, params.redirect_uri.as_str()) {
                return Reply::Error(Status::BadRequest, Notice::UnregisteredRedirectUrl);
            }
            let mut location = params.redirect_uri.clone();
            location.append("?code=");
            location.append(code.as_str());
            location.append("&state=");
            location.append(params.state.as_str());
            let grant = OAuthSession {
                user_id,
                client_id: params.client_id.clone(),
                expires_at: None,
            };
            codes.insert(code, grant);
            Reply::Redirect(location)
        },
        Fetched::NotFound => Reply::Error(Status::NotFound, Notice::ClientNotFound),
        Fetched::Failed => Reply::Error(Status::InternalServerError, Notice::ClientFetchFailed),
    }
}

/// The authorization endpoint for a signed-in user; a code is drawn at
/// random only when the request is accepted. There is no reply only when
/// the request is accepted and the random source fails; nothing is recorded
/// then.
pub fn authorize(
    codes: &mut AuthCodeStore,
    params: &AuthRequestParams,
    user_id: u128,
    found: Fetched<OAuthClient>,
) -> (res: Option<Reply>)
    ensures
        !accepts_redirect(found, *params) ==> res is Some,
        res is None ==> final(codes)@ == old(codes)@,
        res matches Some(reply) ==> exists|code: Seq<char>|
            {
                &&& code.len() == 64
                &&& is_lower_hex(code)
                &&& answers(reply, #[trigger] authorization(old(codes)@, *params, user_id, found, code).0)
                &&& final(codes)@ == authorization(old(codes)@, *params, user_id, found, code).1
            },
{
    let accepted = match &found {
        Fetched::Found(client) => contains_text(&client.redirect_uris, params.redirect_uri.as_str()),
        _ => false,
    };
    if accepted {
        match generate_auth_code() {
            Some(code) => Some(authorize_with_code(codes, params, user_id, found, code)),
            None => None,
        }
    } else {
        let ghost before = codes@;
        let reply = authorize_with_code(codes, params, user_id, found, String::new());
        proof {
            let witness = Seq::new(64, |i: int| '0');
            assert(witness[0] == '0');
            assert(is_lower_hex(witness)) by {
                assert forall|i: int| 0 <= i < witness.len() implies crate::text::hex_alphabet().contains(
                    #[trigger] witness[i],
                ) by {
                    assert(crate::text::hex_alphabet()[0] == '0');
                }
            }
            assert(authorization(before, *params, user_id, found, witness) == authorization(
                before,
                *params,
                user_id,
                found,
                Seq::empty(),
            ));
        }
        Some(reply)
    }
}

/// Where a failed login sends the user agent.
pub open spec fn login_error_location() -> Seq<char> {
    "/auth/login?error=Invalid+email+or+password"@
}

/// The reply to a login that fails, whatever the reason.
pub fn invalid_login() -> (reply: Reply)
    ensures
        redirects_to(reply, login_error_location()),
{
    Reply::Redirect(String::from_str("/auth/login?error=Invalid+email+or+password"))
}

/// Checks a login given the result of looking the email up: the account
/// must exist and the password must verify against its hash. Any failure
/// sends the user back to the login page with the same error, so that it
/// does not tell which check failed.
pub fn check_login(found: Fetched<User>, password: &str) -> (res: Result<u128, Reply>)
    ensures
        (found matches Fetched::Found(u) && phc_verifies(password@, u.password_hash@)) ==> res
            == Ok::<u128, Reply>(found->Found_0.id),
        !(found matches Fetched::Found(u) && phc_verifies(password@, u.password_hash@)) ==> (res
            matches Err(r) && redirects_to(r, login_error_location())),
{
    match found {
        Fetched::Found(user) => {
            if verify_user_password(password, user.password_hash.as_str()) {
                Ok(user.id)
            } else {
                Err(invalid_login())
            }
        },
        _ => Err(invalid_login()),
    }
}

/// Where a login resumes a parked authorization request. The values are
/// placed as they are, without percent-encoding, and `code_challenge` is
/// not carried.
pub open spec fn resume_location(params: AuthRequestParams) -> Seq<char> {
    "/auth/authorize?client_id="@ + params.client_id@ + "&redirect_uri="@ + params.redirect_uri@
        + "&response_type="@ + params.response_type@ + "&state="@ + params.state@
}

/// What a login resumes: the authorize URL of the parked request, or
/// `400 No active Pending OAuth session` when none is parked.
pub open spec fn resume_reply(pending: Option<AuthRequestParams>) -> Result<Seq<char>, (Status, Notice)> {
    match pending {
        Some(p) => Ok(resume_location(p)),
        None => Err((Status::BadRequest, Notice::NoPendingSession)),
    }
}

/// The parked request in the session after a login that resumed with
/// `clear_pending` as given: taken out when cleared, kept otherwise.
pub open spec fn pending_after_resume(pending: Option<AuthRequestParams>, clear_pending: bool) -> Option<
    AuthRequestParams,
> {
    if clear_pending {
        None
    } else {
        pending
    }
}

/// What a successful login does next.
pub struct Resume {
    /// Whether to remove `pending_auth` from the session.
    pub clear_pending: bool,
    pub reply: Reply,
}

/// After a successful login, the parked authorization request, if any, is
/// taken out of the session and resumed; with none the reply is
/// `400 No active Pending OAuth session`.
pub fn resume_pending(pending: Option<AuthRequestParams>) -> (res: Resume)
    ensures
        res.clear_pending == pending is Some,
        answers(res.reply, resume_reply(pending)),
        pending is Some ==> res.clear_pending && redirects_to(res.reply, resume_location(pending->0)),
        pending is None ==> !res.clear_pending && res.reply == Reply::Error(
            Status::BadRequest,
            Notice::NoPendingSession,
        ),
{
    match pending {
        Some(p) => {
            let mut location = String::from_str("/auth/authorize?client_id=");
            location.append(p.client_id.as_str());
            location.append("&redirect_uri=");
            location.append(p.redirect_uri.as_str());
            location.append("&response_type=");
            location.append(p.response_type.as_str());
            location.append("&state=");
            location.append(p.state.as_str());
            Resume { clear_pending: true, reply: Reply::Redirect(location) }
        },
        None => Resume {
            clear_pending: false,
            reply: Reply::Error(Status::BadRequest, Notice::NoPendingSession),
        },
    }
}

} // verus!
