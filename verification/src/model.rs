//! The records that the endpoints read and answer with.

use vstd::prelude::*;

verus! {

/// A registered OAuth client, as stored in the `oauth_clients` table.
pub struct OAuthClient {
    pub client_id: String,
    /// The client's secret, compared verbatim with the one a token request
    /// presents; a client without one is matched by the empty secret.
    pub client_secret_hash: Option<String>,
    pub redirect_uris: Vec<String>,
    pub scopes: Vec<String>,
}

/// A user account, as stored in the `users` table.
pub struct User {
    /// The account's UUID, as its big-endian 128-bit value.
    pub id: u128,
    pub email: String,
    /// The PHC string of the account's Argon2 password hash.
    pub password_hash: String,
    pub first_name: String,
    pub last_name: String,
}

/// The body of a registration request.
pub struct RegisterUserDto {
    pub email: String,
    pub password: String,
    pub first_name: String,
    pub last_name: String,
}

/// What an authorization code or a refresh token stands for: the user who
/// granted access and the client it was granted to.
pub struct OAuthSession {
    /// The user's UUID, as its big-endian 128-bit value.
    pub user_id: u128,
    pub client_id: String,
    /// Unix time in seconds after which the grant is void; authorization
    /// codes carry none.
    pub expires_at: Option<i64>,
}

impl View for OAuthSession {
    type V = (u128, Seq<char>, Option<i64>);

    open spec fn view(&self) -> (u128, Seq<char>, Option<i64>) {
        (self.user_id, self.client_id@, self.expires_at)
    }
}

/// The query of `GET /auth/authorize`.
pub struct AuthRequestParams {
    pub client_id: String,
    pub redirect_uri: String,
    pub response_type: String,
    pub state: String,
    pub code_challenge: Option<String>,
}

/// The form of `POST /auth/login`.
pub struct LoginDto {
    pub email: String,
    pub password: String,
}

/// The form of `POST /auth/token`.
pub struct TokenRequest {
    pub grant_type: String,
    pub code: Option<String>,
    pub redirect_uri: Option<String>,
    pub client_id: String,
    pub client_secret: Option<String>,
    pub refresh_token: Option<String>,
}

/// The JSON body that answers a successful token request.
pub struct TokenResponse {
    pub access_token: String,
    pub token_type: String,
    pub expires_in: u64,
    pub refresh_token: Option<String>,
    pub scope: Vec<String>,
}

/// The claims signed into an access token.
pub struct Claims {
    /// The user's UUID in hyphenated form.
    pub sub: String,
    /// Expiry, in Unix seconds.
    pub exp: usize,
    /// Issue time, in Unix seconds.
    pub iat: usize,
    pub client_id: String,
    pub permissions: Vec<String>,
}

/// The login page; it has no fields.
pub struct LoginTemplate {}

/// The outcome of a database lookup.
pub enum Fetched<T> {
    Found(T),
    NotFound,
    Failed,
}

/// The HTTP statuses the endpoints answer with.
#[derive(PartialEq, Eq, Structural, Clone, Copy, Debug)]
pub enum Status {
    Created,
    BadRequest,
    Unauthorized,
    NotFound,
    UnprocessableEntity,
    InternalServerError,
}

impl Status {
    pub open spec fn spec_code(self) -> u16 {
        match self {
            Status::Created => 201,
            Status::BadRequest => 400,
            Status::Unauthorized => 401,
            Status::NotFound => 404,
            Status::UnprocessableEntity => 422,
            Status::InternalServerError => 500,
        }
    }

    /// The numeric HTTP status code.
    pub fn code(&self) -> (c: u16)
        ensures
            c == self.spec_code(),
    {
        match self {
            Status::Created => 201,
            Status::BadRequest => 400,
            Status::Unauthorized => 401,
            Status::NotFound => 404,
            Status::UnprocessableEntity => 422,
            Status::InternalServerError => 500,
        }
    }
}

/// The fixed messages that error replies carry.
#[derive(PartialEq, Eq, Structural, Clone, Copy, Debug)]
pub enum Notice {
    InvalidClient,
    InvalidSecret,
    MissingCode,
    MissingRedirectUri,
    UnregisteredRedirectUri,
    UnregisteredRedirectUrl,
    InvalidOrExpiredCode,
    MissingRefreshToken,
    RefreshTokenExpired,
    InvalidRefreshToken,
    ClientMismatch,
    UnsupportedGrantType,
    ClientNotFound,
    ClientFetchFailed,
    NoPendingSession,
    HashingFailed,
    PasswordHashFailed,
    CreateUserFailed,
    TemplateFailed,
}

/// The text of a message.
pub open spec fn notice_text(notice: Notice) -> Seq<char> {
    match notice {
        Notice::InvalidClient => "Invalid Client"@,
        Notice::InvalidSecret => "Invalid Secret"@,
        Notice::MissingCode => "Missing code"@,
        Notice::MissingRedirectUri => "Missing redirect_uri"@,
        Notice::UnregisteredRedirectUri => "Invalid redirect URI"@,
        Notice::UnregisteredRedirectUrl => "Invalid redirect url"@,
        Notice::InvalidOrExpiredCode => "Invalid or expired auth code"@,
        Notice::MissingRefreshToken => "Missing refresh token"@,
        Notice::RefreshTokenExpired => "Refresh token expired"@,
        Notice::InvalidRefreshToken => "Invalid refresh token"@,
        Notice::ClientMismatch => "Client mismatch"@,
        Notice::UnsupportedGrantType => "Unsupported grant type"@,
        Notice::ClientNotFound => "Error: Client not found"@,
        Notice::ClientFetchFailed => "Error: Failed to fetch client"@,
        Notice::NoPendingSession => "No active Pending OAuth session"@,
        Notice::HashingFailed => "Something went wrong"@,
        Notice::PasswordHashFailed => "Failed to hash password"@,
        Notice::CreateUserFailed => "Failed to create user, Please try again"@,
        Notice::TemplateFailed => "Failed to render template"@,
    }
}

impl Notice {
    /// The text of the message.
    pub fn text(&self) -> (s: &'static str)
        ensures
            s@ == notice_text(*self),
    {
        match self {
            Notice::InvalidClient => "Invalid Client",
            Notice::InvalidSecret => "Invalid Secret",
            Notice::MissingCode => "Missing code",
            Notice::MissingRedirectUri => "Missing redirect_uri",
            Notice::UnregisteredRedirectUri => "Invalid redirect URI",
            Notice::UnregisteredRedirectUrl => "Invalid redirect url",
            Notice::InvalidOrExpiredCode => "Invalid or expired auth code",
            Notice::MissingRefreshToken => "Missing refresh token",
            Notice::RefreshTokenExpired => "Refresh token expired",
            Notice::InvalidRefreshToken => "Invalid refresh token",
            Notice::ClientMismatch => "Client mismatch",
            Notice::UnsupportedGrantType => "Unsupported grant type",
            Notice::ClientNotFound => "Error: Client not found",
            Notice::ClientFetchFailed => "Error: Failed to fetch client",
            Notice::NoPendingSession => "No active Pending OAuth session",
            Notice::HashingFailed => "Something went wrong",
            Notice::PasswordHashFailed => "Failed to hash password",
            Notice::CreateUserFailed => "Failed to create user, Please try again",
            Notice::TemplateFailed => "Failed to render template",
        }
    }
}

/// An HTTP reply of one of the endpoints.
pub enum Reply {
    /// `303 See Other` to this location.
    Redirect(String),
    /// A status with one of the fixed messages as its text body.
    Error(Status, Notice),
    /// `201 Created` with this text body.
    Created(String),
    /// `200 OK` with this JSON body.
    Tokens(TokenResponse),
}

} // verus!
