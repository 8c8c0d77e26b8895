//! Registry credentials: how the bindings describe them and the credentials
//! that the outside client takes.

use vstd::prelude::*;

verus! {

/// Authentication method for registry access.
#[derive(Clone, Copy, Debug, PartialEq, Eq, Structural)]
pub enum RegistryAuthType {
    /// Access the registry anonymously
    Anonymous,
    /// Access the registry using HTTP Basic authentication
    Basic,
    /// Access the registry using Bearer token authentication
    Bearer,
}

/// Registry authentication configuration; `auth_type` selects the method and
/// which of the other fields it needs.
#[derive(Debug, Clone, PartialEq)]
pub struct RegistryAuth {
    pub auth_type: RegistryAuthType,
    /// Username for Basic auth (required when `auth_type` is `Basic`)
    pub username: Option<String>,
    /// Password for Basic auth (required when `auth_type` is `Basic`)
    pub password: Option<String>,
    /// Token for Bearer auth (required when `auth_type` is `Bearer`)
    pub token: Option<String>,
}

/// The credentials that the outside client takes, as plain values.
#[derive(Debug, Clone, PartialEq)]
pub enum Credentials {
    Anonymous,
    Basic(String, String),
    Bearer(String),
}

/// The characters of `Credentials`.
pub enum CredentialsView {
    Anonymous,
    Basic(Seq<char>, Seq<char>),
    Bearer(Seq<char>),
}

impl View for Credentials {
    type V = CredentialsView;

    open spec fn view(&self) -> CredentialsView {
        match self {
            Credentials::Anonymous => CredentialsView::Anonymous,
            Credentials::Basic(u, p) => CredentialsView::Basic(u@, p@),
            Credentials::Bearer(t) => CredentialsView::Bearer(t@),
        }
    }
}

/// A field that the chosen method needs is missing.
#[derive(Clone, Copy, Debug, PartialEq, Eq, Structural)]
pub enum AuthError {
    MissingUsername,
    MissingPassword,
    MissingToken,
}

pub open spec fn auth_error_text(e: AuthError) -> Seq<char> {
    match e {
        AuthError::MissingUsername => seq![
            'u', 's', 'e', 'r', 'n', 'a', 'm', 'e', ' ', 'r', 'e', 'q', 'u', 'i', 'r', 'e', 'd',
            ' ', 'f', 'o', 'r', ' ', 'B', 'a', 's', 'i', 'c', ' ', 'a', 'u', 't', 'h',
        ],
        AuthError::MissingPassword => seq![
            'p', 'a', 's', 's', 'w', 'o', 'r', 'd', ' ', 'r', 'e', 'q', 'u', 'i', 'r', 'e', 'd',
            ' ', 'f', 'o', 'r', ' ', 'B', 'a', 's', 'i', 'c', ' ', 'a', 'u', 't', 'h',
        ],
        AuthError::MissingToken => seq![
            't', 'o', 'k', 'e', 'n', ' ', 'r', 'e', 'q', 'u', 'i', 'r', 'e', 'd', ' ', 'f', 'o',
            'r', ' ', 'B', 'e', 'a', 'r', 'e', 'r', ' ', 'a', 'u', 't', 'h',
        ],
    }
}

impl AuthError {
    /// The text of the error that the bindings throw.
    pub fn reason(&self) -> (r: String)
        ensures
            r@ == auth_error_text(*self),
    {
        match self {
            AuthError::MissingUsername => {
                let t = "username required for Basic auth";
                proof {
                    reveal_strlit("username required for Basic auth");
                    assert(t@ =~= auth_error_text(*self));
                }
                String::from_str(t)
            },
            AuthError::MissingPassword => {
                let t = "password required for Basic auth";
                proof {
                    reveal_strlit("password required for Basic auth");
                    assert(t@ =~= auth_error_text(*self));
                }
                String::from_str(t)
            },
            AuthError::MissingToken => {
                let t = "token required for Bearer auth";
                proof {
                    reveal_strlit("token required for Bearer auth");
                    assert(t@ =~= auth_error_text(*self));
                }
                String::from_str(t)
            },
        }
    }
}

/// The credentials that `auth` describes: anonymous access needs nothing,
/// Basic needs a username and then a password, Bearer needs a token.
pub open spec fn spec_credentials(auth: RegistryAuth) -> Result<CredentialsView, AuthError> {
    match auth.auth_type {
        RegistryAuthType::Anonymous => Ok(CredentialsView::Anonymous),
        RegistryAuthType::Basic => match (auth.username, auth.password) {
            (None, _) => Err(AuthError::MissingUsername),
            (Some(_), None) => Err(AuthError::MissingPassword),
            (Some(u), Some(p)) => Ok(CredentialsView::Basic(u@, p@)),
        },
        RegistryAuthType::Bearer => match auth.token {
            None => Err(AuthError::MissingToken),
            Some(t) => Ok(CredentialsView::Bearer(t@)),
        },
    }
}

impl RegistryAuth {
    /// The credentials for the outside client (see `spec_credentials`).
    pub fn to_native(&self) -> (r: Result<Credentials, AuthError>)
        ensures
            match r {
                Ok(c) => spec_credentials(*self) == Ok::<CredentialsView, AuthError>(c@),
                Err(e) => spec_credentials(*self) == Err::<CredentialsView, AuthError>(e),
            },
            r matches Ok(Credentials::Basic(u, p)) ==> self.auth_type == RegistryAuthType::Basic
                && (self.username matches Some(x) && x@ == u@) && (self.password matches Some(y)
                && y@ == p@),
            r matches Ok(Credentials::Bearer(t)) ==> self.auth_type == RegistryAuthType::Bearer
                && (self.token matches Some(x) && x@ == t@),
            r matches Ok(Credentials::Anonymous) ==> self.auth_type == RegistryAuthType::Anonymous,
            self.auth_type == RegistryAuthType::Basic && self.username is None ==> r == Err::<
                Credentials,
                AuthError,
            >(AuthError::MissingUsername),
            self.auth_type == RegistryAuthType::Basic && self.username is Some
                && self.password is None ==> r == Err::<Credentials, AuthError>(
                AuthError::MissingPassword,
            ),
            self.auth_type == RegistryAuthType::Bearer && self.token is None ==> r == Err::<
                Credentials,
                AuthError,
            >(AuthError::MissingToken),
    {
        proof {
            law_credentials_come_from_present_fields(*self);
        }
        match self.auth_type {
            RegistryAuthType::Anonymous => Ok(Credentials::Anonymous),
            RegistryAuthType::Basic => {
                let username = match &self.username {
                    Some(u) => u.clone(),
                    None => {
                        return Err(AuthError::MissingUsername);
                    },
                };
                let password = match &self.password {
                    Some(p) => p.clone(),
                    None => {
                        return Err(AuthError::MissingPassword);
                    },
                };
                Ok(Credentials::Basic(username, password))
            },
            RegistryAuthType::Bearer => {
                let token = match &self.token {
                    Some(t) => t.clone(),
                    None => {
                        return Err(AuthError::MissingToken);
                    },
                };
                Ok(Credentials::Bearer(token))
            },
        }
    }
}

pub open spec fn spec_anonymous_auth() -> RegistryAuth {
    RegistryAuth {
        auth_type: RegistryAuthType::Anonymous,
        username: None,
        password: None,
        token: None,
    }
}

pub open spec fn spec_basic_auth(username: String, password: String) -> RegistryAuth {
    RegistryAuth {
        auth_type: RegistryAuthType::Basic,
        username: Some(username),
        password: Some(password),
        token: None,
    }
}

pub open spec fn spec_bearer_auth(token: String) -> RegistryAuth {
    RegistryAuth {
        auth_type: RegistryAuthType::Bearer,
        username: None,
        password: None,
        token: Some(token),
    }
}

/// Create an anonymous authentication object.
pub fn anonymous_auth() -> (r: RegistryAuth)
    ensures
        r == spec_anonymous_auth(),
{
    RegistryAuth { auth_type: RegistryAuthType::Anonymous, username: None, password: None, token: None }
}

/// Create a basic authentication object.
pub fn basic_auth(username: String, password: String) -> (r: RegistryAuth)
    ensures
        r == spec_basic_auth(username, password),
{
    RegistryAuth {
        auth_type: RegistryAuthType::Basic,
        username: Some(username),
        password: Some(password),
        token: None,
    }
}

/// Create a bearer token authentication object.
pub fn bearer_auth(token: String) -> (r: RegistryAuth)
    ensures
        r == spec_bearer_auth(token),
{
    RegistryAuth { auth_type: RegistryAuthType::Bearer, username: None, password: None, token: Some(token) }
}

/// Credentials are made only of fields that are present: Basic credentials
/// carry exactly the given username and password, Bearer credentials exactly
/// the given token, and anonymous access only comes from the anonymous type.
/// A Basic description without a username is refused for its username (even
/// when a password is given), one with a username but no password for its
/// password, and a Bearer description without a token for its token.
pub proof fn law_credentials_come_from_present_fields(a: RegistryAuth)
    ensures
        spec_credentials(a) matches Ok(CredentialsView::Basic(u, p)) ==> a.auth_type
            == RegistryAuthType::Basic && (a.username matches Some(x) && x@ == u) && (
        a.password matches Some(y) && y@ == p),
        spec_credentials(a) matches Ok(CredentialsView::Bearer(t)) ==> a.auth_type
            == RegistryAuthType::Bearer && (a.token matches Some(x) && x@ == t),
        spec_credentials(a) matches Ok(CredentialsView::Anonymous) ==> a.auth_type
            == RegistryAuthType::Anonymous,
        a.auth_type == RegistryAuthType::Basic && a.username is None ==> spec_credentials(a)
            == Err::<CredentialsView, AuthError>(AuthError::MissingUsername),
        a.auth_type == RegistryAuthType::Basic && a.username is Some && a.password is None
            ==> spec_credentials(a) == Err::<CredentialsView, AuthError>(
            AuthError::MissingPassword,
        ),
        a.auth_type == RegistryAuthType::Bearer && a.token is None ==> spec_credentials(a) == Err::<
            CredentialsView,
            AuthError,
        >(AuthError::MissingToken),
{
}

/// What each helper makes converts to the credentials it names: anonymous
/// access, Basic with the given username and password, Bearer with the given
/// token; none of them is refused.
pub proof fn law_helpers_convert(username: String, password: String, token: String)
    ensures
        spec_credentials(spec_anonymous_auth()) == Ok::<CredentialsView, AuthError>(
            CredentialsView::Anonymous,
        ),
        spec_credentials(spec_basic_auth(username, password)) == Ok::<CredentialsView, AuthError>(
            CredentialsView::Basic(username@, password@),
        ),
        spec_credentials(spec_bearer_auth(token)) == Ok::<CredentialsView, AuthError>(
            CredentialsView::Bearer(token@),
        ),
{
}

/// Conversion fails exactly when the chosen method lacks a field it needs,
/// and then names the first missing one; fields that the method does not use
/// never matter.
pub proof fn law_credentials_need_only_their_fields(a: RegistryAuth, b: RegistryAuth)
    requires
        a.auth_type == b.auth_type,
        a.auth_type == RegistryAuthType::Basic ==> a.username == b.username && a.password
            == b.password,
        a.auth_type == RegistryAuthType::Bearer ==> a.token == b.token,
    ensures
        spec_credentials(a) == spec_credentials(b),
{
}

} // verus!
