use oci_client_js::auth::{
    anonymous_auth, basic_auth, bearer_auth, AuthError, Credentials, RegistryAuth,
    RegistryAuthType,
};

#[test]
fn helpers_convert_to_their_credentials() {
    assert_eq!(anonymous_auth().to_native(), Ok(Credentials::Anonymous));
    assert_eq!(
        basic_auth("user".to_string(), "secret".to_string()).to_native(),
        Ok(Credentials::Basic("user".to_string(), "secret".to_string()))
    );
    assert_eq!(
        bearer_auth("tok".to_string()).to_native(),
        Ok(Credentials::Bearer("tok".to_string()))
    );
}

#[test]
fn helpers_fill_only_their_fields() {
    let a = anonymous_auth();
    assert_eq!(a.auth_type, RegistryAuthType::Anonymous);
    assert!(a.username.is_none() && a.password.is_none() && a.token.is_none());
    let b = basic_auth("u".to_string(), "p".to_string());
    assert_eq!(b.auth_type, RegistryAuthType::Basic);
    assert_eq!(b.username.as_deref(), Some("u"));
    assert_eq!(b.password.as_deref(), Some("p"));
    assert!(b.token.is_none());
    let t = bearer_auth("t".to_string());
    assert_eq!(t.auth_type, RegistryAuthType::Bearer);
    assert_eq!(t.token.as_deref(), Some("t"));
    assert!(t.username.is_none() && t.password.is_none());
}

#[test]
fn missing_fields_are_refused() {
    let no_user = RegistryAuth {
        auth_type: RegistryAuthType::Basic,
        username: None,
        password: None,
        token: Some("ignored".to_string()),
    };
    assert_eq!(no_user.to_native(), Err(AuthError::MissingUsername));
    let no_password = RegistryAuth {
        auth_type: RegistryAuthType::Basic,
        username: Some("u".to_string()),
        password: None,
        token: None,
    };
    assert_eq!(no_password.to_native(), Err(AuthError::MissingPassword));
    let no_token = RegistryAuth {
        auth_type: RegistryAuthType::Bearer,
        username: Some("u".to_string()),
        password: Some("p".to_string()),
        token: None,
    };
    assert_eq!(no_token.to_native(), Err(AuthError::MissingToken));
}

#[test]
fn unused_fields_do_not_matter() {
    let anonymous = RegistryAuth {
        auth_type: RegistryAuthType::Anonymous,
        username: Some("u".to_string()),
        password: None,
        token: Some("t".to_string()),
    };
    assert_eq!(anonymous.to_native(), Ok(Credentials::Anonymous));
}

#[test]
fn refusal_texts() {
    assert_eq!(AuthError::MissingUsername.reason(), "username required for Basic auth");
    assert_eq!(AuthError::MissingPassword.reason(), "password required for Basic auth");
    assert_eq!(AuthError::MissingToken.reason(), "token required for Bearer auth");
}
