use voynich_term::cli::{
    get_onion_type, AuthArgs, AuthSettings, MissingName, OnionChoice, OnionServiceType, TorAuth,
};

#[test]
fn onion_type_transient() {
    assert_eq!(get_onion_type(OnionServiceType::Transient, None, false), Ok(OnionChoice::Transient));
    let name = "svc".to_string();
    assert_eq!(
        get_onion_type(OnionServiceType::Transient, Some(&name), true),
        Ok(OnionChoice::Transient)
    );
}

#[test]
fn onion_type_persistent_new_and_existing() {
    let name = "svc".to_string();
    assert_eq!(
        get_onion_type(OnionServiceType::Persistent, Some(&name), true),
        Ok(OnionChoice::NewPersistent { name: "svc".to_string() })
    );
    assert_eq!(
        get_onion_type(OnionServiceType::Persistent, Some(&name), false),
        Ok(OnionChoice::ExistingPersistent { name: "svc".to_string() })
    );
}

#[test]
fn onion_type_persistent_without_name() {
    let result = get_onion_type(OnionServiceType::Persistent, None, true);
    assert_eq!(result, Err(MissingName {}));
    assert_eq!(MissingName {}.message(), "Must specify --name with --persistent");
}

#[test]
fn auth_settings_from_the_options() {
    let none = AuthArgs { safe_cookie: None, hashed_password: None };
    assert_eq!(
        none.settings(),
        AuthSettings { authentication: None, cookie: None, hashed_password: None }
    );
    let cookie_file = AuthArgs { safe_cookie: Some(None), hashed_password: None };
    assert_eq!(
        cookie_file.settings(),
        AuthSettings {
            authentication: Some(TorAuth::SafeCookie),
            cookie: None,
            hashed_password: None
        }
    );
    let cookie = AuthArgs { safe_cookie: Some(Some("cök".to_string())), hashed_password: None };
    assert_eq!(
        cookie.settings(),
        AuthSettings {
            authentication: Some(TorAuth::SafeCookie),
            cookie: Some("cök".as_bytes().to_vec()),
            hashed_password: None
        }
    );
    let prompt = AuthArgs { safe_cookie: None, hashed_password: Some(None) };
    assert_eq!(
        prompt.settings(),
        AuthSettings {
            authentication: Some(TorAuth::HashedPassword),
            cookie: None,
            hashed_password: None
        }
    );
    let password = AuthArgs { safe_cookie: None, hashed_password: Some(Some("pw".to_string())) };
    assert_eq!(
        password.settings(),
        AuthSettings {
            authentication: Some(TorAuth::HashedPassword),
            cookie: None,
            hashed_password: Some("pw".to_string())
        }
    );
}
