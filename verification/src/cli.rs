use vstd::prelude::*;
use vstd::string::{StrSliceExecFns, StringExecFns};

verus! {

/// How the program authenticates to the Tor control port, as asked for on
/// the command line. Each option is absent, given without a value, or given
/// with one. At most one of the two is given.
#[derive(Debug)]
pub struct AuthArgs {
    pub safe_cookie: Option<Option<String>>,
    pub hashed_password: Option<Option<String>>,
}

/// The kind of onion service asked for on the command line.
#[derive(Clone, Copy, Debug, PartialEq, Eq, Structural)]
pub enum OnionServiceType {
    Transient,
    Persistent,
}

/// A way to authenticate to the Tor control port.
#[derive(Clone, Copy, Debug, PartialEq, Eq, Structural)]
pub enum TorAuth {
    SafeCookie,
    HashedPassword,
}

/// What the command line settles of the authentication: the way, and the
/// cookie's bytes or the password where one was given.
#[derive(Debug, PartialEq, Eq)]
pub struct AuthSettings {
    pub authentication: Option<TorAuth>,
    pub cookie: Option<Vec<u8>>,
    pub hashed_password: Option<String>,
}

pub struct AuthSettingsView {
    pub authentication: Option<TorAuth>,
    pub cookie: Option<Seq<u8>>,
    pub hashed_password: Option<Seq<char>>,
}

impl View for AuthSettings {
    type V = AuthSettingsView;

    open spec fn view(&self) -> AuthSettingsView {
        AuthSettingsView {
            authentication: self.authentication,
            cookie: match self.cookie {
                Some(cookie) => Some(cookie@),
                None => None,
            },
            hashed_password: match self.hashed_password {
                Some(password) => Some(password@),
                None => None,
            },
        }
    }
}

/// The onion service to bring up.
#[derive(Debug, PartialEq, Eq)]
pub enum OnionChoice {
    /// A new service that lasts for this run.
    Transient,
    /// A new service, saved under `name`.
    NewPersistent { name: String },
    /// The service that was saved under `name`.
    ExistingPersistent { name: String },
}

pub enum OnionChoiceView {
    Transient,
    NewPersistent { name: Seq<char> },
    ExistingPersistent { name: Seq<char> },
}

impl View for OnionChoice {
    type V = OnionChoiceView;

    open spec fn view(&self) -> OnionChoiceView {
        match self {
            OnionChoice::Transient => OnionChoiceView::Transient,
            OnionChoice::NewPersistent { name } => OnionChoiceView::NewPersistent { name: name@ },
            OnionChoice::ExistingPersistent { name } => OnionChoiceView::ExistingPersistent {
                name: name@,
            },
        }
    }
}

/// A persistent service was asked for without a name.
#[derive(Clone, Copy, Debug, PartialEq, Eq, Structural)]
pub struct MissingName {}

impl MissingName {
    pub open spec fn spec_message() -> Seq<char> {
        "Must specify --name with --persistent"@
    }

    /// The error in words.
    pub fn message(&self) -> (text: String)
        ensures
            text@ == Self::spec_message(),
    {
        String::from_str("Must specify --name with --persistent")
    }
}

/// What the command line asks for: a transient service, or a persistent one
/// under its name, new with `create` and saved before without. A persistent
/// service without a name is an error.
pub open spec fn onion_choice(
    onion_type: OnionServiceType,
    name: Option<Seq<char>>,
    create: bool,
) -> Result<OnionChoiceView, MissingName> {
    match onion_type {
        OnionServiceType::Persistent => match name {
            Some(name) => if create {
                Ok(OnionChoiceView::NewPersistent { name })
            } else {
                Ok(OnionChoiceView::ExistingPersistent { name })
            },
            None => Err(MissingName {  }),
        },
        OnionServiceType::Transient => Ok(OnionChoiceView::Transient),
    }
}

/// The onion service that the command line asks for.
pub fn get_onion_type(onion_type: OnionServiceType, name: Option<&String>, create: bool) -> (choice:
    Result<OnionChoice, MissingName>)
    ensures
        match onion_choice(
            onion_type,
            match name {
                Some(name) => Some(name@),
                None => None,
            },
            create,
        ) {
            Ok(view) => choice matches Ok(c) && c@ == view,
            Err(error) => choice == Err::<OnionChoice, MissingName>(error),
        },
{
    match onion_type {
        OnionServiceType::Persistent => match name {
            Some(name) => {
                if create {
                    Ok(OnionChoice::NewPersistent { name: name.clone() })
                } else {
                    Ok(OnionChoice::ExistingPersistent { name: name.clone() })
                }
            },
            None => Err(MissingName {  }),
        },
        OnionServiceType::Transient => Ok(OnionChoice::Transient),
    }
}

impl AuthArgs {
    /// At most one of the two options is given.
    pub open spec fn wf(&self) -> bool {
        self.safe_cookie is None || self.hashed_password is None
    }

    /// What the options settle: nothing where neither is given; the way of
    /// the one that is given, with its value where it has one.
    pub open spec fn spec_settings(&self) -> AuthSettingsView {
        match (self.safe_cookie, self.hashed_password) {
            (Some(None), _) => AuthSettingsView {
                authentication: Some(TorAuth::SafeCookie),
                cookie: None,
                hashed_password: None,
            },
            (Some(Some(cookie)), _) => AuthSettingsView {
                authentication: Some(TorAuth::SafeCookie),
                cookie: Some(vstd::utf8::encode_utf8(cookie@)),
                hashed_password: None,
            },
            (None, Some(None)) => AuthSettingsView {
                authentication: Some(TorAuth::HashedPassword),
                cookie: None,
                hashed_password: None,
            },
            (None, Some(Some(password))) => AuthSettingsView {
                authentication: Some(TorAuth::HashedPassword),
                cookie: None,
                hashed_password: Some(password@),
            },
            (None, None) => AuthSettingsView {
                authentication: None,
                cookie: None,
                hashed_password: None,
            },
        }
    }

    /// What the options settle of the authentication.
    pub fn settings(&self) -> (settings: AuthSettings)
        requires
            self.wf(),
        ensures
            settings@ == self.spec_settings(),
    {
        match (&self.safe_cookie, &self.hashed_password) {
            (Some(None), _) => AuthSettings {
                authentication: Some(TorAuth::SafeCookie),
                cookie: None,
                hashed_password: None,
            },
            (Some(Some(cookie)), _) => AuthSettings {
                authentication: Some(TorAuth::SafeCookie),
                cookie: Some(cookie.as_str().as_bytes_vec()),
                hashed_password: None,
            },
            (None, Some(None)) => AuthSettings {
                authentication: Some(TorAuth::HashedPassword),
                cookie: None,
                hashed_password: None,
            },
            (None, Some(Some(password))) => AuthSettings {
                authentication: Some(TorAuth::HashedPassword),
                cookie: None,
                hashed_password: Some(password.clone()),
            },
            (None, None) => AuthSettings {
                authentication: None,
                cookie: None,
                hashed_password: None,
            },
        }
    }
}

} // verus!
