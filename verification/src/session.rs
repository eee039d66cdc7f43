//! Session credentials, the settings they come from, and the choice between
//! resuming a stored session and starting a new one.

use crate::callback::{parse_url_query, url_query};
use crate::token::{
    file_view, json_string, secret_view, stored_refresh_secret, stored_secret, LoadError,
};
use vstd::prelude::*;

verus! {

/// A setting that the program reads from an environment variable.
#[derive(Clone, Copy, Debug, PartialEq, Eq, Structural)]
pub enum Setting {
    /// The OAuth client identifier.
    ClientId,
    /// The OAuth client secret.
    ClientSecret,
    /// The OAuth redirect URI.
    RedirectUri,
    /// The playlist to fetch, wanted only when a session is resumed.
    PlaylistId,
}

impl Setting {
    /// The name of the environment variable, as a sequence of characters.
    pub open spec fn name(self) -> Seq<char> {
        match self {
            Setting::ClientId => "CLIENT_ID"@,
            Setting::ClientSecret => "CLIENT_SECRET"@,
            Setting::RedirectUri => "REDIRECT_URI"@,
            Setting::PlaylistId => "PLAYLIST_ID"@,
        }
    }

    /// The name of the environment variable that holds the setting.
    pub fn variable(self) -> (name: &'static str)
        ensures
            name@ == self.name(),
    {
        match self {
            Setting::ClientId => "CLIENT_ID",
            Setting::ClientSecret => "CLIENT_SECRET",
            Setting::RedirectUri => "REDIRECT_URI",
            Setting::PlaylistId => "PLAYLIST_ID",
        }
    }
}

/// A configuration error: a required setting has no value. It ends the run.
#[derive(Clone, Copy, Debug, PartialEq, Eq, Structural)]
pub struct ConfigError {
    pub missing: Setting,
}

impl ConfigError {
    /// The description of the error, as a sequence of characters.
    pub open spec fn text(self) -> Seq<char> {
        "environment variable not found: "@ + self.missing.name()
    }

    /// The description of the error.
    pub fn message(&self) -> (text: String)
        ensures
            text@ == self.text(),
    {
        "environment variable not found: ".to_owned().concat(self.missing.variable())
    }
}

/// The scopes that a new authorization asks for, in the order they are
/// requested.
pub open spec fn requested_scopes() -> Seq<Seq<char>> {
    seq!["playlist-modify-public"@, "playlist-modify-private"@, "playlist-read-private"@]
}

/// The scopes that a new authorization asks for.
pub fn scopes() -> (list: Vec<String>)
    ensures
        list.deep_view() == requested_scopes(),
{
    let mut list: Vec<String> = Vec::new();
    list.push("playlist-modify-public".to_owned());
    list.push("playlist-modify-private".to_owned());
    list.push("playlist-read-private".to_owned());
    assert(list.deep_view() =~= requested_scopes());
    list
}

/// What identifies this program to the service. Read once at startup and
/// never changed.
#[derive(Clone, Debug, PartialEq, Eq)]
pub struct SessionCredentials {
    pub client_id: String,
    pub client_secret: String,
    pub redirect_uri: String,
    pub scopes: Vec<String>,
}

/// Mathematical value of [`SessionCredentials`].
pub struct CredentialsModel {
    pub client_id: Seq<char>,
    pub client_secret: Seq<char>,
    pub redirect_uri: Seq<char>,
    pub scopes: Seq<Seq<char>>,
}

impl View for SessionCredentials {
    type V = CredentialsModel;

    open spec fn view(&self) -> CredentialsModel {
        CredentialsModel {
            client_id: self.client_id@,
            client_secret: self.client_secret@,
            redirect_uri: self.redirect_uri@,
            scopes: self.scopes.deep_view(),
        }
    }
}

/// The credentials that the three startup settings give, or the first of
/// them, in the order client identifier, client secret, redirect URI, that
/// has no value.
pub open spec fn credentials_from(
    client_id: Option<Seq<char>>,
    client_secret: Option<Seq<char>>,
    redirect_uri: Option<Seq<char>>,
) -> Result<CredentialsModel, ConfigError> {
    match (client_id, client_secret, redirect_uri) {
        (None, _, _) => Err(ConfigError { missing: Setting::ClientId }),
        (Some(_), None, _) => Err(ConfigError { missing: Setting::ClientSecret }),
        (Some(_), Some(_), None) => Err(ConfigError { missing: Setting::RedirectUri }),
        (Some(id), Some(secret), Some(uri)) => Ok(
            CredentialsModel {
                client_id: id,
                client_secret: secret,
                redirect_uri: uri,
                scopes: requested_scopes(),
            },
        ),
    }
}

/// Why `uri` cannot serve as a redirect URI, if it cannot: it has to parse as
/// a URL, and the reason is the parser's description of its failure.
pub open spec fn redirect_uri_fault(uri: Seq<char>) -> Option<Seq<char>> {
    match url_query(uri) {
        Ok(_) => None,
        Err(reason) => Some(reason),
    }
}

/// Mathematical value of the result of reading the startup settings.
pub open spec fn settings_view(outcome: Result<SessionCredentials, ConfigError>) -> Result<
    CredentialsModel,
    ConfigError,
> {
    match outcome {
        Ok(credentials) => Ok(credentials@),
        Err(error) => Err(error),
    }
}

impl SessionCredentials {
    /// Builds the credentials from the values of the three settings that are
    /// required at startup; `None` stands for a setting without a value.
    pub fn from_settings(
        client_id: Option<String>,
        client_secret: Option<String>,
        redirect_uri: Option<String>,
    ) -> (outcome: Result<SessionCredentials, ConfigError>)
        ensures
            settings_view(outcome) == credentials_from(
                client_id.deep_view(),
                client_secret.deep_view(),
                redirect_uri.deep_view(),
            ),
    {
        let client_id = match client_id {
            Some(value) => value,
            None => return Err(ConfigError { missing: Setting::ClientId }),
        };
        let client_secret = match client_secret {
            Some(value) => value,
            None => return Err(ConfigError { missing: Setting::ClientSecret }),
        };
        let redirect_uri = match redirect_uri {
            Some(value) => value,
            None => return Err(ConfigError { missing: Setting::RedirectUri }),
        };
        Ok(SessionCredentials { client_id, client_secret, redirect_uri, scopes: scopes() })
    }

    /// Checks the redirect URI, which a new authorization needs to be a
    /// syntactically valid URL. Returns the reason if it is not.
    pub fn check_redirect_uri(&self) -> (fault: Option<String>)
        ensures
            fault.deep_view() == redirect_uri_fault(self@.redirect_uri),
    {
        match parse_url_query(self.redirect_uri.as_str()) {
            Ok(_) => None,
            Err(reason) => Some(reason),
        }
    }
}

/// The two ways a run can go.
#[derive(Clone, Debug, PartialEq, Eq)]
pub enum SessionPath {
    /// A refresh secret was loaded: it is used to fetch the playlist.
    Resume { refresh_secret: String },
    /// No refresh secret was loaded: the operator authorizes a new session.
    NewSession,
}

/// Mathematical value of a [`SessionPath`].
pub enum SessionPathModel {
    Resume { refresh_secret: Seq<char> },
    NewSession,
}

impl View for SessionPath {
    type V = SessionPathModel;

    open spec fn view(&self) -> SessionPathModel {
        match self {
            SessionPath::Resume { refresh_secret } => SessionPathModel::Resume {
                refresh_secret: refresh_secret@,
            },
            SessionPath::NewSession => SessionPathModel::NewSession,
        }
    }
}

/// The path that the outcome of loading selects: resume exactly when a
/// refresh secret was loaded, whatever the reason when none was.
pub open spec fn path_for(loaded: Result<Seq<char>, LoadError>) -> SessionPathModel {
    match loaded {
        Ok(secret) => SessionPathModel::Resume { refresh_secret: secret },
        Err(_) => SessionPathModel::NewSession,
    }
}

/// The path that the state of the token file selects.
pub open spec fn selected_path(file: Option<Seq<u8>>) -> SessionPathModel {
    path_for(stored_secret(file))
}

/// Chooses the path from the outcome of loading the refresh secret.
pub fn select_path(loaded: Result<String, LoadError>) -> (path: SessionPath)
    ensures
        path@ == path_for(secret_view(loaded)),
{
    match loaded {
        Ok(refresh_secret) => SessionPath::Resume { refresh_secret },
        Err(_) => SessionPath::NewSession,
    }
}

/// Chooses between resuming and a new session. `file` is the content of the
/// token file, or `None` if the file is absent or unreadable. Without a file,
/// and with one that does not hold a JSON string, the session is new.
pub fn bootstrap(file: Option<&[u8]>) -> (path: SessionPath)
    ensures
        path@ == selected_path(file_view(file)),
        file is None ==> path@ == SessionPathModel::NewSession,
        file matches Some(bytes) && json_string(bytes@) is None ==> path@
            == SessionPathModel::NewSession,
{
    select_path(stored_refresh_secret(file))
}

} // verus!
