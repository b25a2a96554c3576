//! The state that the whole installer shares: identity, manifest, stored
//! credentials and the token of the current session.

use crate::config::{text_of, BaseAttributes, BaseAttributesView, Config, ConfigView};
use crate::credentials::{Credentials, CredentialsView};
use vstd::prelude::*;

verus! {

/// The file in the install directory that holds the database.
pub const METADATA_FILE: &'static str = "metadata.json";

/// The install metadata that is kept on disk between runs.
#[derive(Debug)]
pub struct Database {
    pub credentials: Credentials,
}

/// The single owner of the installer's state.
#[derive(Debug)]
pub struct InstallerFramework {
    pub base_attributes: BaseAttributes,
    pub config: Option<Config>,
    pub database: Database,
    /// The signed token of the last successful authentication. It is not
    /// written to disk.
    pub authorization_token: Option<String>,
    pub is_launcher: bool,
    pub launcher_path: Option<String>,
}

/// The mathematical value of the framework.
pub struct FrameworkView {
    pub base_attributes: BaseAttributesView,
    pub config: Option<ConfigView>,
    pub credentials: CredentialsView,
    pub authorization_token: Option<Seq<char>>,
    pub is_launcher: bool,
    pub launcher_path: Option<Seq<char>>,
}

impl View for InstallerFramework {
    type V = FrameworkView;

    open spec fn view(&self) -> FrameworkView {
        FrameworkView {
            base_attributes: self.base_attributes@,
            config: match self.config {
                Some(c) => Some(c@),
                None => None,
            },
            credentials: self.database.credentials@,
            authorization_token: text_of(self.authorization_token),
            is_launcher: self.is_launcher,
            launcher_path: text_of(self.launcher_path),
        }
    }
}

impl FrameworkView {
    /// The state of a first run: nothing fetched, nothing stored, nobody
    /// authenticated.
    pub open spec fn fresh(base_attributes: BaseAttributesView) -> FrameworkView {
        FrameworkView {
            base_attributes,
            config: None,
            credentials: CredentialsView {
                username: Seq::<char>::empty(),
                token: Seq::<char>::empty(),
            },
            authorization_token: None,
            is_launcher: false,
            launcher_path: None,
        }
    }

    /// The state after a successful authentication with `credentials`, which
    /// the endpoint answered with `token`.
    pub open spec fn authenticated(
        self,
        credentials: CredentialsView,
        token: Seq<char>,
    ) -> FrameworkView {
        FrameworkView { credentials, authorization_token: Some(token), ..self }
    }

    /// The state after a manifest was fetched.
    pub open spec fn configured(self, config: ConfigView) -> FrameworkView {
        FrameworkView { config: Some(config), ..self }
    }

    /// The state of an installer that launches `path` once it is done.
    pub open spec fn launching(self, path: Seq<char>) -> FrameworkView {
        FrameworkView { is_launcher: true, launcher_path: Some(path), ..self }
    }
}

impl InstallerFramework {
    /// The framework of a fresh install: an empty database, no manifest and
    /// no token.
    pub fn new(base_attributes: BaseAttributes) -> (framework: InstallerFramework)
        ensures
            framework@ == FrameworkView::fresh(base_attributes@),
    {
        InstallerFramework {
            base_attributes,
            config: None,
            database: Database { credentials: Credentials::empty() },
            authorization_token: None,
            is_launcher: false,
            launcher_path: None,
        }
    }

    /// The framework of an existing install, around the metadata that was
    /// loaded from its directory.
    pub fn new_with_db(base_attributes: BaseAttributes, database: Database) -> (framework:
        InstallerFramework)
        ensures
            framework@ == (FrameworkView {
                credentials: database.credentials@,
                ..FrameworkView::fresh(base_attributes@)
            }),
    {
        InstallerFramework {
            base_attributes,
            config: None,
            database,
            authorization_token: None,
            is_launcher: false,
            launcher_path: None,
        }
    }

    /// The manifest, once one was fetched.
    pub fn get_config(&self) -> (config: Option<&Config>)
        ensures
            match config {
                Some(c) => self.config == Some(*c),
                None => self.config.is_none(),
            },
    {
        self.config.as_ref()
    }

    /// Replaces the manifest as a whole.
    pub fn set_config(&mut self, config: Config)
        ensures
            final(self)@ == old(self)@.configured(config@),
    {
        self.config = Some(config);
    }

    /// Records a successful authentication: the credentials go to the
    /// database, the signed token to the session.
    pub fn authenticate(&mut self, credentials: Credentials, token: String)
        ensures
            final(self)@ == old(self)@.authenticated(credentials@, token@),
    {
        self.database.credentials = credentials;
        self.authorization_token = Some(token);
    }

    /// Turns the installer into a launcher of `path`.
    pub fn set_launcher(&mut self, path: String)
        ensures
            final(self)@ == old(self)@.launching(path@),
    {
        self.is_launcher = true;
        self.launcher_path = Some(path);
    }
}

/// Of two authentications that are committed one after the other, the
/// second alone decides what is stored: its credentials and its token, and
/// nothing of the first.
pub proof fn lemma_last_commit_wins(
    state: FrameworkView,
    first: CredentialsView,
    first_token: Seq<char>,
    second: CredentialsView,
    second_token: Seq<char>,
)
    ensures
        state.authenticated(first, first_token).authenticated(second, second_token)
            == state.authenticated(second, second_token),
        state.authenticated(first, first_token).authenticated(second, second_token).credentials
            == second,
{
}

} // verus!
