//! What the installer is told: its bundled identity and the remote manifest.

use vstd::prelude::*;

verus! {

/// The text of an optional string, if there is one.
pub open spec fn text_of(text: Option<String>) -> Option<Seq<char>> {
    match text {
        Some(t) => Some(t@),
        None => None,
    }
}

/// A copy of an optional string.
pub fn duplicate_text(text: &Option<String>) -> (copy: Option<String>)
    ensures
        text_of(copy) == text_of(*text),
{
    match text {
        Some(t) => Some(t.clone()),
        None => None,
    }
}

/// The identity of the application, bundled with the installer and never
/// changed afterwards.
#[derive(Debug)]
pub struct BaseAttributes {
    pub name: String,
    pub target_url: String,
}

/// The mathematical value of the bundled identity.
pub struct BaseAttributesView {
    pub name: Seq<char>,
    pub target_url: Seq<char>,
}

impl View for BaseAttributes {
    type V = BaseAttributesView;

    open spec fn view(&self) -> BaseAttributesView {
        BaseAttributesView { name: self.name@, target_url: self.target_url@ }
    }
}

/// The claims that a token must carry to be accepted. An absent field is
/// not checked.
#[derive(Debug)]
pub struct JWTValidation {
    pub iss: Option<String>,
    pub aud: Option<String>,
}

/// The mathematical value of a validation rule.
pub struct JWTValidationView {
    pub iss: Option<Seq<char>>,
    pub aud: Option<Seq<char>>,
}

impl View for JWTValidation {
    type V = JWTValidationView;

    open spec fn view(&self) -> JWTValidationView {
        JWTValidationView { iss: text_of(self.iss), aud: text_of(self.aud) }
    }
}

/// The authentication policy of a deployment.
#[derive(Debug)]
pub struct AuthenticationConfig {
    /// The key that signs tokens, in base64. Empty: signatures are not
    /// checked.
    pub pub_key_base64: String,
    /// The endpoint that turns credentials into a signed token.
    pub auth_url: String,
    pub validation: Option<JWTValidation>,
}

/// The mathematical value of an authentication policy.
pub struct AuthenticationConfigView {
    pub pub_key_base64: Seq<char>,
    pub auth_url: Seq<char>,
    pub validation: Option<JWTValidationView>,
}

impl View for AuthenticationConfig {
    type V = AuthenticationConfigView;

    open spec fn view(&self) -> AuthenticationConfigView {
        AuthenticationConfigView {
            pub_key_base64: self.pub_key_base64@,
            auth_url: self.auth_url@,
            validation: match self.validation {
                Some(v) => Some(v@),
                None => None,
            },
        }
    }
}

/// The remote manifest as the engine holds it: the authentication policy,
/// if the deployment has one, and the manifest rendered as JSON.
#[derive(Debug)]
pub struct Config {
    pub authentication: Option<AuthenticationConfig>,
    pub json: String,
}

/// The mathematical value of a manifest.
pub struct ConfigView {
    pub authentication: Option<AuthenticationConfigView>,
    pub json: Seq<char>,
}

impl View for Config {
    type V = ConfigView;

    open spec fn view(&self) -> ConfigView {
        ConfigView {
            authentication: match self.authentication {
                Some(a) => Some(a@),
                None => None,
            },
            json: self.json@,
        }
    }
}

impl Config {
    /// The manifest as JSON text.
    pub fn to_json_str(&self) -> (json: String)
        ensures
            json@ == self@.json,
    {
        self.json.clone()
    }
}

} // verus!
