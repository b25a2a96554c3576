//! How a signed token is checked: the key, the rules, and the decoding
//! itself.

use crate::config::{duplicate_text, text_of, JWTValidation, JWTValidationView};
use crate::json::{json_member, json_text};
use vstd::prelude::*;

verus! {

/// `base64::DecodeError`: why a text is not base64. Nothing is read from
/// it.
#[verifier::external_type_specification]
#[verifier::external_body]
pub struct ExKeyDecodeError(base64::DecodeError);

/// `jsonwebtoken::Validation`: what the decoder holds a token against.
#[verifier::external_type_specification]
#[verifier::external_body]
pub struct ExValidation(jsonwebtoken::Validation);

/// `jsonwebtoken::DecodingKey`: the key that the decoder checks a
/// signature with.
#[verifier::external_type_specification]
#[verifier::external_body]
pub struct ExDecodingKey(jsonwebtoken::DecodingKey);

/// `jsonwebtoken::errors::Error`: why the decoder refused a token. Nothing
/// is read from it.
#[verifier::external_type_specification]
#[verifier::external_body]
pub struct ExTokenError(jsonwebtoken::errors::Error);

/// The bytes that a text in standard base64, with padding, stands for;
/// `None` where the text is not such an encoding.
pub uninterp spec fn base64_decoding(text: Seq<char>) -> Option<Seq<u8>>;

/// `base64::decode`: the bytes that the text encodes, or the decoder's
/// error where it encodes none.
#[allow(deprecated)]
#[verifier::external_body]
pub(crate) fn base64_decode(text: &str) -> (decoded: Result<Vec<u8>, base64::DecodeError>)
    ensures
        match decoded {
            Ok(bytes) => base64_decoding(text@) == Some(bytes@),
            Err(_) => base64_decoding(text@).is_none(),
        },
{
    base64::decode(text)
}

/// The key that a policy's key text stands for, given what its base64
/// decoding yields. An empty text asks for no signature check and stands
/// for the empty key.
pub open spec fn key_from(encoded: Seq<char>, decoded: Option<Seq<u8>>) -> Option<Seq<u8>> {
    if encoded.len() == 0 {
        Some(Seq::<u8>::empty())
    } else {
        decoded
    }
}

/// The key that a policy's key text stands for; `None` where a non-empty
/// text is not base64.
pub open spec fn key_of(encoded: Seq<char>) -> Option<Seq<u8>> {
    key_from(encoded, base64_decoding(encoded))
}

/// Decodes the key of a policy. An empty text gives the empty key; a text
/// that is not base64 gives none.
pub fn decode_key(encoded: &str) -> (key: Option<Vec<u8>>)
    ensures
        match key {
            Some(k) => key_of(encoded@) == Some(k@),
            None => key_of(encoded@).is_none(),
        },
{
    if encoded.is_empty() {
        Some(Vec::new())
    } else {
        match base64_decode(encoded) {
            Ok(bytes) => Some(bytes),
            Err(_) => None,
        }
    }
}

/// The signature schemes that a policy can ask for.
#[derive(Clone, Copy, Debug, PartialEq, Eq, Structural)]
pub enum SigningAlgorithm {
    /// RSA with SHA-256, checked against a public key.
    Rs256,
    /// HMAC with SHA-256, checked against a shared secret.
    Hs256,
}

/// Everything that decides whether a token is accepted, as plain values.
#[derive(Debug)]
pub struct TokenCheck {
    pub algorithm: SigningAlgorithm,
    /// The issuer that the token must name, if it names one.
    pub issuer: Option<String>,
    /// The audience that the token must name, if it names one.
    pub audience: Option<String>,
    /// The key of the signature. With an empty key the signature is not
    /// checked.
    pub key: Vec<u8>,
}

/// The mathematical value of a token check.
pub struct TokenCheckView {
    pub algorithm: SigningAlgorithm,
    pub issuer: Option<Seq<char>>,
    pub audience: Option<Seq<char>>,
    pub key: Seq<u8>,
}

impl View for TokenCheck {
    type V = TokenCheckView;

    open spec fn view(&self) -> TokenCheckView {
        TokenCheckView {
            algorithm: self.algorithm,
            issuer: text_of(self.issuer),
            audience: text_of(self.audience),
            key: self.key@,
        }
    }
}

impl TokenCheckView {
    /// The check that a policy asks for. With a validation rule the token
    /// is an RS256 token whose issuer and audience are held against the
    /// rule; without one it is an HS256 token of any issuer and audience.
    pub open spec fn for_policy(validation: Option<JWTValidationView>, key: Seq<u8>) -> TokenCheckView {
        match validation {
            Some(rule) => TokenCheckView {
                algorithm: SigningAlgorithm::Rs256,
                issuer: rule.iss,
                audience: rule.aud,
                key,
            },
            None => TokenCheckView {
                algorithm: SigningAlgorithm::Hs256,
                issuer: None,
                audience: None,
                key,
            },
        }
    }

    /// Whether the signature is checked at all.
    pub open spec fn checks_signature(self) -> bool {
        self.key.len() > 0
    }

    /// The rules that the decoder is handed for this check.
    pub open spec fn rules(self) -> Rules {
        Rules {
            algorithm: self.algorithm,
            issuer: self.issuer,
            audience: self.audience,
            audience_checked: self.audience.is_some(),
            signature_checked: self.checks_signature(),
        }
    }

    /// The key that the decoder is handed for this check.
    pub open spec fn material(self) -> KeyMaterial {
        match self.algorithm {
            SigningAlgorithm::Rs256 => KeyMaterial::RsaDer(self.key),
            SigningAlgorithm::Hs256 => KeyMaterial::Secret(self.key),
        }
    }

    /// What holds of a token and its payload once the token has passed this
    /// check.
    pub open spec fn passed_by(self, token: Seq<char>, payload: serde_json::Value) -> bool {
        &&& self.checks_signature() ==> signature_verifies(token, self.material())
        &&& names(payload, "iss"@, self.issuer)
        &&& names(payload, "aud"@, self.audience)
    }
}

impl TokenCheck {
    /// The check that a policy with this validation rule and this key asks
    /// for.
    pub fn for_policy(validation: &Option<JWTValidation>, key: Vec<u8>) -> (check: TokenCheck)
        ensures
            check@ == TokenCheckView::for_policy(
                match *validation {
                    Some(rule) => Some(rule@),
                    None => None,
                },
                key@,
            ),
    {
        match validation {
            Some(rule) => TokenCheck {
                algorithm: SigningAlgorithm::Rs256,
                issuer: duplicate_text(&rule.iss),
                audience: duplicate_text(&rule.aud),
                key,
            },
            None => TokenCheck {
                algorithm: SigningAlgorithm::Hs256,
                issuer: None,
                audience: None,
                key,
            },
        }
    }
}

/// What a decoder's validation holds, as far as this library sets it.
pub struct Rules {
    /// The one scheme that a token may be signed with.
    pub algorithm: SigningAlgorithm,
    /// `Some`: the one issuer that is accepted.
    pub issuer: Option<Seq<char>>,
    /// `Some`: the one audience that is accepted, where the audience is
    /// checked.
    pub audience: Option<Seq<char>>,
    pub audience_checked: bool,
    pub signature_checked: bool,
}

/// What a decoder's key holds.
pub enum KeyMaterial {
    /// An RSA public key in DER.
    RsaDer(Seq<u8>),
    /// A secret for HMAC.
    Secret(Seq<u8>),
}

/// The rules that a validation of the decoder holds.
pub uninterp spec fn validation_rules(validation: jsonwebtoken::Validation) -> Rules;

/// What a key of the decoder was made from.
pub uninterp spec fn key_material(key: jsonwebtoken::DecodingKey) -> KeyMaterial;

/// `jsonwebtoken::Validation::new`: a validation that allows the one
/// scheme, accepts every issuer, has no audience set while checking the
/// audience, and checks the signature.
#[verifier::external_body]
pub(crate) fn new_validation(algorithm: SigningAlgorithm) -> (validation:
    jsonwebtoken::Validation)
    ensures
        validation_rules(validation) == (Rules {
            algorithm,
            issuer: None,
            audience: None,
            audience_checked: true,
            signature_checked: true,
        }),
{
    jsonwebtoken::Validation::new(
        match algorithm {
            SigningAlgorithm::Rs256 => jsonwebtoken::Algorithm::RS256,
            SigningAlgorithm::Hs256 => jsonwebtoken::Algorithm::HS256,
        },
    )
}

/// `jsonwebtoken::Validation::set_issuer` with one issuer: it becomes the
/// only accepted one, and nothing else changes.
#[verifier::external_body]
pub(crate) fn set_issuer(validation: &mut jsonwebtoken::Validation, issuer: &str)
    ensures
        validation_rules(*final(validation)) == (Rules {
            issuer: Some(issuer@),
            ..validation_rules(*old(validation))
        }),
{
    validation.set_issuer(&[issuer]);
}

/// `jsonwebtoken::Validation::set_audience` with one audience: it becomes
/// the only accepted one, and nothing else changes.
#[verifier::external_body]
pub(crate) fn set_audience(validation: &mut jsonwebtoken::Validation, audience: &str)
    ensures
        validation_rules(*final(validation)) == (Rules {
            audience: Some(audience@),
            ..validation_rules(*old(validation))
        }),
{
    validation.set_audience(&[audience]);
}

/// Clears the field `validate_aud` of a `jsonwebtoken::Validation`: the
/// audience of a token is no longer looked at, and nothing else changes.
#[verifier::external_body]
pub(crate) fn ignore_audience(validation: &mut jsonwebtoken::Validation)
    ensures
        validation_rules(*final(validation)) == (Rules {
            audience_checked: false,
            ..validation_rules(*old(validation))
        }),
{
    validation.validate_aud = false;
}

/// `jsonwebtoken::Validation::insecure_disable_signature_validation`: the
/// signature of a token is no longer checked, and nothing else changes.
#[verifier::external_body]
pub(crate) fn skip_signature(validation: &mut jsonwebtoken::Validation)
    ensures
        validation_rules(*final(validation)) == (Rules {
            signature_checked: false,
            ..validation_rules(*old(validation))
        }),
{
    validation.insecure_disable_signature_validation();
}

/// `jsonwebtoken::DecodingKey::from_rsa_der`: a key of the RSA family that
/// holds the given bytes.
#[verifier::external_body]
pub(crate) fn rsa_key(der: &[u8]) -> (key: jsonwebtoken::DecodingKey)
    ensures
        key_material(key) == KeyMaterial::RsaDer(der@),
{
    jsonwebtoken::DecodingKey::from_rsa_der(der)
}

/// `jsonwebtoken::DecodingKey::from_secret`: a key of the HMAC family that
/// holds the given bytes.
#[verifier::external_body]
pub(crate) fn secret_key(secret: &[u8]) -> (key: jsonwebtoken::DecodingKey)
    ensures
        key_material(key) == KeyMaterial::Secret(secret@),
{
    jsonwebtoken::DecodingKey::from_secret(secret)
}

/// Whether the last part of a token is a signature of the parts before it
/// that a key made from this material confirms, by the scheme that the
/// token's header names.
pub uninterp spec fn signature_verifies(token: Seq<char>, key: KeyMaterial) -> bool;

/// Whether a payload agrees with what is expected of one of its members:
/// where something is expected and the member is a text, the two are the
/// same.
pub open spec fn names(
    payload: serde_json::Value,
    member: Seq<char>,
    expected: Option<Seq<char>>,
) -> bool {
    match (expected, json_member(payload, member)) {
        (Some(wanted), Some(found)) => json_text(found) matches Some(text) ==> text == wanted,
        _ => true,
    }
}

/// `jsonwebtoken::decode` to a JSON value: the payload of a token that the
/// decoder accepts, or its error. Whether a token is accepted depends on
/// the clock, so nothing is claimed of that. Of an accepted one the decoder
/// has confirmed the signature, unless that check is turned off, and has
/// held its issuer and its audience against the validation.
#[verifier::external_body]
pub(crate) fn decode_payload(
    token: &str,
    key: &jsonwebtoken::DecodingKey,
    validation: &jsonwebtoken::Validation,
) -> (payload: Result<serde_json::Value, jsonwebtoken::errors::Error>)
    ensures
        payload.is_ok() && validation_rules(*validation).signature_checked
            ==> signature_verifies(token@, key_material(*key)),
        payload matches Ok(p) ==> names(p, "iss"@, validation_rules(*validation).issuer),
        validation_rules(*validation).audience_checked ==> (payload matches Ok(p) ==> names(
            p,
            "aud"@,
            validation_rules(*validation).audience,
        )),
{
    jsonwebtoken::decode::<serde_json::Value>(token, key, validation).map(|data| data.claims)
}

/// The validation that the decoder is handed for a check.
pub fn validation_for(check: &TokenCheck) -> (validation: jsonwebtoken::Validation)
    ensures
        validation_rules(validation) == check@.rules(),
{
    let mut validation = new_validation(check.algorithm);
    match &check.issuer {
        Some(issuer) => set_issuer(&mut validation, issuer.as_str()),
        None => {},
    }
    match &check.audience {
        Some(audience) => set_audience(&mut validation, audience.as_str()),
        None => ignore_audience(&mut validation),
    }
    if check.key.len() == 0 {
        skip_signature(&mut validation);
    }
    validation
}

/// The key that the decoder is handed for a check.
pub fn key_for(check: &TokenCheck) -> (key: jsonwebtoken::DecodingKey)
    ensures
        key_material(key) == check@.material(),
{
    match check.algorithm {
        SigningAlgorithm::Rs256 => rsa_key(check.key.as_slice()),
        SigningAlgorithm::Hs256 => secret_key(check.key.as_slice()),
    }
}

/// Decodes a signed token under a check. `Some` holds the payload of a
/// token that passed. Whether a token passes depends on the time of the
/// call, since a token expires. One that passes bears a signature that the
/// key of the check confirms, unless that key is empty, and names the
/// issuer and the audience of the check, as far as the check names any.
pub fn decode(token: &str, check: &TokenCheck) -> (payload: Option<serde_json::Value>)
    ensures
        payload matches Some(p) ==> check@.passed_by(token@, p),
        check@.checks_signature() && !signature_verifies(token@, check@.material())
            ==> payload.is_none(),
{
    let validation = validation_for(check);
    let key = key_for(check);
    match decode_payload(token, &key, &validation) {
        Ok(payload) => Some(payload),
        Err(_) => None,
    }
}

} // verus!
