//! The authentication service: from a request to a call of the
//! authentication endpoint, and from the endpoint's answer to verified
//! claims.

use crate::claims::{claims_json, claims_of, Claims, ClaimsView};
use crate::config::{AuthenticationConfigView, Config};
use crate::credentials::{resolved, Credentials, CredentialsView};
use crate::form::{field_or_default, field_or_empty, form_pairs, pairs_view, parse_pairs};
use crate::framework::{FrameworkView, InstallerFramework};
use crate::response::{ContentType, Response, ResponseView, Status};
use crate::token::{
    decode, decode_key, key_of, signature_verifies, TokenCheck, TokenCheckView,
};
use vstd::prelude::*;

verus! {

/// How the installer names itself to the authentication endpoint.
pub const USER_AGENT: &'static str = "liftinstall (j-selby)";

/// The points at which an authentication attempt can end without success.
#[derive(Clone, Copy, Debug, PartialEq, Eq, Structural)]
pub enum Failure {
    /// Neither the request nor the database held a valid pair.
    NoCredentials,
    /// The configured key is not base64.
    BadKey,
    /// The endpoint was not reached, refused, or sent no text.
    RemoteFailed,
    /// The token did not pass the check or does not make the claims.
    TokenRejected,
    /// The claims could not be written as JSON.
    Unrendered,
}

impl Failure {
    /// The status that a failure is reported with: a bad request where no
    /// credentials were to be had, an internal error everywhere else.
    pub open spec fn status_spec(self) -> Status {
        match self {
            Failure::NoCredentials => Status::BadRequest,
            _ => Status::InternalServerError,
        }
    }

    /// The status that a failure is reported with.
    pub fn status(self) -> (status: Status)
        ensures
            status == self.status_spec(),
    {
        match self {
            Failure::NoCredentials => Status::BadRequest,
            _ => Status::InternalServerError,
        }
    }

    /// The response that reports a failure: its status and nothing else.
    pub fn response(self) -> (response: Response)
        ensures
            response@ == ResponseView::bare(self.status_spec()),
    {
        Response::new(self.status())
    }
}

/// The call that an attempt asks for: a POST to `url` with the user agent and
/// with the credentials in the headers `X-USERNAME` and `X-TOKEN`.
#[derive(Debug)]
pub struct RemoteCall {
    pub url: String,
    pub user_agent: String,
    pub username: String,
    pub token: String,
}

/// The mathematical value of a call.
pub struct RemoteCallView {
    pub url: Seq<char>,
    pub user_agent: Seq<char>,
    pub username: Seq<char>,
    pub token: Seq<char>,
}

impl View for RemoteCall {
    type V = RemoteCallView;

    open spec fn view(&self) -> RemoteCallView {
        RemoteCallView {
            url: self.url@,
            user_agent: self.user_agent@,
            username: self.username@,
            token: self.token@,
        }
    }
}

/// What an attempt keeps while the endpoint is asked: the credentials that
/// were sent and the check that the answer has to pass.
#[derive(Debug)]
pub struct Pending {
    pub credentials: Credentials,
    pub check: TokenCheck,
}

/// What is done with a request: answer at once, or ask the endpoint.
#[derive(Debug)]
pub enum Step {
    Respond(Response),
    Call(RemoteCall, Pending),
}

/// The mathematical value of a step.
pub enum StepView {
    Respond(ResponseView),
    Call(RemoteCallView, CredentialsView, TokenCheckView),
}

impl View for Step {
    type V = StepView;

    open spec fn view(&self) -> StepView {
        match self {
            Step::Respond(response) => StepView::Respond(response@),
            Step::Call(call, pending) => StepView::Call(
                call@,
                pending.credentials@,
                pending.check@,
            ),
        }
    }
}

/// The credentials that a form supplies. A field that was not sent counts
/// as empty.
pub open spec fn supplied(pairs: Seq<(Seq<char>, Seq<char>)>) -> CredentialsView {
    CredentialsView {
        username: field_or_empty(pairs, "username"@),
        token: field_or_empty(pairs, "token"@),
    }
}

/// The answer of a deployment without authentication: success, with an
/// empty JSON object as the body and no header.
pub open spec fn open_door() -> ResponseView {
    ResponseView { body: "{}"@, ..ResponseView::bare(Status::Success) }
}

/// The first step of an attempt, given the policy, the stored credentials,
/// the pairs of the form and the decoded key of the policy (`None`: it
/// does not decode).
///
/// Without a policy everybody is let in. With one, credentials are resolved
/// first and the key is looked at second; only then is the endpoint asked.
pub open spec fn first_step(
    policy: Option<AuthenticationConfigView>,
    stored: CredentialsView,
    pairs: Seq<(Seq<char>, Seq<char>)>,
    key: Option<Seq<u8>>,
) -> StepView {
    match policy {
        None => StepView::Respond(open_door()),
        Some(p) => match resolved(supplied(pairs), stored) {
            None => StepView::Respond(ResponseView::bare(Status::BadRequest)),
            Some(credentials) => match key {
                None => StepView::Respond(ResponseView::bare(Status::InternalServerError)),
                Some(k) => StepView::Call(
                    RemoteCallView {
                        url: p.auth_url,
                        user_agent: USER_AGENT@,
                        username: credentials.username,
                        token: credentials.token,
                    },
                    credentials,
                    TokenCheckView::for_policy(p.validation, k),
                ),
            },
        },
    }
}

/// The decoded key of a policy; `None` without a policy or where the key
/// does not decode.
pub open spec fn policy_key(policy: Option<AuthenticationConfigView>) -> Option<Seq<u8>> {
    match policy {
        Some(p) => key_of(p.pub_key_base64),
        None => None,
    }
}

/// The bytes of an optional key.
pub open spec fn key_view(key: Option<Vec<u8>>) -> Option<Seq<u8>> {
    match key {
        Some(k) => Some(k@),
        None => None,
    }
}

/// Decides the first step from the pairs of the form and from the decoded
/// key of the policy.
pub fn decide(
    config: &Config,
    stored: &Credentials,
    pairs: &Vec<(String, String)>,
    key: Option<Vec<u8>>,
) -> (step: Step)
    ensures
        step@ == first_step(config@.authentication, stored@, pairs_view(pairs@), key_view(key)),
{
    let policy = match &config.authentication {
        Some(p) => p,
        None => {
            return Step::Respond(Response::new(Status::Success).with_body("{}".to_owned()));
        },
    };
    let request = Credentials::new(
        field_or_default(pairs, "username"),
        field_or_default(pairs, "token"),
    );
    let credentials = match Credentials::resolve(&request, stored) {
        Some(c) => c,
        None => {
            return Step::Respond(Failure::NoCredentials.response());
        },
    };
    let key = match key {
        Some(k) => k,
        None => {
            return Step::Respond(Failure::BadKey.response());
        },
    };
    let call = RemoteCall {
        url: policy.auth_url.clone(),
        user_agent: USER_AGENT.to_owned(),
        username: credentials.username.clone(),
        token: credentials.token.clone(),
    };
    let check = TokenCheck::for_policy(&policy.validation, key);
    Step::Call(call, Pending { credentials, check })
}

/// Takes a request in: reads the form, resolves the credentials, decodes
/// the key of the policy and says what to do next. The manifest must have
/// been fetched before.
pub fn handle(framework: &InstallerFramework, body: &[u8]) -> (step: Step)
    requires
        framework.config.is_some(),
    ensures
        step@ == first_step(
            framework@.config.unwrap().authentication,
            framework@.credentials,
            form_pairs(body@),
            policy_key(framework@.config.unwrap().authentication),
        ),
{
    let config = framework.config.as_ref().unwrap();
    let pairs = parse_pairs(body);
    let key = match &config.authentication {
        Some(policy) => decode_key(policy.pub_key_base64.as_str()),
        None => None,
    };
    decide(config, &framework.database.credentials, &pairs, key)
}

/// What came back from the authentication endpoint.
#[derive(Debug)]
pub enum RemoteReply {
    /// The call itself failed.
    Unreachable,
    /// The endpoint answered with this status; `body` is its text, or
    /// `None` where the answer could not be read as text.
    Answered { status: u16, body: Option<String> },
}

/// The signed token in a reply: the body of an answer with a status from
/// 200 to 299 that could be read.
pub open spec fn reply_text(reply: RemoteReply) -> Option<Seq<char>> {
    match reply {
        RemoteReply::Answered { status, body: Some(text) } => if 200 <= status < 300 {
            Some(text@)
        } else {
            None
        },
        _ => None,
    }
}

/// Takes the signed token out of the endpoint's reply. Every reply without
/// one is an internal error.
pub fn get_text(reply: RemoteReply) -> (text: Result<String, Response>)
    ensures
        match text {
            Ok(t) => reply_text(reply) == Some(t@),
            Err(response) => reply_text(reply).is_none() && response@ == ResponseView::bare(
                Status::InternalServerError,
            ),
        },
{
    match reply {
        RemoteReply::Answered { status, body: Some(text) } => {
            if 200 <= status && status < 300 {
                Ok(text)
            } else {
                Err(Failure::RemoteFailed.response())
            }
        },
        _ => Err(Failure::RemoteFailed.response()),
    }
}

/// The answer to an attempt whose token made these claims: the claims as
/// JSON, with their length announced, or an internal error where they
/// cannot be written.
pub open spec fn claims_response(claims: ClaimsView) -> ResponseView {
    match claims_json(claims) {
        Some(json) => ResponseView::measured(Status::Success, ContentType::Json, json),
        None => ResponseView::bare(Status::InternalServerError),
    }
}

/// The claims of an attempt, given what the decoder made of the token:
/// those that the payload of an accepted token makes, and none for a token
/// that was not accepted.
pub open spec fn accepted_claims(payload: Option<serde_json::Value>) -> Option<ClaimsView> {
    match payload {
        Some(p) => claims_of(p),
        None => None,
    }
}

/// How an attempt ends, given what the decoder made of the token: the state
/// that is left and the answer that is given.
///
/// Where the token was not accepted, or its payload does not make the
/// claims, the state stays and the answer is an internal error. Else the
/// credentials of the attempt and the signed token are stored, and the
/// answer carries the claims.
pub open spec fn ending(
    state: FrameworkView,
    credentials: CredentialsView,
    token: Seq<char>,
    payload: Option<serde_json::Value>,
) -> (FrameworkView, ResponseView) {
    match accepted_claims(payload) {
        None => (state, ResponseView::bare(Status::InternalServerError)),
        Some(claims) => (state.authenticated(credentials, token), claims_response(claims)),
    }
}

/// Ends an attempt, given what the decoder made of the token: the payload
/// of a token that it accepted, or nothing.
///
/// Where the token was not accepted, or its payload does not make the
/// claims, nothing is stored and the answer is an internal error. Else the
/// credentials of the attempt and the signed token are stored, and the
/// answer carries the claims.
pub fn commit(
    framework: &mut InstallerFramework,
    credentials: Credentials,
    token: String,
    payload: Option<serde_json::Value>,
) -> (response: Response)
    ensures
        (final(framework)@, response@) == ending(old(framework)@, credentials@, token@, payload),
        accepted_claims(payload).is_none() ==> *final(framework) == *old(framework),
{
    let claims = match payload {
        Some(p) => Claims::from_payload(&p),
        None => None,
    };
    let claims = match claims {
        Some(c) => c,
        None => {
            return Failure::TokenRejected.response();
        },
    };
    framework.authenticate(credentials, token);
    match claims.to_json() {
        Some(json) => Response::measured(Status::Success, ContentType::Json, json),
        None => Failure::Unrendered.response(),
    }
}

/// Checks the signed token that the endpoint sent and ends the attempt.
///
/// Whether the token passes depends on the time, since a token expires.
/// Whatever the decoder says, the answer is a success or a bare internal
/// error, and the framework changes only by storing the credentials and
/// the token of this attempt. A token whose signature the key of the check
/// does not confirm stores nothing and is answered with an internal error.
/// A success has stored the credentials and the token, and carries, as
/// JSON, the claims of a payload that passed the check.
pub fn conclude(framework: &mut InstallerFramework, pending: Pending, token: String) -> (response:
    Response)
    ensures
        response@.status == Status::Success || response@ == ResponseView::bare(
            Status::InternalServerError,
        ),
        *final(framework) == *old(framework) || final(framework)@ == old(
            framework,
        )@.authenticated(pending.credentials@, token@),
        pending.check@.checks_signature() && !signature_verifies(
            token@,
            pending.check@.material(),
        ) ==> {
            &&& *final(framework) == *old(framework)
            &&& response@ == ResponseView::bare(Status::InternalServerError)
        },
        response@.status == Status::Success ==> {
            &&& final(framework)@ == old(framework)@.authenticated(pending.credentials@, token@)
            &&& exists|payload: serde_json::Value| #[trigger]
                claims_of(payload).is_some() && pending.check@.passed_by(token@, payload)
                    && response@ == claims_response(claims_of(payload).unwrap())
        },
{
    let payload = decode(token.as_str(), &pending.check);
    commit(framework, pending.credentials, token, payload)
}

/// The claims of a token that passed a check name the issuer and the
/// audience of that check, as far as the check names any.
pub proof fn lemma_passed_claims_name_issuer_and_audience(
    check: TokenCheckView,
    token: Seq<char>,
    payload: serde_json::Value,
)
    requires
        check.passed_by(token, payload),
        claims_of(payload).is_some(),
    ensures
        check.issuer matches Some(issuer) ==> claims_of(payload).unwrap().iss == issuer,
        check.audience matches Some(audience) ==> claims_of(payload).unwrap().aud == audience,
{
}

/// A token that the decoder does not accept is answered with an internal
/// error, and leaves the stored credentials and the session as they were.
pub proof fn lemma_rejected_token_changes_nothing(
    state: FrameworkView,
    credentials: CredentialsView,
    token: Seq<char>,
)
    ensures
        ending(state, credentials, token, None) == (
            state,
            ResponseView::bare(Status::InternalServerError),
        ),
        ending(state, credentials, token, None).0.credentials == state.credentials,
{
}

/// A token that the decoder accepts, and whose payload makes the claims,
/// is answered with a success whose body is those claims as JSON, and its
/// credentials and the token itself are stored. This holds wherever the
/// claims can be written as JSON.
pub proof fn lemma_accepted_token_is_answered_with_its_claims(
    state: FrameworkView,
    credentials: CredentialsView,
    token: Seq<char>,
    payload: serde_json::Value,
)
    requires
        claims_of(payload).is_some(),
        claims_json(claims_of(payload).unwrap()).is_some(),
    ensures
        ending(state, credentials, token, Some(payload)).1 == ResponseView::measured(
            Status::Success,
            ContentType::Json,
            claims_json(claims_of(payload).unwrap()).unwrap(),
        ),
        ending(state, credentials, token, Some(payload)).0 == state.authenticated(
            credentials,
            token,
        ),
        ending(state, credentials, token, Some(payload)).0.credentials == credentials,
        ending(state, credentials, token, Some(payload)).0.authorization_token == Some(token),
{
}

/// No attempt ends in a bad request once the endpoint was asked: the
/// answer is then a success or an internal error.
pub proof fn lemma_ending_is_success_or_internal_error(
    state: FrameworkView,
    credentials: CredentialsView,
    token: Seq<char>,
    payload: Option<serde_json::Value>,
)
    ensures
        ending(state, credentials, token, payload).1.status == Status::Success || ending(
            state,
            credentials,
            token,
            payload,
        ).1 == ResponseView::bare(Status::InternalServerError),
{
}

/// A bad request is the answer exactly when the deployment has a policy
/// and neither the supplied pair nor the stored pair has both fields
/// non-empty.
pub proof fn lemma_bad_request_iff_no_credentials(
    policy: Option<AuthenticationConfigView>,
    stored: CredentialsView,
    pairs: Seq<(Seq<char>, Seq<char>)>,
    key: Option<Seq<u8>>,
)
    ensures
        (first_step(policy, stored, pairs, key) matches StepView::Respond(r) && r.status
            == Status::BadRequest) <==> (policy.is_some() && !supplied(pairs).is_valid()
            && !stored.is_valid()),
{
}

/// Without a policy the answer is a success with an empty JSON object,
/// whatever was sent or stored, and the endpoint is not asked.
pub proof fn lemma_open_without_policy(
    stored: CredentialsView,
    pairs: Seq<(Seq<char>, Seq<char>)>,
    key: Option<Seq<u8>>,
)
    ensures
        first_step(None, stored, pairs, key) == StepView::Respond(open_door()),
        open_door().status == Status::Success,
        open_door().body == "{}"@,
{
}

/// Of all failures, only the lack of credentials is a bad request.
pub proof fn lemma_only_credentials_are_a_bad_request(failure: Failure)
    ensures
        failure.status_spec() == Status::BadRequest <==> failure == Failure::NoCredentials,
        failure.status_spec() != Status::BadRequest ==> failure.status_spec()
            == Status::InternalServerError,
{
}

} // verus!
