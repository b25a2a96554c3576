use liftinstall::config::{AuthenticationConfig, BaseAttributes, Config, JWTValidation};
use liftinstall::credentials::Credentials;
use liftinstall::framework::{Database, InstallerFramework};
use liftinstall::response::{ContentType, Response, Status};
use liftinstall::services::authentication::{
    commit, conclude, decide, get_text, handle, Failure, Pending, RemoteReply, Step, USER_AGENT,
};
use liftinstall::token::{decode, decode_key, SigningAlgorithm, TokenCheck};
use serde_json::{Number, Value};

const PUBLIC_KEY: &str = "MIIBCgKCAQEAztzwiqeLNFhv7cWQA1DLWFku3OyrKNvV5BBDgpB8uuXXIpfyjiY6rjNmGe05IRg4Mwq9LJTP+7ibdCkHqESoEj9FK1RFxS8aIlhl9aqbADMYq31/CCrBsUeZlusybo29mn9T+0FFz8IgzIY587WUx++Gq4UKhTJovQoVHhUyHWzFkCURY7B58yiBrxX+TaNNRwxuzajL23AxbiB7rNKWoG/9Zry9n6UQXQNjXiVegN0evE8qpO1Iw3KZCnsgtcKCZgNiETMZNl7NdvcR8UQaGd1H3kKI62AuOhODqAne/L705QYD+U6AuZjZeM2pPkp6Uqpg3kpGdSdpPzJmZJNIhQIDAQAB";

const PRIVATE_KEY: [&str; 21] = [
    "MIIEowIBAAKCAQEAztzwiqeLNFhv7cWQA1DLWFku3OyrKNvV5BBDgpB8uuXXIpfyjiY6rjNmGe05",
    "IRg4Mwq9LJTP+7ibdCkHqESoEj9FK1RFxS8aIlhl9aqbADMYq31/CCrBsUeZlusybo29mn9T+0FF",
    "z8IgzIY587WUx++Gq4UKhTJovQoVHhUyHWzFkCURY7B58yiBrxX+TaNNRwxuzajL23AxbiB7rNKW",
    "oG/9Zry9n6UQXQNjXiVegN0evE8qpO1Iw3KZCnsgtcKCZgNiETMZNl7NdvcR8UQaGd1H3kKI62Au",
    "OhODqAne/L705QYD+U6AuZjZeM2pPkp6Uqpg3kpGdSdpPzJmZJNIhQIDAQABAoIBABVF1Di2BRMz",
    "ewMtG2Oz5c1mknKmpe1UOhkzcPXWzPTdWPPWQ1vJ46PxZjEJW6QjHPhmxNB2VzMQJ3BZHc/4i34g",
    "4oiTqH8gGmRoycdrLXhmSMWt6Kfa2cNU1R8Xfb6vtc1TBbxjWH4GfR/7N69vv2aWI7e0vUG4TtwN",
    "0uEeleI/k3USuBjx+2QMlQUZRS8uo1tidMVHrPByA45i/sV5gfsyXFbxGzfKHV7xE7rFr7a8q4Xg",
    "756MbJSYTN7yiSA2OwwYeBSIK5m+FsXeiG7Nn/uPKdbXBYvREJEvfTfu8gbqH4mrW4cma3h/LQ04",
    "/sp2NRzstTJl51SxMPt/oxHZlusCgYEA6jVYK0EC6Ng2+vKSfQCms/v5CnhOHy3lOJhg0LCZkgqA",
    "RXrOYh1CypV9RCgBKCBwBPWEqQSKt601PJZ9q0LRMHJyFqnz49eIa6FQPds86gghaFuRo7EitMaN",
    "sBARXNmc7rd+x4arcB+QOoR0RvcwkT+on8ghMZypd4b/zFr2mDsCgYEA4hxAWRJl/YNnPT9cbT8X",
    "SCMt+b0OKhSxZM+mcJp6B+ussUgfbZM8kPzRoS7VIM3YrvEbn5jme9o/NGhQL/cKfo1s3DicXJfi",
    "O5+MpTMkMozgMMxeQ2rgMAkkwm1m/UCCNDk7S+0o3MsV86o4OPOhE8iLRj0vrp/WI4eXX5RAVj8C",
    "gYEApU3hXSYVl6KDq7tqCTBceMxviiQ/f2I1Vyy1qJX8zkb7Ig77e+SLL9EzCNfzeQ7sAZQIfgLm",
    "pZ1q5ciSCj6uxzL/s19g9H87mjvRFteWttfmPHHk6VQs2ssJVisBFjfBu/tnUAyNFCYy9hpmt2/g",
    "p6P2sE/gndOlCOgPw3ywb+ECgYBULCo0PmojVuB+53Bz5tG29Amwd5WnSq7DFZ4jOw6EllJiaLPy",
    "aaZZXxR2yWVj4d1xOqaK4jOjFZsD2nVHddK9S86jqJtkyNHaWknUUdZ+zvzCjcHlnQq6Nx0tF+cI",
    "DhSqdkfBuxbEIwIYBF0Lrn5fS/+09SAkBLKF5XsPhLPypwKBgFpGgvMFAoeZu0fSXSkBM+zYkyTk",
    "phLML1FgfkqsWzSKy7HI1rMyR7xIXTxfUy1vV+L26lO0jrVso8Vroe2sAgu0t7Of+79lktOXBucA",
    "ONOPZbNMgOJoxAyQIXiRz6QQJcWYyOYu08XKPNWaKsg+p3qPgq2bxlpWzgmOLpZGx13g",
];

const FAR_FUTURE: u64 = 4102444800;

fn private_key() -> Vec<u8> {
    #[allow(deprecated)]
    base64::decode(PRIVATE_KEY.concat()).unwrap()
}

fn pair(username: &str, token: &str) -> Credentials {
    Credentials::new(username.to_string(), token.to_string())
}

fn policy(key: &str, validation: Option<JWTValidation>) -> Config {
    Config {
        authentication: Some(AuthenticationConfig {
            pub_key_base64: key.to_string(),
            auth_url: "https://auth.example.org/jwt".to_string(),
            validation,
        }),
        json: "{}".to_string(),
    }
}

fn rule(iss: Option<&str>, aud: Option<&str>) -> Option<JWTValidation> {
    Some(JWTValidation { iss: iss.map(|s| s.to_string()), aud: aud.map(|s| s.to_string()) })
}

fn framework(config: Option<Config>, stored: Credentials) -> InstallerFramework {
    let mut fw = InstallerFramework::new_with_db(
        BaseAttributes { name: "demo".to_string(), target_url: "https://example.org".to_string() },
        Database { credentials: stored },
    );
    if let Some(c) = config {
        fw.set_config(c);
    }
    fw
}

fn payload(iss: &str, aud: &str, exp: u64) -> Value {
    let mut m = serde_json::Map::new();
    m.insert("sub".to_string(), Value::String("user-1".to_string()));
    m.insert("iss".to_string(), Value::String(iss.to_string()));
    m.insert("aud".to_string(), Value::String(aud.to_string()));
    m.insert("exp".to_string(), Value::Number(Number::from(exp)));
    m.insert("roles".to_string(), Value::Array(vec![Value::String("admin".to_string())]));
    m.insert("IsPatreonAccountLinked".to_string(), Value::Bool(true));
    m.insert("IsPatreonSubscriptionActive".to_string(), Value::Bool(false));
    Value::Object(m)
}

const EXPECTED_JSON: &str = "{\"sub\":\"user-1\",\"iss\":\"issuer\",\"aud\":\"installer\",\
    \"exp\":4102444800,\"roles\":[\"admin\"],\"releaseChannels\":[],\
    \"IsPatreonAccountLinked\":true,\"IsPatreonSubscriptionActive\":false}";

fn hs256(claims: &Value, secret: &[u8]) -> String {
    jsonwebtoken::encode(
        &jsonwebtoken::Header::new(jsonwebtoken::Algorithm::HS256),
        claims,
        &jsonwebtoken::EncodingKey::from_secret(secret),
    )
    .unwrap()
}

fn rs256(claims: &Value) -> String {
    jsonwebtoken::encode(
        &jsonwebtoken::Header::new(jsonwebtoken::Algorithm::RS256),
        claims,
        &jsonwebtoken::EncodingKey::from_rsa_der(&private_key()),
    )
    .unwrap()
}

fn expect_response(step: Step) -> Response {
    match step {
        Step::Respond(response) => response,
        other => panic!("expected a response, got {:?}", other),
    }
}

fn expect_call(step: Step) -> (liftinstall::services::authentication::RemoteCall, Pending) {
    match step {
        Step::Call(call, pending) => (call, pending),
        other => panic!("expected a call, got {:?}", other),
    }
}

fn assert_bare(response: &Response, status: Status) {
    assert_eq!(response.status, status);
    assert_eq!(response.content_type, None);
    assert_eq!(response.content_length, None);
    assert_eq!(response.body, "");
}

#[test]
fn user_agent_names_the_installer() {
    assert_eq!(USER_AGENT, "liftinstall (j-selby)");
}

#[test]
fn only_missing_credentials_are_a_bad_request() {
    assert_eq!(Failure::NoCredentials.status(), Status::BadRequest);
    for failure in
        [Failure::BadKey, Failure::RemoteFailed, Failure::TokenRejected, Failure::Unrendered]
    {
        assert_eq!(failure.status(), Status::InternalServerError);
        assert_bare(&failure.response(), Status::InternalServerError);
    }
    assert_bare(&Failure::NoCredentials.response(), Status::BadRequest);
}

#[test]
fn without_a_policy_everybody_is_let_in() {
    let config = Config { authentication: None, json: "{}".to_string() };
    for stored in [pair("", ""), pair("bob", "t2")] {
        let fw = framework(
            Some(Config { authentication: None, json: "{}".to_string() }),
            stored.duplicate(),
        );
        for body in [&b""[..], &b"username=alice&token=t1"[..], &b"garbage"[..]] {
            let response = expect_response(handle(&fw, body));
            assert_eq!(response.status, Status::Success);
            assert_eq!(response.body, "{}");
            assert_eq!(response.content_type, None);
            assert_eq!(response.content_length, None);
        }
        let response = expect_response(decide(&config, &stored, &Vec::new(), None));
        assert_eq!(response.status, Status::Success);
        assert_eq!(response.body, "{}");
    }
}

#[test]
fn no_valid_pair_is_a_bad_request() {
    let bodies: [&[u8]; 6] =
        [b"", b"username=&token=", b"username=alice", b"token=t1", b"username=alice&token=", b"x=y"];
    for stored in [pair("", ""), pair("bob", ""), pair("", "t2")] {
        let fw = framework(Some(policy("", None)), stored);
        for body in bodies {
            assert_bare(&expect_response(handle(&fw, body)), Status::BadRequest);
        }
    }
}

#[test]
fn credentials_come_before_the_key() {
    let fw = framework(Some(policy("not base64!", None)), pair("", ""));
    assert_bare(&expect_response(handle(&fw, b"username=&token=")), Status::BadRequest);
}

#[test]
fn a_key_that_is_not_base64_is_an_internal_error() {
    let fw = framework(Some(policy("not base64!", None)), pair("", ""));
    assert_bare(
        &expect_response(handle(&fw, b"username=alice&token=t1")),
        Status::InternalServerError,
    );
    let fw = framework(Some(policy("not base64!", None)), pair("bob", "t2"));
    assert_bare(&expect_response(handle(&fw, b"")), Status::InternalServerError);
}

#[test]
fn supplied_credentials_are_sent_to_the_endpoint() {
    let fw = framework(Some(policy("c2VjcmV0", None)), pair("bob", "t2"));
    let (call, pending) = expect_call(handle(&fw, b"username=alice&token=t1"));
    assert_eq!(call.url, "https://auth.example.org/jwt");
    assert_eq!(call.user_agent, "liftinstall (j-selby)");
    assert_eq!(call.username, "alice");
    assert_eq!(call.token, "t1");
    assert_eq!(pending.credentials.username, "alice");
    assert_eq!(pending.credentials.token, "t1");
    assert_eq!(pending.check.key, b"secret".to_vec());
}

#[test]
fn stored_credentials_are_sent_when_none_are_supplied() {
    let fw = framework(Some(policy("", None)), pair("bob", "t2"));
    for body in [&b""[..], &b"username=alice&token="[..], &b"username=&token=t1"[..]] {
        let (call, pending) = expect_call(handle(&fw, body));
        assert_eq!(call.username, "bob");
        assert_eq!(call.token, "t2");
        assert_eq!(pending.credentials.username, "bob");
        assert_eq!(pending.credentials.token, "t2");
    }
}

#[test]
fn form_fields_are_decoded() {
    let fw = framework(Some(policy("", None)), pair("", ""));
    let (call, _) = expect_call(handle(&fw, b"username=al%20ice%40x&token=t+1%2B"));
    assert_eq!(call.username, "al ice@x");
    assert_eq!(call.token, "t 1+");
}

#[test]
fn the_last_field_of_a_name_counts() {
    let fw = framework(Some(policy("", None)), pair("", ""));
    let (call, _) = expect_call(handle(&fw, b"username=first&token=t1&username=second"));
    assert_eq!(call.username, "second");
    assert_eq!(call.token, "t1");
    let pairs = vec![
        ("token".to_string(), "a".to_string()),
        ("username".to_string(), "u".to_string()),
        ("token".to_string(), "".to_string()),
    ];
    let step = decide(&policy("", None), &pair("", ""), &pairs, Some(Vec::new()));
    assert_bare(&expect_response(step), Status::BadRequest);
}

#[test]
fn a_validation_rule_asks_for_rs256() {
    let fw = framework(
        Some(policy(PUBLIC_KEY, rule(Some("issuer"), Some("installer")))),
        pair("bob", "t2"),
    );
    let (_, pending) = expect_call(handle(&fw, b""));
    assert_eq!(pending.check.algorithm, SigningAlgorithm::Rs256);
    assert_eq!(pending.check.issuer, Some("issuer".to_string()));
    assert_eq!(pending.check.audience, Some("installer".to_string()));
    #[allow(deprecated)]
    let key = base64::decode(PUBLIC_KEY).unwrap();
    assert_eq!(pending.check.key, key);
}

#[test]
fn no_validation_rule_asks_for_hs256() {
    let fw = framework(Some(policy("c2VjcmV0", None)), pair("bob", "t2"));
    let (_, pending) = expect_call(handle(&fw, b""));
    assert_eq!(pending.check.algorithm, SigningAlgorithm::Hs256);
    assert_eq!(pending.check.issuer, None);
    assert_eq!(pending.check.audience, None);
}

#[test]
fn keys_are_decoded_from_base64() {
    assert_eq!(decode_key(""), Some(Vec::new()));
    assert_eq!(decode_key("c2VjcmV0"), Some(b"secret".to_vec()));
    assert_eq!(decode_key("AAEC/w=="), Some(vec![0, 1, 2, 255]));
    assert_eq!(decode_key("c2VjcmV0!"), None);
    assert_eq!(decode_key("c2Vjc"), None);
}

#[test]
fn the_token_is_the_text_of_a_successful_reply() {
    let ok = get_text(RemoteReply::Answered { status: 200, body: Some("a.b.c".to_string()) });
    assert_eq!(ok.unwrap(), "a.b.c");
    let ok = get_text(RemoteReply::Answered { status: 299, body: Some("x".to_string()) });
    assert_eq!(ok.unwrap(), "x");
}

#[test]
fn every_other_reply_is_an_internal_error() {
    let replies = vec![
        RemoteReply::Unreachable,
        RemoteReply::Answered { status: 200, body: None },
        RemoteReply::Answered { status: 199, body: Some("a.b.c".to_string()) },
        RemoteReply::Answered { status: 300, body: Some("a.b.c".to_string()) },
        RemoteReply::Answered { status: 401, body: Some("denied".to_string()) },
        RemoteReply::Answered { status: 500, body: Some("a.b.c".to_string()) },
    ];
    for reply in replies {
        assert_bare(&get_text(reply).unwrap_err(), Status::InternalServerError);
    }
}

#[test]
fn a_rejected_token_stores_nothing() {
    let mut fw = framework(Some(policy("", None)), pair("bob", "t2"));
    let response = commit(&mut fw, pair("alice", "t1"), "a.b.c".to_string(), None);
    assert_bare(&response, Status::InternalServerError);
    assert_eq!(fw.database.credentials.username, "bob");
    assert_eq!(fw.database.credentials.token, "t2");
    assert_eq!(fw.authorization_token, None);
}

#[test]
fn a_payload_without_the_claims_stores_nothing() {
    let mut fw = framework(Some(policy("", None)), pair("bob", "t2"));
    let mut incomplete = payload("issuer", "installer", FAR_FUTURE);
    incomplete.as_object_mut().unwrap().remove("sub");
    let response = commit(&mut fw, pair("alice", "t1"), "a.b.c".to_string(), Some(incomplete));
    assert_bare(&response, Status::InternalServerError);
    assert_eq!(fw.database.credentials.username, "bob");
    assert_eq!(fw.database.credentials.token, "t2");
    assert_eq!(fw.authorization_token, None);
}

#[test]
fn accepted_claims_are_stored_and_answered() {
    let mut fw = framework(Some(policy("", None)), pair("bob", "t2"));
    let accepted = payload("issuer", "installer", FAR_FUTURE);
    let response = commit(&mut fw, pair("alice", "t1"), "a.b.c".to_string(), Some(accepted));
    assert_eq!(response.status, Status::Success);
    assert_eq!(response.content_type, Some(ContentType::Json));
    assert_eq!(response.content_length, Some(EXPECTED_JSON.len() as u64));
    assert_eq!(response.body, EXPECTED_JSON);
    assert_eq!(fw.database.credentials.username, "alice");
    assert_eq!(fw.database.credentials.token, "t1");
    assert_eq!(fw.authorization_token, Some("a.b.c".to_string()));
}

fn attempt(config: Config, token: &str) -> (Response, InstallerFramework) {
    let mut fw = framework(Some(config), pair("bob", "t2"));
    let (_, pending) = expect_call(handle(&fw, b"username=alice&token=t1"));
    let text = get_text(RemoteReply::Answered { status: 200, body: Some(token.to_string()) });
    let response = conclude(&mut fw, pending, text.unwrap());
    (response, fw)
}

fn assert_accepted(response: &Response, fw: &InstallerFramework, token: &str) {
    assert_eq!(response.status, Status::Success);
    assert_eq!(response.content_type, Some(ContentType::Json));
    assert_eq!(response.body, EXPECTED_JSON);
    assert_eq!(fw.database.credentials.username, "alice");
    assert_eq!(fw.database.credentials.token, "t1");
    assert_eq!(fw.authorization_token, Some(token.to_string()));
}

fn assert_rejected(response: &Response, fw: &InstallerFramework) {
    assert_bare(response, Status::InternalServerError);
    assert_eq!(fw.database.credentials.username, "bob");
    assert_eq!(fw.database.credentials.token, "t2");
    assert_eq!(fw.authorization_token, None);
}

#[test]
fn a_token_signed_with_the_secret_is_accepted() {
    let token = hs256(&payload("issuer", "installer", FAR_FUTURE), b"secret");
    let (response, fw) = attempt(policy("c2VjcmV0", None), &token);
    assert_accepted(&response, &fw, &token);
}

#[test]
fn a_token_signed_with_another_secret_is_rejected() {
    let token = hs256(&payload("issuer", "installer", FAR_FUTURE), b"other");
    let (response, fw) = attempt(policy("c2VjcmV0", None), &token);
    assert_rejected(&response, &fw);
}

#[test]
fn an_expired_token_is_rejected() {
    let token = hs256(&payload("issuer", "installer", 1000), b"secret");
    let (response, fw) = attempt(policy("c2VjcmV0", None), &token);
    assert_rejected(&response, &fw);
}

#[test]
fn a_malformed_token_is_rejected() {
    for token in ["", "abc", "a.b", "a.b.c", "a.b.c.d"] {
        let (response, fw) = attempt(policy("c2VjcmV0", None), token);
        assert_rejected(&response, &fw);
    }
}

#[test]
fn a_token_without_a_required_claim_is_rejected() {
    let mut claims = payload("issuer", "installer", FAR_FUTURE);
    claims.as_object_mut().unwrap().remove("IsPatreonAccountLinked");
    let token = hs256(&claims, b"secret");
    let (response, fw) = attempt(policy("c2VjcmV0", None), &token);
    assert_rejected(&response, &fw);
}

#[test]
fn an_rsa_token_of_the_right_issuer_and_audience_is_accepted() {
    let token = rs256(&payload("issuer", "installer", FAR_FUTURE));
    let config = policy(PUBLIC_KEY, rule(Some("issuer"), Some("installer")));
    let (response, fw) = attempt(config, &token);
    assert_accepted(&response, &fw, &token);
}

#[test]
fn an_rsa_token_is_accepted_where_the_rule_names_nothing() {
    let token = rs256(&payload("issuer", "installer", FAR_FUTURE));
    let (response, fw) = attempt(policy(PUBLIC_KEY, rule(None, None)), &token);
    assert_accepted(&response, &fw, &token);
    let (response, fw) = attempt(policy(PUBLIC_KEY, rule(Some("issuer"), None)), &token);
    assert_accepted(&response, &fw, &token);
}

#[test]
fn a_token_of_another_issuer_is_rejected() {
    let token = rs256(&payload("somebody", "installer", FAR_FUTURE));
    let config = policy(PUBLIC_KEY, rule(Some("issuer"), Some("installer")));
    let (response, fw) = attempt(config, &token);
    assert_rejected(&response, &fw);
}

#[test]
fn a_token_for_another_audience_is_rejected() {
    let token = rs256(&payload("issuer", "somebody", FAR_FUTURE));
    let config = policy(PUBLIC_KEY, rule(Some("issuer"), Some("installer")));
    let (response, fw) = attempt(config, &token);
    assert_rejected(&response, &fw);
}

#[test]
fn an_rsa_token_with_a_broken_signature_is_rejected() {
    let token = rs256(&payload("issuer", "installer", FAR_FUTURE));
    let cut = token.rfind('.').unwrap();
    let forged = format!("{}.{}", &token[..cut], "AAAA");
    let config = policy(PUBLIC_KEY, rule(Some("issuer"), Some("installer")));
    let (response, fw) = attempt(config, &forged);
    assert_rejected(&response, &fw);
}

#[test]
fn a_token_of_the_wrong_scheme_is_rejected() {
    let token = hs256(&payload("issuer", "installer", FAR_FUTURE), b"secret");
    let config = policy(PUBLIC_KEY, rule(Some("issuer"), Some("installer")));
    let (response, fw) = attempt(config, &token);
    assert_rejected(&response, &fw);
}

#[test]
fn without_a_key_the_signature_is_not_checked() {
    let token = hs256(&payload("issuer", "installer", FAR_FUTURE), b"whatever");
    let (response, fw) = attempt(policy("", None), &token);
    assert_accepted(&response, &fw, &token);
    let token = rs256(&payload("issuer", "installer", FAR_FUTURE));
    let config = policy("", rule(Some("issuer"), Some("installer")));
    let (response, fw) = attempt(config, &token);
    assert_accepted(&response, &fw, &token);
}

#[test]
fn without_a_key_the_claims_are_still_checked() {
    let token = rs256(&payload("somebody", "installer", FAR_FUTURE));
    let config = policy("", rule(Some("issuer"), Some("installer")));
    let (response, fw) = attempt(config, &token);
    assert_rejected(&response, &fw);
    let token = hs256(&payload("issuer", "installer", 1000), b"whatever");
    let (response, fw) = attempt(policy("", None), &token);
    assert_rejected(&response, &fw);
}

#[test]
fn decoding_hands_out_the_payload() {
    let claims = payload("issuer", "installer", FAR_FUTURE);
    let token = hs256(&claims, b"secret");
    let check = TokenCheck {
        algorithm: SigningAlgorithm::Hs256,
        issuer: None,
        audience: None,
        key: b"secret".to_vec(),
    };
    assert_eq!(decode(&token, &check), Some(claims));
    let check = TokenCheck { key: b"other".to_vec(), ..check };
    assert_eq!(decode(&token, &check), None);
}

#[test]
fn two_attempts_leave_the_credentials_of_the_last() {
    let token = hs256(&payload("issuer", "installer", FAR_FUTURE), b"secret");
    let mut fw = framework(Some(policy("c2VjcmV0", None)), pair("", ""));
    let (_, first) = expect_call(handle(&fw, b"username=alice&token=t1"));
    let (_, second) = expect_call(handle(&fw, b"username=carol&token=t3"));
    let a = conclude(&mut fw, first, token.clone());
    let b = conclude(&mut fw, second, token.clone());
    assert_eq!(a.status, Status::Success);
    assert_eq!(b.status, Status::Success);
    assert_eq!(fw.database.credentials.username, "carol");
    assert_eq!(fw.database.credentials.token, "t3");

    let mut fw = framework(Some(policy("c2VjcmV0", None)), pair("", ""));
    let (_, first) = expect_call(handle(&fw, b"username=alice&token=t1"));
    let (_, second) = expect_call(handle(&fw, b"username=carol&token=t3"));
    conclude(&mut fw, second, token.clone());
    conclude(&mut fw, first, token);
    assert_eq!(fw.database.credentials.username, "alice");
    assert_eq!(fw.database.credentials.token, "t1");
}
