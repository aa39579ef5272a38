use attestation::error::ProducerError;
use attestation::producer::{
    attest, attestation_header, challenge_nonce, challenge_payload, respond_to_challenge,
    sign_attestation,
};
use attestation::registry::NonceRegistry;
use attestation::token::split_segments;
use attestation::verification::{decode_jwt_header, verify_attestation};
use josekit::jwk::alg::ec::EcCurve;
use base64::engine::general_purpose::URL_SAFE_NO_PAD;
use base64::Engine;
use josekit::jwk::Jwk;
use josekit::jwt::JwtPayload;
use serde_json::Value;

#[test]
fn nonce_is_read_from_a_challenge() {
    assert_eq!(challenge_nonce(b"{\"nonce\":\"abc\"}"), Ok("abc".to_string()));
    assert_eq!(
        challenge_nonce(b" { \"other\": 1, \"nonce\": \"7f0c\" } "),
        Ok("7f0c".to_string())
    );
    assert_eq!(challenge_nonce(b"{\"nonce\":\"\"}"), Ok(String::new()));
}

#[test]
fn challenge_without_nonce_is_a_failed_fetch() {
    for body in [
        &b""[..],
        &b"not json"[..],
        &b"{}"[..],
        &b"{\"nonce\":7}"[..],
        &b"{\"nonce\":null}"[..],
        &b"{\"Nonce\":\"abc\"}"[..],
        &b"[\"nonce\"]"[..],
        &b"\"nonce\""[..],
        &b"{\"nonce\":\"abc\"} trailing"[..],
    ] {
        assert_eq!(challenge_nonce(body), Err(ProducerError::ChallengeFetchFailed));
        assert_eq!(respond_to_challenge(body), Err(ProducerError::ChallengeFetchFailed));
    }
}

#[test]
fn header_holds_the_type_and_the_key() {
    let private = Jwk::generate_ec_key(EcCurve::P256).expect("key pair");
    let public = private.to_public_key().expect("public key");
    let header = attestation_header(public.clone());
    assert_eq!(header.claim("typ"), Some(&Value::String("JWT".to_string())));
    assert_eq!(header.jwk(), Some(public));
    assert_eq!(header.claims_set().len(), 2);
}

#[test]
fn payload_holds_the_nonce_and_nothing_else() {
    let payload = challenge_payload("n-42");
    assert_eq!(payload.claim("nonce"), Some(&Value::String("n-42".to_string())));
    assert_eq!(payload.claims_set().len(), 1);
}

#[test]
fn attestation_is_a_token_of_three_segments() {
    let token = attest("n-42").expect("token");
    let parts = split_segments(&token).expect("three segments");
    assert!(!parts.header.is_empty());
    assert!(!parts.payload.is_empty());
    assert!(!parts.signature.is_empty());
    let header = decode_jwt_header(&token).expect("header");
    assert_eq!(header.get("typ"), Some(&Value::String("JWT".to_string())));
    assert_eq!(header.get("alg"), Some(&Value::String("ES256".to_string())));
    let key = header.get("jwk").and_then(|key| key.as_object()).expect("key");
    assert_eq!(key.get("kty"), Some(&Value::String("EC".to_string())));
    assert_eq!(key.get("crv"), Some(&Value::String("P-256".to_string())));
    assert!(key.get("d").is_none());
}

#[test]
fn each_attestation_has_a_key_of_its_own() {
    let first = decode_jwt_header(&attest("n").expect("token")).expect("header");
    let second = decode_jwt_header(&attest("n").expect("token")).expect("header");
    assert_ne!(first.get("jwk"), second.get("jwk"));
}

#[test]
fn signing_needs_a_private_key() {
    let private = Jwk::generate_ec_key(EcCurve::P256).expect("key pair");
    let public = private.to_public_key().expect("public key");
    let header = attestation_header(public.clone());
    let payload = challenge_payload("n");
    assert_eq!(
        sign_attestation(&payload, &header, &public),
        Err(ProducerError::SigningFailed)
    );
    assert!(sign_attestation(&payload, &header, &private).is_ok());
}

#[test]
fn answer_to_a_challenge_passes_verification() {
    let mut registry = NonceRegistry::new();
    let nonce = registry.issue();
    let body = format!("{{\"nonce\":\"{}\"}}", nonce);
    let token = respond_to_challenge(body.as_bytes()).expect("token");
    assert_eq!(verify_attestation(&mut registry, &token), Ok(()));
}

#[test]
fn every_producer_error_has_its_message() {
    assert_eq!(ProducerError::ChallengeFetchFailed.message(), "challenge could not be fetched");
    assert_eq!(ProducerError::SigningFailed.message(), "token could not be signed");
    assert_eq!(ProducerError::SubmissionFailed.message(), "token could not be submitted");
}

fn document(segment: &str) -> Value {
    let bytes = URL_SAFE_NO_PAD.decode(segment).expect("base64url");
    serde_json::from_slice(&bytes).expect("document")
}

#[test]
fn attestation_carries_type_public_key_and_nonce() {
    let token = attest("n-42").expect("token");
    let parts = split_segments(&token).expect("three segments");

    let header = document(parts.header);
    let header = header.as_object().expect("object");
    assert_eq!(header.len(), 3);
    assert_eq!(header.get("typ"), Some(&Value::String("JWT".to_string())));
    assert_eq!(header.get("alg"), Some(&Value::String("ES256".to_string())));
    let key = header.get("jwk").and_then(|key| key.as_object()).expect("key");
    assert!(key.get("d").is_none());
    assert!(key.values().all(|member| member.is_string()));
    let mut names: Vec<&str> = key.keys().map(|name| name.as_str()).collect();
    names.sort();
    assert_eq!(names, vec!["crv", "kty", "x", "y"]);
    assert!(Jwk::from_map(key.clone()).is_ok());

    let payload = document(parts.payload);
    let payload = payload.as_object().expect("object");
    assert_eq!(payload.len(), 1);
    assert_eq!(payload.get("nonce"), Some(&Value::String("n-42".to_string())));
}

#[test]
fn signed_token_carries_what_was_handed_in() {
    let private = Jwk::generate_ec_key(EcCurve::P256).expect("key pair");
    let public = private.to_public_key().expect("public key");
    let header = attestation_header(public.clone());
    let mut payload = JwtPayload::new();
    payload
        .set_claim("nonce", Some(Value::String("a \"quoted\" \u{e9}".to_string())))
        .expect("claim");
    payload
        .set_claim("sub", Some(Value::String("holder".to_string())))
        .expect("claim");
    let token = sign_attestation(&payload, &header, &private).expect("token");
    let parts = split_segments(&token).expect("three segments");

    let carried_payload = document(parts.payload);
    assert_eq!(carried_payload.as_object(), Some(payload.claims_set()));

    let mut carried_header = document(parts.header).as_object().expect("object").clone();
    assert_eq!(carried_header.remove("alg"), Some(Value::String("ES256".to_string())));
    assert_eq!(&carried_header, header.claims_set());
}

#[test]
fn answer_names_the_nonce_of_the_challenge() {
    let token = respond_to_challenge(b"{\"nonce\":\"c-7\"}").expect("token");
    let parts = split_segments(&token).expect("three segments");
    let payload = document(parts.payload);
    assert_eq!(payload.get("nonce"), Some(&Value::String("c-7".to_string())));
    assert_eq!(payload.as_object().map(|claims| claims.len()), Some(1));
}
