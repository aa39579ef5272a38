//! The holder's side: answering a challenge with a signed token.
//!
//! Fetching the challenge and handing the token in are left to the caller.
//! What lies between is here: reading the nonce out of the challenge, making
//! a key pair, and building and signing the token that embeds the public key.

use crate::error::ProducerError;
use crate::jose::{
    carried, encode_with_signer, es256_name, es256_signer_from_jwk, generate_p256_key,
    header_claims, jwk_admissible, jwk_parameters, new_header, new_payload, no_claims,
    payload_claims, private_scalar, public_key_of, set_jwk, set_text_claim, set_token_type,
    signs_with_es256,
};
use crate::json::{all_text, json_as_str, json_get, json_parsing, parse_json, shallow, Json};
use crate::token::{declared_algorithm, header_document, payload_document, segments};
use crate::verification::{key_claim, nonce_claim};
use josekit::jwk::Jwk;
use josekit::jws::JwsHeader;
use josekit::jwt::JwtPayload;
use vstd::prelude::*;

verus! {

/// The header claim that marks the type of a token.
pub open spec fn type_claim() -> Seq<char> {
    "typ"@
}

/// The type that an attestation token declares.
pub open spec fn token_type() -> Seq<char> {
    "JWT"@
}

/// The nonce that the body of a challenge response names: the text of the
/// member `nonce` of the JSON object that the body holds.
pub open spec fn challenge_of(body: Seq<u8>) -> Option<Seq<char>> {
    match json_parsing(body) {
        Some(document) => match document.member(nonce_claim()) {
            Some(Json::String(nonce)) => Some(nonce),
            _ => None,
        },
        None => None,
    }
}

/// The claims of the header of an attestation token for a key with the
/// given parameters: the type marker and the embedded key.
pub open spec fn attestation_header_claims(parameters: Map<Seq<char>, Json>) -> Map<Seq<char>, Json> {
    no_claims().insert(type_claim(), Json::String(token_type())).insert(
        key_claim(),
        Json::Object(parameters),
    )
}

/// The claims of the payload of an attestation token for a nonce.
pub open spec fn challenge_payload_claims(nonce: Seq<char>) -> Map<Seq<char>, Json> {
    no_claims().insert(nonce_claim(), Json::String(nonce))
}

/// What a header and a payload hand to the signer is what the signed token
/// carries: the token declares the one supported algorithm, its header holds
/// the given claims, but for the algorithm and the key identifier, and its
/// payload holds the given claims.
pub open spec fn carries(
    token: Seq<char>,
    header: Map<Seq<char>, Json>,
    payload: Map<Seq<char>, Json>,
) -> bool {
    &&& declared_algorithm(token) == Some(es256_name())
    &&& header_document(token) matches Some(Json::Object(members)) && carried(members) == carried(
        header,
    )
    &&& payload_document(token) == Some(Json::Object(payload))
}

/// The token answers the nonce: it declares the one supported algorithm,
/// its header holds the type marker and embeds an admissible key without a
/// private scalar, and its payload names the nonce and nothing else.
pub open spec fn attests(token: Seq<char>, nonce: Seq<char>) -> bool {
    &&& declared_algorithm(token) == Some(es256_name())
    &&& header_document(token) matches Some(header) && header.member(type_claim()) == Some(
        Json::String(token_type()),
    ) && (header.member(key_claim()) matches Some(Json::Object(parameters)) && jwk_admissible(
        parameters,
    ) && !parameters.contains_key(private_scalar()))
    &&& payload_document(token) == Some(Json::Object(challenge_payload_claims(nonce)))
}

/// The header of an attestation token around a key of strings is shallow,
/// and so is the payload for any nonce.
pub proof fn attestation_claims_are_shallow(parameters: Map<Seq<char>, Json>, nonce: Seq<char>)
    requires
        all_text(parameters),
    ensures
        shallow(attestation_header_claims(parameters)),
        shallow(challenge_payload_claims(nonce)),
{
    let header = attestation_header_claims(parameters);
    assert forall|name: Seq<char>| #[trigger] header.contains_key(name) implies (header[name]
        is String || (header[name] matches Json::Object(inner) && all_text(inner))) by {
        if name != key_claim() {
            assert(name == type_claim());
        }
    }
}

/// A token that carries the header and the payload of an attestation, built
/// around an admissible public key, answers the nonce.
pub proof fn carried_attestation_attests(
    token: Seq<char>,
    parameters: Map<Seq<char>, Json>,
    nonce: Seq<char>,
)
    requires
        carries(token, attestation_header_claims(parameters), challenge_payload_claims(nonce)),
        jwk_admissible(parameters),
        !parameters.contains_key(private_scalar()),
    ensures
        attests(token, nonce),
{
    reveal_strlit("typ");
    reveal_strlit("jwk");
    reveal_strlit("alg");
    reveal_strlit("kid");
    let header = attestation_header_claims(parameters);
    let members = header_document(token)->0->Object_0;
    assert("typ"@[0] == 't' && "jwk"@[0] == 'j' && "alg"@[0] == 'a' && "kid"@[0] == 'k');
    assert(carried(header).contains_key(type_claim()));
    assert(carried(header).contains_key(key_claim()));
    assert(carried(members).contains_key(type_claim()));
    assert(carried(members).contains_key(key_claim()));
    assert(members[type_claim()] == carried(members)[type_claim()]);
    assert(members[key_claim()] == carried(members)[key_claim()]);
}

/// Reads the nonce out of the body of a challenge response.
pub fn challenge_nonce(body: &[u8]) -> (read: Result<String, ProducerError>)
    ensures
        match read {
            Ok(nonce) => challenge_of(body@) == Some(nonce@),
            Err(error) => error == ProducerError::ChallengeFetchFailed && challenge_of(body@)
                is None,
        },
{
    let document = match parse_json(body) {
        Ok(document) => document,
        Err(_) => { return Err(ProducerError::ChallengeFetchFailed); },
    };
    let member = match json_get(&document, "nonce") {
        Some(member) => member,
        None => { return Err(ProducerError::ChallengeFetchFailed); },
    };
    match json_as_str(member) {
        Some(nonce) => Ok(nonce.to_owned()),
        None => Err(ProducerError::ChallengeFetchFailed),
    }
}

/// Builds the header of an attestation token around a public key.
pub fn attestation_header(public_key: Jwk) -> (header: JwsHeader)
    ensures
        header_claims(header) == attestation_header_claims(jwk_parameters(public_key)),
{
    let mut header = new_header();
    set_token_type(&mut header, "JWT");
    set_jwk(&mut header, public_key);
    header
}

/// Builds the payload of an attestation token: the nonce, and nothing else.
pub fn challenge_payload(nonce: &str) -> (payload: JwtPayload)
    ensures
        payload_claims(payload) == challenge_payload_claims(nonce@),
{
    let mut payload = new_payload();
    let set = set_text_claim(&mut payload, "nonce", nonce);
    proof {
        reveal_strlit("nonce");
        reveal_strlit("exp");
        reveal_strlit("nbf");
        reveal_strlit("iat");
        assert("nonce"@.len() == 5 && "exp"@.len() == 3 && "nbf"@.len() == 3 && "iat"@.len() == 3);
        assert(set is Ok);
    }
    payload
}

/// Signs a payload and a header with a private key, for the one supported
/// algorithm.
///
/// The token is three segments. Where the claims of header and payload are
/// shallow, the token carries them.
pub fn sign_attestation(payload: &JwtPayload, header: &JwsHeader, key: &Jwk) -> (signed: Result<
    String,
    ProducerError,
>)
    requires
        jwk_admissible(jwk_parameters(*key)),
    ensures
        match signed {
            Ok(token) => segments(token@) is Some && (shallow(header_claims(*header)) && shallow(
                payload_claims(*payload),
            ) ==> carries(token@, header_claims(*header), payload_claims(*payload))),
            Err(error) => error == ProducerError::SigningFailed,
        },
{
    let signer = match es256_signer_from_jwk(key) {
        Ok(signer) => signer,
        Err(_) => { return Err(ProducerError::SigningFailed); },
    };
    assert(signs_with_es256(signer));
    match encode_with_signer(payload, header, &signer) {
        Ok(token) => Ok(token),
        Err(_) => Err(ProducerError::SigningFailed),
    }
}

/// Answers a nonce: makes a fresh key pair, and builds and signs a token
/// that embeds the public key and names the nonce.
pub fn attest(nonce: &str) -> (answer: Result<String, ProducerError>)
    ensures
        match answer {
            Ok(token) => segments(token@) is Some && attests(token@, nonce@),
            Err(error) => error == ProducerError::SigningFailed,
        },
{
    let key = match generate_p256_key() {
        Ok(key) => key,
        Err(_) => { return Err(ProducerError::SigningFailed); },
    };
    let public_key = match public_key_of(&key) {
        Ok(public_key) => public_key,
        Err(_) => { return Err(ProducerError::SigningFailed); },
    };
    let ghost parameters = jwk_parameters(public_key);
    let header = attestation_header(public_key);
    let payload = challenge_payload(nonce);
    proof {
        attestation_claims_are_shallow(parameters, nonce@);
    }
    let signed = sign_attestation(&payload, &header, &key);
    proof {
        if signed is Ok {
            carried_attestation_attests(signed->Ok_0@, parameters, nonce@);
        }
    }
    signed
}

/// Answers a challenge response: reads its nonce and attests to it.
///
/// Fails with `ChallengeFetchFailed` exactly when the body names no nonce.
/// A token that comes back answers the nonce that the body names.
pub fn respond_to_challenge(body: &[u8]) -> (answer: Result<String, ProducerError>)
    ensures
        challenge_of(body@) is None <==> answer == Err::<String, _>(
            ProducerError::ChallengeFetchFailed,
        ),
        match answer {
            Ok(token) => segments(token@) is Some && (challenge_of(body@) matches Some(nonce)
                && attests(token@, nonce)),
            Err(error) => error != ProducerError::SubmissionFailed,
        },
{
    match challenge_nonce(body) {
        Ok(nonce) => attest(nonce.as_str()),
        Err(error) => Err(error),
    }
}

} // verus!
