//! Verification of attestation tokens.
//!
//! A token is checked in a fixed order: its shape and header, the key it
//! embeds, its signature under that key, its nonce claim, and at last the
//! nonce itself, which is consumed. The first check that fails decides the
//! error, and only a token that passes all of them changes the registry.

use crate::encoding::decode_base64url;
use crate::error::VerificationError;
use crate::jose::{
    decode_with_verifier, es256_name, es256_verified_claims, es256_verifier,
    es256_verifier_from_jwk, jwk_admissible, jwk_from_members, jwk_parameters, made_for_es256,
    payload_claim, payload_claims,
};
use crate::json::{json_as_object, json_as_str, json_get, json_value, parse_json, Json};
use crate::registry::{after_consume, consumable, NonceRegistry};
use crate::token::{
    declared_algorithm, header_document, segments_iff_two_separators, separator_count,
    split_segments,
};
use josekit::jwk::Jwk;
use josekit::jws::alg::ecdsa::EcdsaJwsVerifier;
use josekit::jwt::JwtPayload;
use vstd::prelude::*;

verus! {

/// The header claim that embeds the public key.
pub open spec fn key_claim() -> Seq<char> {
    "jwk"@
}

/// The payload claim that names the nonce.
pub open spec fn nonce_claim() -> Seq<char> {
    "nonce"@
}

/// The parameters of the key that a header embeds.
///
/// The key is missing where the header has no key claim or the claim is not
/// an object, and invalid where the object is not admissible as a key.
pub open spec fn embedded_key(header: Json) -> Result<Map<Seq<char>, Json>, VerificationError> {
    match header.member(key_claim()) {
        Some(Json::Object(parameters)) => if jwk_admissible(parameters) {
            Ok(parameters)
        } else {
            Err(VerificationError::InvalidKey)
        },
        _ => Err(VerificationError::MissingKey),
    }
}

/// The nonce that a set of claims names: the text of its nonce claim.
pub open spec fn claimed_nonce(claims: Map<Seq<char>, Json>) -> Result<Seq<char>, VerificationError> {
    if claims.contains_key(nonce_claim()) {
        match claims[nonce_claim()] {
            Json::String(nonce) => Ok(nonce),
            _ => Err(VerificationError::MissingNonceClaim),
        }
    } else {
        Err(VerificationError::MissingNonceClaim)
    }
}

/// The claims that a token proves under a key with the given parameters.
///
/// The key is invalid where no verifier for the one supported algorithm can
/// be made of it. The signature is invalid where the header declares another
/// algorithm, where the signature does not verify, and where the payload
/// cannot be decoded.
pub open spec fn proven_claims(token: Seq<char>, parameters: Map<Seq<char>, Json>) -> Result<
    Map<Seq<char>, Json>,
    VerificationError,
> {
    match es256_verifier(parameters) {
        Some(verifier) => if declared_algorithm(token) != Some(es256_name()) {
            Err(VerificationError::SignatureInvalid)
        } else {
            match es256_verified_claims(token, verifier) {
                Some(claims) => Ok(claims),
                None => Err(VerificationError::SignatureInvalid),
            }
        },
        None => Err(VerificationError::InvalidKey),
    }
}

/// The nonce that a token answers, by every check that does not ask the
/// registry.
pub open spec fn answered_nonce(token: Seq<char>) -> Result<Seq<char>, VerificationError> {
    match header_document(token) {
        Some(header) => match embedded_key(header) {
            Ok(parameters) => match proven_claims(token, parameters) {
                Ok(claims) => claimed_nonce(claims),
                Err(error) => Err(error),
            },
            Err(error) => Err(error),
        },
        None => Err(VerificationError::MalformedToken),
    }
}

/// The outcome of redeeming a nonce against a set of outstanding nonces.
pub open spec fn redemption(nonce: Seq<char>, outstanding: Set<Seq<char>>) -> Result<
    (),
    VerificationError,
> {
    if consumable(outstanding, nonce) {
        Ok(())
    } else {
        Err(VerificationError::NonceInvalidOrReused)
    }
}

/// The outcome of verifying a token against a set of outstanding nonces.
pub open spec fn verdict(token: Seq<char>, outstanding: Set<Seq<char>>) -> Result<
    (),
    VerificationError,
> {
    match answered_nonce(token) {
        Ok(nonce) => redemption(nonce, outstanding),
        Err(error) => Err(error),
    }
}

/// The outstanding nonces after a token was verified: the answered nonce is
/// gone if the token passed, and nothing has changed if it did not.
pub open spec fn after_verification(token: Seq<char>, outstanding: Set<Seq<char>>) -> Set<Seq<char>> {
    match verdict(token, outstanding) {
        Ok(_) => after_consume(outstanding, answered_nonce(token)->Ok_0),
        Err(_) => outstanding,
    }
}

/// Reads the header of a token: cuts the token into its segments, decodes
/// the first and parses it.
pub fn decode_jwt_header(token: &str) -> (decoded: Result<serde_json::Value, VerificationError>)
    ensures
        match decoded {
            Ok(header) => header_document(token@) == Some(json_value(header)),
            Err(error) => error == VerificationError::MalformedToken && header_document(token@)
                is None,
        },
{
    let parts = match split_segments(token) {
        Some(parts) => parts,
        None => { return Err(VerificationError::MalformedToken); },
    };
    let bytes = match decode_base64url(parts.header) {
        Ok(bytes) => bytes,
        Err(_) => { return Err(VerificationError::MalformedToken); },
    };
    match parse_json(bytes.as_slice()) {
        Ok(header) => Ok(header),
        Err(_) => Err(VerificationError::MalformedToken),
    }
}

/// Takes the embedded key out of a header.
pub fn extract_key(header: &serde_json::Value) -> (extracted: Result<Jwk, VerificationError>)
    ensures
        match extracted {
            Ok(key) => embedded_key(json_value(*header)) == Ok::<_, VerificationError>(
                jwk_parameters(key),
            ),
            Err(error) => embedded_key(json_value(*header)) == Err::<Map<Seq<char>, Json>, _>(error),
        },
{
    let claim = match json_get(header, "jwk") {
        Some(claim) => claim,
        None => { return Err(VerificationError::MissingKey); },
    };
    let members = match json_as_object(claim) {
        Some(members) => members,
        None => { return Err(VerificationError::MissingKey); },
    };
    match jwk_from_members(members) {
        Ok(key) => Ok(key),
        Err(_) => Err(VerificationError::InvalidKey),
    }
}

/// Reads the nonce that a payload names.
pub fn nonce_of<'a>(payload: &'a JwtPayload) -> (named: Result<&'a str, VerificationError>)
    ensures
        match named {
            Ok(nonce) => claimed_nonce(payload_claims(*payload)) == Ok::<_, VerificationError>(
                nonce@,
            ),
            Err(error) => claimed_nonce(payload_claims(*payload)) == Err::<Seq<char>, _>(error),
        },
{
    let claim = match payload_claim(payload, "nonce") {
        Some(claim) => claim,
        None => { return Err(VerificationError::MissingNonceClaim); },
    };
    match json_as_str(claim) {
        Some(nonce) => Ok(nonce),
        None => Err(VerificationError::MissingNonceClaim),
    }
}

/// Checks the signature of a token under a key, and hands out the payload
/// that the signature covers.
pub fn check_signature(token: &str, key: &Jwk) -> (checked: Result<JwtPayload, VerificationError>)
    requires
        jwk_admissible(jwk_parameters(*key)),
    ensures
        match checked {
            Ok(payload) => proven_claims(token@, jwk_parameters(*key)) == Ok::<_, VerificationError>(
                payload_claims(payload),
            ),
            Err(error) => proven_claims(token@, jwk_parameters(*key)) == Err::<
                Map<Seq<char>, Json>,
                _,
            >(error),
        },
{
    let verifier: EcdsaJwsVerifier = match es256_verifier_from_jwk(key) {
        Ok(verifier) => verifier,
        Err(_) => { return Err(VerificationError::InvalidKey); },
    };
    assert(made_for_es256(verifier));
    match decode_with_verifier(token, &verifier) {
        Ok(payload) => Ok(payload),
        Err(_) => Err(VerificationError::SignatureInvalid),
    }
}

/// Runs every check that does not ask the registry, and hands out the
/// nonce that the token answers.
///
/// No registry is needed for this part, which holds all the decoding and
/// the signature check: a server can do it before it takes its lock.
pub fn check_token(token: &str) -> (checked: Result<String, VerificationError>)
    ensures
        match checked {
            Ok(nonce) => answered_nonce(token@) == Ok::<_, VerificationError>(nonce@),
            Err(error) => answered_nonce(token@) == Err::<Seq<char>, _>(error),
        },
{
    let header = match decode_jwt_header(token) {
        Ok(header) => header,
        Err(error) => { return Err(error); },
    };
    let key = match extract_key(&header) {
        Ok(key) => key,
        Err(error) => { return Err(error); },
    };
    let payload = match check_signature(token, &key) {
        Ok(payload) => payload,
        Err(error) => { return Err(error); },
    };
    match nonce_of(&payload) {
        Ok(nonce) => Ok(nonce.to_owned()),
        Err(error) => Err(error),
    }
}

/// Consumes the nonce that a checked token answers: the last check.
///
/// Succeeds exactly when the nonce is outstanding, and then removes it; a
/// nonce that is not outstanding changes nothing.
pub fn redeem(registry: &mut NonceRegistry, nonce: &str) -> (outcome: Result<(), VerificationError>)
    requires
        old(registry).wf(),
    ensures
        final(registry).wf(),
        outcome == redemption(nonce@, old(registry)@),
        final(registry)@ == after_consume(old(registry)@, nonce@),
        outcome is Err ==> final(registry)@ == old(registry)@,
        final(registry).issued() == old(registry).issued(),
{
    if registry.consume(nonce) {
        Ok(())
    } else {
        proof {
            assert(final(registry)@ =~= old(registry)@);
        }
        Err(VerificationError::NonceInvalidOrReused)
    }
}

/// Verifies an attestation token and consumes the nonce that it answers.
///
/// Succeeds exactly when the token passes every check and its nonce is
/// outstanding; the nonce is then consumed. On every failure the registry is
/// left as it was.
pub fn verify_attestation(registry: &mut NonceRegistry, token: &str) -> (outcome: Result<
    (),
    VerificationError,
>)
    requires
        old(registry).wf(),
    ensures
        final(registry).wf(),
        outcome == verdict(token@, old(registry)@),
        final(registry)@ == after_verification(token@, old(registry)@),
        final(registry).issued() == old(registry).issued(),
        outcome is Err ==> final(registry)@ == old(registry)@,
{
    match check_token(token) {
        Ok(nonce) => redeem(registry, nonce.as_str()),
        Err(error) => Err(error),
    }
}

/// Checking a token and then redeeming its nonce is verifying it: the two
/// steps give the verdict, and leave what verification leaves.
pub proof fn check_then_redeem_is_verification(token: Seq<char>, outstanding: Set<Seq<char>>)
    ensures
        answered_nonce(token) matches Ok(nonce) ==> verdict(token, outstanding) == redemption(
            nonce,
            outstanding,
        ) && after_verification(token, outstanding) =~= after_consume(outstanding, nonce),
        answered_nonce(token) matches Err(error) ==> verdict(token, outstanding) == Err::<(), _>(
            error,
        ) && after_verification(token, outstanding) == outstanding,
{
}

/// A token that has passed is refused when it is presented again: its nonce
/// is no longer outstanding.
pub proof fn resubmission_is_refused(token: Seq<char>, outstanding: Set<Seq<char>>)
    requires
        verdict(token, outstanding) is Ok,
    ensures
        verdict(token, after_verification(token, outstanding)) == Err::<(), _>(
            VerificationError::NonceInvalidOrReused,
        ),
{
}

/// A token that is refused leaves every outstanding nonce outstanding, and
/// a token that passes removes the nonce that it answers and no other.
pub proof fn verification_consumes_at_most_its_nonce(
    token: Seq<char>,
    outstanding: Set<Seq<char>>,
    other: Seq<char>,
)
    requires
        outstanding.contains(other),
        verdict(token, outstanding) is Err || answered_nonce(token) != Ok::<_, VerificationError>(
            other,
        ),
    ensures
        after_verification(token, outstanding).contains(other),
{
}

/// Every check but the last is decided by the token alone: an error other
/// than `NonceInvalidOrReused` comes whatever is outstanding.
pub proof fn earlier_checks_ignore_the_registry(
    token: Seq<char>,
    outstanding: Set<Seq<char>>,
    elsewhere: Set<Seq<char>>,
)
    requires
        verdict(token, outstanding) is Err,
        verdict(token, outstanding) != Err::<(), _>(VerificationError::NonceInvalidOrReused),
    ensures
        verdict(token, elsewhere) == verdict(token, outstanding),
{
}

/// A token that does not hold exactly two dots is malformed, whatever else
/// it holds and whatever is outstanding.
pub proof fn wrong_shape_is_malformed(token: Seq<char>, outstanding: Set<Seq<char>>)
    requires
        separator_count(token) != 2,
    ensures
        verdict(token, outstanding) == Err::<(), _>(VerificationError::MalformedToken),
        after_verification(token, outstanding) == outstanding,
{
    segments_iff_two_separators(token);
}

/// A token whose header is a document without the key claim is refused for
/// its missing key.
pub proof fn keyless_header_is_refused(token: Seq<char>, outstanding: Set<Seq<char>>)
    requires
        header_document(token) matches Some(header) && header.member(key_claim()) is None,
    ensures
        verdict(token, outstanding) == Err::<(), _>(VerificationError::MissingKey),
        after_verification(token, outstanding) == outstanding,
{
}

/// A token whose signature does not verify under the key that its own
/// header embeds is refused for its signature, even where it names a nonce
/// that is outstanding; no nonce is consumed.
pub proof fn unproven_token_is_refused(token: Seq<char>, outstanding: Set<Seq<char>>)
    requires
        header_document(token) matches Some(header) && embedded_key(header) matches Ok(parameters)
            && es256_verifier(parameters) matches Some(verifier) && es256_verified_claims(
            token,
            verifier,
        ) is None,
    ensures
        verdict(token, outstanding) == Err::<(), _>(VerificationError::SignatureInvalid),
        after_verification(token, outstanding) == outstanding,
{
}

/// A token whose header does not declare the one supported algorithm never
/// passes, whatever its key and its signature; no nonce is consumed.
pub proof fn other_algorithm_is_refused(token: Seq<char>, outstanding: Set<Seq<char>>)
    requires
        declared_algorithm(token) != Some(es256_name()),
    ensures
        verdict(token, outstanding) is Err,
        after_verification(token, outstanding) == outstanding,
{
}

/// A token passes exactly when its checks name a nonce and that nonce is
/// outstanding.
pub proof fn passes_iff_answers_outstanding_nonce(token: Seq<char>, outstanding: Set<Seq<char>>)
    ensures
        verdict(token, outstanding) is Ok <==> (answered_nonce(token) matches Ok(nonce)
            && outstanding.contains(nonce)),
{
}

} // verus!
