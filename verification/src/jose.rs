//! Keys, signatures and claims, as `josekit` provides them.
//!
//! Nothing here is proved. Each item says what is taken on trust of one
//! function or type of `josekit`, over the document trees of [`Json`].

use crate::json::{all_text, json_members, json_value, shallow, Json};
use crate::token::{declared_algorithm, header_document, payload_document, segments};
use josekit::jwk::Jwk;
use josekit::jws::alg::ecdsa::{EcdsaJwsSigner, EcdsaJwsVerifier};
use josekit::jws::JwsHeader;
use josekit::jwt::JwtPayload;
use josekit::JoseError;
use vstd::prelude::*;

verus! {

/// `josekit::JoseError`, opaque to Verus.
#[verifier::external_type_specification]
#[verifier::external_body]
pub struct ExJoseError(JoseError);

/// `josekit::jwk::Jwk`, opaque to Verus.
#[verifier::external_type_specification]
#[verifier::external_body]
pub struct ExJwk(Jwk);

/// `josekit::jws::alg::ecdsa::EcdsaJwsVerifier`, opaque to Verus.
#[verifier::external_type_specification]
#[verifier::external_body]
pub struct ExEcdsaJwsVerifier(EcdsaJwsVerifier);

/// `josekit::jws::alg::ecdsa::EcdsaJwsSigner`, opaque to Verus.
#[verifier::external_type_specification]
#[verifier::external_body]
pub struct ExEcdsaJwsSigner(EcdsaJwsSigner);

/// `josekit::jwt::JwtPayload`, opaque to Verus.
#[verifier::external_type_specification]
#[verifier::external_body]
pub struct ExJwtPayload(JwtPayload);

/// `josekit::jws::JwsHeader`, opaque to Verus.
#[verifier::external_type_specification]
#[verifier::external_body]
pub struct ExJwsHeader(JwsHeader);

/// The parameters that a key holds, each with its document tree.
pub uninterp spec fn jwk_parameters(key: Jwk) -> Map<Seq<char>, Json>;

/// The claims that a payload holds, each with its document tree.
pub uninterp spec fn payload_claims(payload: JwtPayload) -> Map<Seq<char>, Json>;

/// The claims that a header holds, each with its document tree.
pub uninterp spec fn header_claims(header: JwsHeader) -> Map<Seq<char>, Json>;

/// The empty set of claims.
pub open spec fn no_claims() -> Map<Seq<char>, Json> {
    Map::empty()
}

/// Whether `Jwk::from_map` accepts a set of members as the parameters of a key.
pub uninterp spec fn jwk_admissible(members: Map<Seq<char>, Json>) -> bool;

/// What `ES256.verifier_from_jwk` makes of a key with the given parameters:
/// the verifier, or `None` where it reports an error.
pub uninterp spec fn es256_verifier(parameters: Map<Seq<char>, Json>) -> Option<EcdsaJwsVerifier>;

/// What `jwt::decode_with_verifier` makes of a token under a verifier: the
/// claims of the payload, or `None` where it reports an error.
pub uninterp spec fn es256_verified_claims(token: Seq<char>, verifier: EcdsaJwsVerifier) -> Option<
    Map<Seq<char>, Json>,
>;

/// What `ES256.signer_from_jwk` makes of a key with the given parameters:
/// the signer, or `None` where it reports an error.
pub uninterp spec fn es256_signer(parameters: Map<Seq<char>, Json>) -> Option<EcdsaJwsSigner>;

/// The parameter of a key that holds its private scalar.
pub open spec fn private_scalar() -> Seq<char> {
    "d"@
}

/// The claims that a signer leaves as they are: all but the algorithm and
/// the key identifier, which it sets itself.
pub open spec fn carried(claims: Map<Seq<char>, Json>) -> Map<Seq<char>, Json> {
    claims.remove("alg"@).remove("kid"@)
}

/// The signer is one that `ES256.signer_from_jwk` makes.
pub open spec fn signs_with_es256(signer: EcdsaJwsSigner) -> bool {
    exists|parameters: Map<Seq<char>, Json>| es256_signer(parameters) == Some(signer)
}

/// The name of the one signature algorithm in use: ECDSA on P-256 with SHA-256.
pub open spec fn es256_name() -> Seq<char> {
    "ES256"@
}

/// The verifier is one that `ES256.verifier_from_jwk` makes.
pub open spec fn made_for_es256(verifier: EcdsaJwsVerifier) -> bool {
    exists|parameters: Map<Seq<char>, Json>| es256_verifier(parameters) == Some(verifier)
}

/// Calls `Jwk::from_map` on a copy of the members.
///
/// Trusted: whether the members are accepted depends on them alone, and an
/// accepted key holds exactly those members as its parameters.
#[verifier::external_body]
pub(crate) fn jwk_from_members(members: &serde_json::Map<String, serde_json::Value>) -> (made: Result<
    Jwk,
    JoseError,
>)
    ensures
        match made {
            Ok(key) => jwk_admissible(json_members(*members)) && jwk_parameters(key) == json_members(
                *members,
            ),
            Err(_) => !jwk_admissible(json_members(*members)),
        },
{
    Jwk::from_map(members.clone())
}

/// Calls `verifier_from_jwk` on `josekit::jws::ES256`.
///
/// Trusted: the outcome depends on the parameters of the key alone, and is
/// the one that [`es256_verifier`] names. The key must hold parameters that
/// `Jwk::from_map` accepts: the call reads `kty`, `use`, `alg` and `kid`
/// through accessors that stop the process on a value that is no string.
#[verifier::external_body]
pub(crate) fn es256_verifier_from_jwk(key: &Jwk) -> (made: Result<EcdsaJwsVerifier, JoseError>)
    requires
        jwk_admissible(jwk_parameters(*key)),
    ensures
        match made {
            Ok(verifier) => es256_verifier(jwk_parameters(*key)) == Some(verifier),
            Err(_) => es256_verifier(jwk_parameters(*key)) is None,
        },
{
    josekit::jws::ES256.verifier_from_jwk(key)
}

/// Calls `josekit::jwt::decode_with_verifier` and keeps the payload.
///
/// Trusted: the outcome depends on the token and the verifier alone, and a
/// payload that comes back holds the claims that [`es256_verified_claims`]
/// names. Under a verifier for ES256, no token is accepted whose header
/// does not declare the algorithm `ES256`.
#[verifier::external_body]
pub(crate) fn decode_with_verifier(token: &str, verifier: &EcdsaJwsVerifier) -> (decoded: Result<
    JwtPayload,
    JoseError,
>)
    requires
        made_for_es256(*verifier),
    ensures
        match decoded {
            Ok(payload) => es256_verified_claims(token@, *verifier) == Some(payload_claims(payload)),
            Err(_) => es256_verified_claims(token@, *verifier) is None,
        },
        decoded is Ok ==> declared_algorithm(token@) == Some(es256_name()),
{
    josekit::jwt::decode_with_verifier(token, verifier).map(|decoded| decoded.0)
}

/// Calls `JwtPayload::claim`.
///
/// Trusted: the claim of that name is handed out if the payload holds one.
#[verifier::external_body]
pub(crate) fn payload_claim<'a>(payload: &'a JwtPayload, name: &str) -> (found: Option<
    &'a serde_json::Value,
>)
    ensures
        match found {
            Some(value) => payload_claims(*payload).contains_key(name@) && payload_claims(
                *payload,
            )[name@] == json_value(*value),
            None => !payload_claims(*payload).contains_key(name@),
        },
{
    payload.claim(name)
}

/// Calls `Jwk::generate_ec_key` for the curve P-256.
///
/// Trusted: a key that comes back holds parameters that `Jwk::from_map`
/// would accept. Nothing is claimed of which key it is.
#[verifier::external_body]
pub(crate) fn generate_p256_key() -> (made: Result<Jwk, JoseError>)
    ensures
        made matches Ok(key) ==> jwk_admissible(jwk_parameters(key)),
{
    Jwk::generate_ec_key(josekit::jwk::alg::ec::EcCurve::P256)
}

/// Calls `Jwk::to_public_key`.
///
/// Trusted: a public key that comes back holds parameters that
/// `Jwk::from_map` would accept; all of them are strings, and the private
/// scalar `d` is not among them. The key must hold admissible parameters
/// itself: the call reads `kty` through an accessor that stops the process
/// where it is missing.
#[verifier::external_body]
pub(crate) fn public_key_of(key: &Jwk) -> (made: Result<Jwk, JoseError>)
    requires
        jwk_admissible(jwk_parameters(*key)),
    ensures
        made matches Ok(public) ==> jwk_admissible(jwk_parameters(public)),
        made matches Ok(public) ==> all_text(jwk_parameters(public)),
        made matches Ok(public) ==> !jwk_parameters(public).contains_key(private_scalar()),
{
    key.to_public_key()
}

/// Calls `signer_from_jwk` on `josekit::jws::ES256`.
///
/// Trusted: the outcome depends on the parameters of the key alone, and is
/// the one that [`es256_signer`] names. The key must hold parameters that
/// `Jwk::from_map` accepts, for the accessors that the call reads them by.
#[verifier::external_body]
pub(crate) fn es256_signer_from_jwk(key: &Jwk) -> (made: Result<EcdsaJwsSigner, JoseError>)
    requires
        jwk_admissible(jwk_parameters(*key)),
    ensures
        match made {
            Ok(signer) => es256_signer(jwk_parameters(*key)) == Some(signer),
            Err(_) => es256_signer(jwk_parameters(*key)) is None,
        },
{
    josekit::jws::ES256.signer_from_jwk(key)
}

/// Calls `JwsHeader::new`.
///
/// Trusted: a new header holds no claim.
#[verifier::external_body]
pub(crate) fn new_header() -> (made: JwsHeader)
    ensures
        header_claims(made) == no_claims(),
{
    JwsHeader::new()
}

/// Calls `JwsHeader::set_token_type`.
///
/// Trusted: the claim `typ` becomes the given text, the others stay.
#[verifier::external_body]
pub(crate) fn set_token_type(header: &mut JwsHeader, value: &str)
    ensures
        header_claims(*final(header)) == header_claims(*old(header)).insert(
            "typ"@,
            Json::String(value@),
        ),
{
    header.set_token_type(value)
}

/// Calls `JwsHeader::set_jwk`.
///
/// Trusted: the claim `jwk` becomes the object of the key's parameters, the
/// others stay.
#[verifier::external_body]
pub(crate) fn set_jwk(header: &mut JwsHeader, key: Jwk)
    ensures
        header_claims(*final(header)) == header_claims(*old(header)).insert(
            "jwk"@,
            Json::Object(jwk_parameters(key)),
        ),
{
    header.set_jwk(key)
}

/// Calls `JwtPayload::new`.
///
/// Trusted: a new payload holds no claim.
#[verifier::external_body]
pub(crate) fn new_payload() -> (made: JwtPayload)
    ensures
        payload_claims(made) == no_claims(),
{
    JwtPayload::new()
}

/// Calls `JwtPayload::set_claim` with a string value.
///
/// Trusted: on success the claim of that name becomes the given text and the
/// others stay; on failure nothing changes. A string is refused only for the
/// claims `exp`, `nbf` and `iat`, which must be numbers.
#[verifier::external_body]
pub(crate) fn set_text_claim(payload: &mut JwtPayload, name: &str, text: &str) -> (set: Result<
    (),
    JoseError,
>)
    ensures
        match set {
            Ok(_) => payload_claims(*final(payload)) == payload_claims(*old(payload)).insert(
                name@,
                Json::String(text@),
            ),
            Err(_) => payload_claims(*final(payload)) == payload_claims(*old(payload)),
        },
        name@ != "exp"@ && name@ != "nbf"@ && name@ != "iat"@ ==> set is Ok,
{
    payload.set_claim(name, Some(serde_json::Value::String(text.to_owned())))
}

/// Calls `josekit::jwt::encode_with_signer`.
///
/// Trusted: a token that comes back is three segments joined by two dots.
/// Where the claims are shallow, so that what is written can be read again,
/// its second segment holds the claims of the payload, and its first holds
/// the claims of the header, but for the algorithm and the key identifier,
/// which the signer sets; a signer for ES256 sets the algorithm `ES256`.
/// The signature is drawn with fresh randomness, so nothing is claimed of
/// the third segment.
#[verifier::external_body]
pub(crate) fn encode_with_signer(
    payload: &JwtPayload,
    header: &JwsHeader,
    signer: &EcdsaJwsSigner,
) -> (encoded: Result<String, JoseError>)
    ensures
        encoded matches Ok(token) ==> segments(token@) is Some,
        encoded matches Ok(token) ==> (shallow(header_claims(*header)) ==> (header_document(
            token@,
        ) matches Some(Json::Object(members)) && carried(members) == carried(
            header_claims(*header),
        ))),
        encoded matches Ok(token) ==> (shallow(header_claims(*header)) && signs_with_es256(*signer)
            ==> declared_algorithm(token@) == Some(es256_name())),
        encoded matches Ok(token) ==> (shallow(payload_claims(*payload)) ==> payload_document(
            token@,
        ) == Some(Json::Object(payload_claims(*payload)))),
{
    josekit::jwt::encode_with_signer(payload, header, signer)
}

} // verus!
