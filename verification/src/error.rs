//! Failure kinds of the two roles, and the messages that report them.

use vstd::prelude::*;

verus! {

/// Why a verification attempt was refused.
#[derive(Clone, Copy, Debug, PartialEq, Eq, Structural)]
pub enum VerificationError {
    /// The token is not three dot-separated segments led by a base64url JSON header.
    MalformedToken,
    /// The header embeds no public key object.
    MissingKey,
    /// The embedded object is no key for the supported signature algorithm.
    InvalidKey,
    /// The signature does not verify under the embedded key, or the payload
    /// cannot be decoded.
    SignatureInvalid,
    /// The payload names no nonce as a string.
    MissingNonceClaim,
    /// The named nonce is not outstanding.
    NonceInvalidOrReused,
}

impl VerificationError {
    /// The text that reports this error to a client.
    pub open spec fn message_text(self) -> Seq<char> {
        match self {
            VerificationError::MalformedToken => "malformed token"@,
            VerificationError::MissingKey => "JWK missing in header"@,
            VerificationError::InvalidKey => "invalid JWK"@,
            VerificationError::SignatureInvalid => "invalid signature"@,
            VerificationError::MissingNonceClaim => "nonce not found in claims"@,
            VerificationError::NonceInvalidOrReused => "invalid or reused nonce"@,
        }
    }

    /// The text that reports this error to a client.
    pub fn message(&self) -> (text: String)
        ensures
            text@ == self.message_text(),
    {
        match self {
            VerificationError::MalformedToken => "malformed token".to_owned(),
            VerificationError::MissingKey => "JWK missing in header".to_owned(),
            VerificationError::InvalidKey => "invalid JWK".to_owned(),
            VerificationError::SignatureInvalid => "invalid signature".to_owned(),
            VerificationError::MissingNonceClaim => "nonce not found in claims".to_owned(),
            VerificationError::NonceInvalidOrReused => "invalid or reused nonce".to_owned(),
        }
    }
}

/// Why a proof attempt of the holder came to nothing.
#[derive(Clone, Copy, Debug, PartialEq, Eq, Structural)]
pub enum ProducerError {
    /// No challenge could be had: the request failed, or the answer names no nonce.
    ChallengeFetchFailed,
    /// No key pair could be made, or the token could not be built and signed.
    SigningFailed,
    /// The token could not be handed in.
    SubmissionFailed,
}

impl ProducerError {
    /// The text that reports this error.
    pub open spec fn message_text(self) -> Seq<char> {
        match self {
            ProducerError::ChallengeFetchFailed => "challenge could not be fetched"@,
            ProducerError::SigningFailed => "token could not be signed"@,
            ProducerError::SubmissionFailed => "token could not be submitted"@,
        }
    }

    /// The text that reports this error.
    pub fn message(&self) -> (text: String)
        ensures
            text@ == self.message_text(),
    {
        match self {
            ProducerError::ChallengeFetchFailed => "challenge could not be fetched".to_owned(),
            ProducerError::SigningFailed => "token could not be signed".to_owned(),
            ProducerError::SubmissionFailed => "token could not be submitted".to_owned(),
        }
    }
}

} // verus!
