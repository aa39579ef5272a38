//! Proof of possession over single-use challenges.
//!
//! A verifier issues nonces. A holder proves control of a private key by
//! signing a token that embeds the matching public key and names a nonce. The
//! verifier checks the signature under the embedded key and consumes the
//! nonce, once. The key is self-asserted: a token proves possession of a key,
//! not the identity of its holder.
//!
//! - [`registry`]: the outstanding nonces, issued and consumed.
//! - [`token`]: the outer shape of a token.
//! - [`verification`]: the checks that a token passes, in their order.
//! - [`producer`]: the holder's answer to a challenge.
//! - [`error`]: the failure kinds of both roles.
//! - [`json`], [`encoding`], [`jose`]: what is taken on trust of `serde_json`,
//!   `base64` and `josekit`.

pub mod encoding;
pub mod error;
pub mod jose;
pub mod json;
pub mod producer;
pub mod registry;
pub mod token;
pub mod verification;
