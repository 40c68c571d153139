//! Resource types of the ACME certificate-issuance protocol (RFC 8555) and
//! their JSON wire encoding.
//!
//! The crate has four layers, each resting on the ones before it:
//!
//! - the closed vocabularies of the protocol, such as `OrderStatus` and
//!   `ChallengeType`: each variant has one wire string, and a string outside
//!   the vocabulary does not decode;
//! - the two open vocabularies, `ErrorType` and `CertificateRevocationReason`:
//!   a wire value without a variant of its own is kept in `Other` and written
//!   back as it came;
//! - the records, such as `Order` and `Authorization`: each member has its
//!   wire name, is required or may be absent, and an absent one is either left
//!   out or written as `null`;
//! - the JOSE envelope: `JsonWebSignatureProtected` names the signing key in
//!   exactly one of two ways.
//!
//! Every type of [`v2`] is [`wire::Wire`]: it has a JSON encoding, stated as a
//! pair of spec functions over [`json::Json`], and `to_value` and `from_value`
//! compute them on `serde_json::Value`. `from_str` and `to_string` go on to
//! JSON text. What is proved is proved about the values; `serde_json` reads
//! and prints the text, and [`json`] states what is assumed of it.

pub mod json;
pub mod text;
pub mod v2;
pub mod wire;
