//! The error taxonomy of the protocol: error types as URNs, error objects and
//! their sub-problem documents.
//!
//! The list of error types is open. A type that this crate has no name for is
//! kept as the string it arrived as, and is written back as that string.

use vstd::prelude::*;
use vstd::string::{StrSliceExecFns, StringExecFns};
use crate::json::{Json, no_members};
use crate::text::str_eq;
use crate::v2::identifier::{Identifier, IdentifierView};
use crate::wire::{
    DecodeError, DecodeErrorView, EncodeError, Wire, decode_text, encode_text, extended,
    from_text, get_optional, get_required, member_of, misshapen, misshapen_error, optional,
    outcome, put, put_optional, required, to_text, with, with_optional,
};

verus! {

/// ACME error types. The list is not exhaustive: `Other` holds the wire string
/// of a type that has no variant of its own.
#[derive(Clone, Debug, PartialEq, Eq)]
pub enum ErrorType {
    AccountDoesNotExist,
    AlreadyRevoked,
    BadCertificateSigningRequest,
    BadNonce,
    BadPublicKey,
    BadRevocationReason,
    BadSignatureAlgorithm,
    CertificationAuthorityAuthorization,
    Compound,
    Connection,
    Dns,
    ExternalAccountRequired,
    IncorrectResponse,
    InvalidContact,
    Malformed,
    OrderNotReady,
    RateLimited,
    RejectedIdentifier,
    ServerInternal,
    Tls,
    Unauthorized,
    UnsupportedContact,
    UnsupportedIdentifier,
    UserActionRequired,
    Other(String),
}

/// The view of an [`ErrorType`].
pub ghost enum ErrorTypeView {
    AccountDoesNotExist,
    AlreadyRevoked,
    BadCertificateSigningRequest,
    BadNonce,
    BadPublicKey,
    BadRevocationReason,
    BadSignatureAlgorithm,
    CertificationAuthorityAuthorization,
    Compound,
    Connection,
    Dns,
    ExternalAccountRequired,
    IncorrectResponse,
    InvalidContact,
    Malformed,
    OrderNotReady,
    RateLimited,
    RejectedIdentifier,
    ServerInternal,
    Tls,
    Unauthorized,
    UnsupportedContact,
    UnsupportedIdentifier,
    UserActionRequired,
    Other(Seq<char>),
}

impl DeepView for ErrorType {
    type V = ErrorTypeView;

    open spec fn deep_view(&self) -> ErrorTypeView {
        match self {
            ErrorType::AccountDoesNotExist => ErrorTypeView::AccountDoesNotExist,
            ErrorType::AlreadyRevoked => ErrorTypeView::AlreadyRevoked,
            ErrorType::BadCertificateSigningRequest => ErrorTypeView::BadCertificateSigningRequest,
            ErrorType::BadNonce => ErrorTypeView::BadNonce,
            ErrorType::BadPublicKey => ErrorTypeView::BadPublicKey,
            ErrorType::BadRevocationReason => ErrorTypeView::BadRevocationReason,
            ErrorType::BadSignatureAlgorithm => ErrorTypeView::BadSignatureAlgorithm,
            ErrorType::CertificationAuthorityAuthorization => {
                ErrorTypeView::CertificationAuthorityAuthorization
            },
            ErrorType::Compound => ErrorTypeView::Compound,
            ErrorType::Connection => ErrorTypeView::Connection,
            ErrorType::Dns => ErrorTypeView::Dns,
            ErrorType::ExternalAccountRequired => ErrorTypeView::ExternalAccountRequired,
            ErrorType::IncorrectResponse => ErrorTypeView::IncorrectResponse,
            ErrorType::InvalidContact => ErrorTypeView::InvalidContact,
            ErrorType::Malformed => ErrorTypeView::Malformed,
            ErrorType::OrderNotReady => ErrorTypeView::OrderNotReady,
            ErrorType::RateLimited => ErrorTypeView::RateLimited,
            ErrorType::RejectedIdentifier => ErrorTypeView::RejectedIdentifier,
            ErrorType::ServerInternal => ErrorTypeView::ServerInternal,
            ErrorType::Tls => ErrorTypeView::Tls,
            ErrorType::Unauthorized => ErrorTypeView::Unauthorized,
            ErrorType::UnsupportedContact => ErrorTypeView::UnsupportedContact,
            ErrorType::UnsupportedIdentifier => ErrorTypeView::UnsupportedIdentifier,
            ErrorType::UserActionRequired => ErrorTypeView::UserActionRequired,
            ErrorType::Other(s) => ErrorTypeView::Other(s@),
        }
    }
}

/// The namespace of the error types: what every named type's URN begins with.
pub open spec fn urn_prefix() -> Seq<char> {
    "urn:ietf:params:acme:error:"@
}

/// The tokens of the named error types differ from one another.
proof fn lemma_token_names()
    ensures
        "accountDoesNotExist"@.len() == 19,
        "accountDoesNotExist"@[0] == 'a',
        "alreadyRevoked"@.len() == 14,
        "alreadyRevoked"@[0] == 'a',
        "badCSR"@.len() == 6,
        "badNonce"@.len() == 8,
        "badNonce"@[0] == 'b',
        "badPublicKey"@.len() == 12,
        "badPublicKey"@[0] == 'b',
        "badRevocationReason"@.len() == 19,
        "badRevocationReason"@[0] == 'b',
        "badSignatureAlgorithm"@.len() == 21,
        "badSignatureAlgorithm"@[0] == 'b',
        "caa"@.len() == 3,
        "caa"@[0] == 'c',
        "compound"@.len() == 8,
        "compound"@[0] == 'c',
        "connection"@.len() == 10,
        "dns"@.len() == 3,
        "dns"@[0] == 'd',
        "externalAccountRequired"@.len() == 23,
        "incorrectResponse"@.len() == 17,
        "invalidContact"@.len() == 14,
        "invalidContact"@[0] == 'i',
        "malformed"@.len() == 9,
        "orderNotReady"@.len() == 13,
        "rateLimited"@.len() == 11,
        "rejectedIdentifier"@.len() == 18,
        "rejectedIdentifier"@[0] == 'r',
        "serverInternal"@.len() == 14,
        "serverInternal"@[0] == 's',
        "tls"@.len() == 3,
        "tls"@[0] == 't',
        "unauthorized"@.len() == 12,
        "unauthorized"@[0] == 'u',
        "unsupportedContact"@.len() == 18,
        "unsupportedContact"@[0] == 'u',
        "unsupportedContact"@[1] == 'n',
        "unsupportedIdentifier"@.len() == 21,
        "unsupportedIdentifier"@[0] == 'u',
        "userActionRequired"@.len() == 18,
        "userActionRequired"@[0] == 'u',
        "userActionRequired"@[1] == 's',
{
    reveal_strlit("accountDoesNotExist");
    reveal_strlit("alreadyRevoked");
    reveal_strlit("badCSR");
    reveal_strlit("badNonce");
    reveal_strlit("badPublicKey");
    reveal_strlit("badRevocationReason");
    reveal_strlit("badSignatureAlgorithm");
    reveal_strlit("caa");
    reveal_strlit("compound");
    reveal_strlit("connection");
    reveal_strlit("dns");
    reveal_strlit("externalAccountRequired");
    reveal_strlit("incorrectResponse");
    reveal_strlit("invalidContact");
    reveal_strlit("malformed");
    reveal_strlit("orderNotReady");
    reveal_strlit("rateLimited");
    reveal_strlit("rejectedIdentifier");
    reveal_strlit("serverInternal");
    reveal_strlit("tls");
    reveal_strlit("unauthorized");
    reveal_strlit("unsupportedContact");
    reveal_strlit("unsupportedIdentifier");
    reveal_strlit("userActionRequired");
}

impl ErrorTypeView {
    /// The token of a named type: what follows the namespace in its URN.
    /// `Other` has none.
    pub open spec fn token(self) -> Option<Seq<char>> {
        match self {
            ErrorTypeView::AccountDoesNotExist => Some("accountDoesNotExist"@),
            ErrorTypeView::AlreadyRevoked => Some("alreadyRevoked"@),
            ErrorTypeView::BadCertificateSigningRequest => Some("badCSR"@),
            ErrorTypeView::BadNonce => Some("badNonce"@),
            ErrorTypeView::BadPublicKey => Some("badPublicKey"@),
            ErrorTypeView::BadRevocationReason => Some("badRevocationReason"@),
            ErrorTypeView::BadSignatureAlgorithm => Some("badSignatureAlgorithm"@),
            ErrorTypeView::CertificationAuthorityAuthorization => Some("caa"@),
            ErrorTypeView::Compound => Some("compound"@),
            ErrorTypeView::Connection => Some("connection"@),
            ErrorTypeView::Dns => Some("dns"@),
            ErrorTypeView::ExternalAccountRequired => Some("externalAccountRequired"@),
            ErrorTypeView::IncorrectResponse => Some("incorrectResponse"@),
            ErrorTypeView::InvalidContact => Some("invalidContact"@),
            ErrorTypeView::Malformed => Some("malformed"@),
            ErrorTypeView::OrderNotReady => Some("orderNotReady"@),
            ErrorTypeView::RateLimited => Some("rateLimited"@),
            ErrorTypeView::RejectedIdentifier => Some("rejectedIdentifier"@),
            ErrorTypeView::ServerInternal => Some("serverInternal"@),
            ErrorTypeView::Tls => Some("tls"@),
            ErrorTypeView::Unauthorized => Some("unauthorized"@),
            ErrorTypeView::UnsupportedContact => Some("unsupportedContact"@),
            ErrorTypeView::UnsupportedIdentifier => Some("unsupportedIdentifier"@),
            ErrorTypeView::UserActionRequired => Some("userActionRequired"@),
            ErrorTypeView::Other(_) => None,
        }
    }

    /// The named type that a token stands for, `None` for a token that no
    /// named type has.
    pub open spec fn named(token: Seq<char>) -> Option<ErrorTypeView> {
        if token == "accountDoesNotExist"@ {
            Some(ErrorTypeView::AccountDoesNotExist)
        } else if token == "alreadyRevoked"@ {
            Some(ErrorTypeView::AlreadyRevoked)
        } else if token == "badCSR"@ {
            Some(ErrorTypeView::BadCertificateSigningRequest)
        } else if token == "badNonce"@ {
            Some(ErrorTypeView::BadNonce)
        } else if token == "badPublicKey"@ {
            Some(ErrorTypeView::BadPublicKey)
        } else if token == "badRevocationReason"@ {
            Some(ErrorTypeView::BadRevocationReason)
        } else if token == "badSignatureAlgorithm"@ {
            Some(ErrorTypeView::BadSignatureAlgorithm)
        } else if token == "caa"@ {
            Some(ErrorTypeView::CertificationAuthorityAuthorization)
        } else if token == "compound"@ {
            Some(ErrorTypeView::Compound)
        } else if token == "connection"@ {
            Some(ErrorTypeView::Connection)
        } else if token == "dns"@ {
            Some(ErrorTypeView::Dns)
        } else if token == "externalAccountRequired"@ {
            Some(ErrorTypeView::ExternalAccountRequired)
        } else if token == "incorrectResponse"@ {
            Some(ErrorTypeView::IncorrectResponse)
        } else if token == "invalidContact"@ {
            Some(ErrorTypeView::InvalidContact)
        } else if token == "malformed"@ {
            Some(ErrorTypeView::Malformed)
        } else if token == "orderNotReady"@ {
            Some(ErrorTypeView::OrderNotReady)
        } else if token == "rateLimited"@ {
            Some(ErrorTypeView::RateLimited)
        } else if token == "rejectedIdentifier"@ {
            Some(ErrorTypeView::RejectedIdentifier)
        } else if token == "serverInternal"@ {
            Some(ErrorTypeView::ServerInternal)
        } else if token == "tls"@ {
            Some(ErrorTypeView::Tls)
        } else if token == "unauthorized"@ {
            Some(ErrorTypeView::Unauthorized)
        } else if token == "unsupportedContact"@ {
            Some(ErrorTypeView::UnsupportedContact)
        } else if token == "unsupportedIdentifier"@ {
            Some(ErrorTypeView::UnsupportedIdentifier)
        } else if token == "userActionRequired"@ {
            Some(ErrorTypeView::UserActionRequired)
        } else {
            None
        }
    }

    /// The wire string of an error type: the namespace and the token for a
    /// named type, and for `Other` the string it holds, as it is.
    pub open spec fn wire(self) -> Seq<char> {
        match self {
            ErrorTypeView::Other(s) => s,
            _ => urn_prefix() + self.token()->Some_0,
        }
    }

    /// The error type that a wire string stands for: the named type where the
    /// string is the namespace followed by a known token, and in every other
    /// case `Other` holding the whole string.
    pub open spec fn from_wire(s: Seq<char>) -> ErrorTypeView {
        let p = urn_prefix().len() as int;
        if s.len() >= p && s.subrange(0, p) == urn_prefix() {
            match ErrorTypeView::named(s.subrange(p, s.len() as int)) {
                Some(v) => v,
                None => ErrorTypeView::Other(s),
            }
        } else {
            ErrorTypeView::Other(s)
        }
    }

    /// Whether a value is the one that its own wire string decodes to. Every
    /// named type is; `Other(s)` is unless `s` is the URN of a named type.
    pub open spec fn canonical(self) -> bool {
        self matches ErrorTypeView::Other(s) ==> ErrorTypeView::from_wire(s) == self
    }

    /// A token stands for a named type exactly where it is that type's token.
    pub proof fn lemma_named_token(v: ErrorTypeView, token: Seq<char>)
        ensures
            ErrorTypeView::named(token) == Some(v) <==> v.token() == Some(token),
    {
        lemma_token_names();
    }

    /// Decoding the wire string of a named type gives that type.
    pub proof fn lemma_named_round_trip(v: ErrorTypeView)
        requires
            !(v is Other),
        ensures
            ErrorTypeView::from_wire(v.wire()) == v,
    {
        let p = urn_prefix().len() as int;
        let token = v.token()->Some_0;
        let s = v.wire();
        assert(s.subrange(0, p) =~= urn_prefix());
        assert(s.subrange(p, s.len() as int) =~= token);
        ErrorTypeView::lemma_named_token(v, token);
    }

    /// A string that is the wire string of no named type, with the namespace
    /// in front of it or without, decodes to `Other` holding that string, and
    /// `Other` writes it back with nothing added and nothing taken away.
    pub proof fn lemma_unknown_preserved(s: Seq<char>)
        requires
            forall|v: ErrorTypeView| !(v is Other) ==> #[trigger] v.wire() != s,
        ensures
            ErrorTypeView::from_wire(s) == ErrorTypeView::Other(s),
            ErrorTypeView::Other(s).wire() == s,
    {
        let p = urn_prefix().len() as int;
        if s.len() >= p && s.subrange(0, p) == urn_prefix() {
            let token = s.subrange(p, s.len() as int);
            if let Some(v) = ErrorTypeView::named(token) {
                ErrorTypeView::lemma_named_token(v, token);
                assert(v.wire() =~= s);
            }
        }
    }

    /// Encoding what a wire string decodes to gives the string back, whatever
    /// the string.
    pub proof fn lemma_wire_preserved(s: Seq<char>)
        ensures
            ErrorTypeView::from_wire(s).wire() == s,
    {
        let p = urn_prefix().len() as int;
        if s.len() >= p && s.subrange(0, p) == urn_prefix() {
            let token = s.subrange(p, s.len() as int);
            if let Some(v) = ErrorTypeView::named(token) {
                ErrorTypeView::lemma_named_token(v, token);
                assert(v.wire() =~= s);
            }
        }
    }

    /// Decoding what a canonical value encodes to gives the value back.
    pub proof fn lemma_round_trip(v: ErrorTypeView)
        requires
            v.canonical(),
        ensures
            ErrorTypeView::from_wire(v.wire()) == v,
    {
        if !(v is Other) {
            ErrorTypeView::lemma_named_round_trip(v);
        }
    }
}

/// The URN of a token: the namespace, then the token.
fn urn(token: &str) -> (r: String)
    ensures
        r@ == urn_prefix() + token@,
{
    String::from_str("urn:ietf:params:acme:error:").concat(token)
}

/// Writes an error type as its wire string.
pub fn error_type_serialize(type_: &ErrorType) -> (r: String)
    ensures
        r@ == type_.deep_view().wire(),
{
    match type_ {
        ErrorType::Other(s) => s.clone(),
        ErrorType::AccountDoesNotExist => urn("accountDoesNotExist"),
        ErrorType::AlreadyRevoked => urn("alreadyRevoked"),
        ErrorType::BadCertificateSigningRequest => urn("badCSR"),
        ErrorType::BadNonce => urn("badNonce"),
        ErrorType::BadPublicKey => urn("badPublicKey"),
        ErrorType::BadRevocationReason => urn("badRevocationReason"),
        ErrorType::BadSignatureAlgorithm => urn("badSignatureAlgorithm"),
        ErrorType::CertificationAuthorityAuthorization => urn("caa"),
        ErrorType::Compound => urn("compound"),
        ErrorType::Connection => urn("connection"),
        ErrorType::Dns => urn("dns"),
        ErrorType::ExternalAccountRequired => urn("externalAccountRequired"),
        ErrorType::IncorrectResponse => urn("incorrectResponse"),
        ErrorType::InvalidContact => urn("invalidContact"),
        ErrorType::Malformed => urn("malformed"),
        ErrorType::OrderNotReady => urn("orderNotReady"),
        ErrorType::RateLimited => urn("rateLimited"),
        ErrorType::RejectedIdentifier => urn("rejectedIdentifier"),
        ErrorType::ServerInternal => urn("serverInternal"),
        ErrorType::Tls => urn("tls"),
        ErrorType::Unauthorized => urn("unauthorized"),
        ErrorType::UnsupportedContact => urn("unsupportedContact"),
        ErrorType::UnsupportedIdentifier => urn("unsupportedIdentifier"),
        ErrorType::UserActionRequired => urn("userActionRequired"),
    }
}

/// Reads an error type from its wire string. Every string is an error type:
/// one that is not the URN of a named type is kept whole in `Other`.
pub fn error_type_deserialize(s: &str) -> (r: ErrorType)
    ensures
        r.deep_view() == ErrorTypeView::from_wire(s@),
{
    let prefix = "urn:ietf:params:acme:error:";
    let n = s.unicode_len();
    let p = prefix.unicode_len();
    if n < p || !str_eq(s.substring_char(0, p), prefix) {
        return ErrorType::Other(s.to_owned());
    }
    let token = s.substring_char(p, n);
    if str_eq(token, "accountDoesNotExist") {
        ErrorType::AccountDoesNotExist
    } else if str_eq(token, "alreadyRevoked") {
        ErrorType::AlreadyRevoked
    } else if str_eq(token, "badCSR") {
        ErrorType::BadCertificateSigningRequest
    } else if str_eq(token, "badNonce") {
        ErrorType::BadNonce
    } else if str_eq(token, "badPublicKey") {
        ErrorType::BadPublicKey
    } else if str_eq(token, "badRevocationReason") {
        ErrorType::BadRevocationReason
    } else if str_eq(token, "badSignatureAlgorithm") {
        ErrorType::BadSignatureAlgorithm
    } else if str_eq(token, "caa") {
        ErrorType::CertificationAuthorityAuthorization
    } else if str_eq(token, "compound") {
        ErrorType::Compound
    } else if str_eq(token, "connection") {
        ErrorType::Connection
    } else if str_eq(token, "dns") {
        ErrorType::Dns
    } else if str_eq(token, "externalAccountRequired") {
        ErrorType::ExternalAccountRequired
    } else if str_eq(token, "incorrectResponse") {
        ErrorType::IncorrectResponse
    } else if str_eq(token, "invalidContact") {
        ErrorType::InvalidContact
    } else if str_eq(token, "malformed") {
        ErrorType::Malformed
    } else if str_eq(token, "orderNotReady") {
        ErrorType::OrderNotReady
    } else if str_eq(token, "rateLimited") {
        ErrorType::RateLimited
    } else if str_eq(token, "rejectedIdentifier") {
        ErrorType::RejectedIdentifier
    } else if str_eq(token, "serverInternal") {
        ErrorType::ServerInternal
    } else if str_eq(token, "tls") {
        ErrorType::Tls
    } else if str_eq(token, "unauthorized") {
        ErrorType::Unauthorized
    } else if str_eq(token, "unsupportedContact") {
        ErrorType::UnsupportedContact
    } else if str_eq(token, "unsupportedIdentifier") {
        ErrorType::UnsupportedIdentifier
    } else if str_eq(token, "userActionRequired") {
        ErrorType::UserActionRequired
    } else {
        ErrorType::Other(s.to_owned())
    }
}

impl Wire for ErrorType {
    open spec fn valid(v: ErrorTypeView) -> bool {
        v.canonical()
    }

    open spec fn to_json(v: ErrorTypeView) -> Json {
        Json::Str(v.wire())
    }

    open spec fn from_json(j: Json) -> Result<ErrorTypeView, DecodeErrorView> {
        match j {
            Json::Str(s) => Ok(ErrorTypeView::from_wire(s)),
            _ => Err(misshapen()),
        }
    }

    fn to_value(&self) -> (r: serde_json::Value) {
        crate::json::string(error_type_serialize(self))
    }

    fn from_value(v: &serde_json::Value) -> (r: Result<Self, DecodeError>) {
        match v.as_str() {
            Some(s) => Ok(error_type_deserialize(s)),
            None => Err(misshapen_error()),
        }
    }

    proof fn round_trip(v: ErrorTypeView) {
        ErrorTypeView::lemma_round_trip(v);
    }

    proof fn decoded_is_valid(j: Json) {
    }
}

/// An ACME problem document: one of the sub-problems of an error (RFC 8555,
/// section 6.7.1).
#[derive(Clone, Debug, PartialEq, Eq)]
pub struct ProblemDocument {
    /// Error type.
    pub type_: ErrorType,
    /// Error description.
    pub detail: String,
    /// The identifier of the order that the problem is about.
    pub identifier: Option<Identifier>,
}

/// The view of a [`ProblemDocument`].
pub ghost struct ProblemDocumentView {
    pub type_: ErrorTypeView,
    pub detail: Seq<char>,
    pub identifier: Option<IdentifierView>,
}

impl DeepView for ProblemDocument {
    type V = ProblemDocumentView;

    open spec fn deep_view(&self) -> ProblemDocumentView {
        ProblemDocumentView {
            type_: self.type_.deep_view(),
            detail: self.detail.deep_view(),
            identifier: self.identifier.deep_view(),
        }
    }
}

/// The member names of a `ProblemDocument` differ from one another.
proof fn lemma_problem_document_names()
    ensures
        "type"@.len() == 4,
        "detail"@.len() == 6,
        "identifier"@.len() == 10,
{
    reveal_strlit("type");
    reveal_strlit("detail");
    reveal_strlit("identifier");
}

impl Wire for ProblemDocument {
    open spec fn valid(v: ProblemDocumentView) -> bool {
        ErrorType::valid(v.type_)
    }

    open spec fn to_json(v: ProblemDocumentView) -> Json {
        let m = no_members();
        let m = with::<ErrorType>(m, "type"@, v.type_);
        let m = with::<String>(m, "detail"@, v.detail);
        let m = with_optional::<Identifier>(m, "identifier"@, v.identifier);
        Json::Object(m)
    }

    open spec fn from_json(j: Json) -> Result<ProblemDocumentView, DecodeErrorView> {
        let type_ = required::<ErrorType>(j, "type"@);
        let detail = required::<String>(j, "detail"@);
        let identifier = optional::<Identifier>(j, "identifier"@);
        if !(j is Object) {
            Err(misshapen())
        } else if type_ is Err {
            Err(type_->Err_0)
        } else if detail is Err {
            Err(detail->Err_0)
        } else if identifier is Err {
            Err(identifier->Err_0)
        } else {
            Ok(
                ProblemDocumentView {
                    type_: type_->Ok_0,
                    detail: detail->Ok_0,
                    identifier: identifier->Ok_0,
                },
            )
        }
    }

    fn to_value(&self) -> (r: serde_json::Value) {
        let mut m = serde_json::Map::new();
        put(&mut m, "type", &self.type_);
        put(&mut m, "detail", &self.detail);
        put_optional(&mut m, "identifier", &self.identifier);
        crate::json::object(m)
    }

    fn from_value(v: &serde_json::Value) -> (r: Result<Self, DecodeError>) {
        if !v.is_object() {
            return Err(misshapen_error());
        }
        let type_ = get_required::<ErrorType>(v, "type")?;
        let detail = get_required::<String>(v, "detail")?;
        let identifier = get_optional::<Identifier>(v, "identifier")?;
        Ok(ProblemDocument { type_, detail, identifier })
    }

    proof fn round_trip(v: ProblemDocumentView) {
        lemma_problem_document_names();
        ErrorType::round_trip(v.type_);
        String::round_trip(v.detail);
        if let Some(x) = v.identifier {
            Identifier::round_trip(x);
        }
    }

    proof fn decoded_is_valid(j: Json) {
        if let Some(x) = member_of(j, "type"@) {
            ErrorType::decoded_is_valid(x);
        }
    }
}

impl ProblemDocument {
    /// The wire names of the members of a `ProblemDocument`.
    pub open spec fn member_names() -> Set<Seq<char>> {
        set!["type"@, "detail"@, "identifier"@]
    }

    /// What the encoding of a `ProblemDocument` holds, member by member. A member that
    /// is required is always there. One that is left out when absent is
    /// there exactly when the value has it. One that is always written holds
    /// `null` when the value has none. There are no other members.
    pub proof fn lemma_encoded_members(v: ProblemDocumentView, name: Seq<char>)
        ensures
            ProblemDocument::to_json(v) is Object,
            member_of(ProblemDocument::to_json(v), "type"@) == Some(ErrorType::to_json(v.type_)),
            member_of(ProblemDocument::to_json(v), "detail"@) == Some(String::to_json(v.detail)),
            member_of(ProblemDocument::to_json(v), "identifier"@) == (match v.identifier {
                Some(x) => Some(Identifier::to_json(x)),
                None => None,
            }),
            !ProblemDocument::member_names().contains(name) ==> member_of(
                ProblemDocument::to_json(v),
                name,
            ) is None,
    {
        lemma_problem_document_names();
    }

    /// A member under a name that the record does not have changes nothing of
    /// what is decoded.
    pub proof fn lemma_unknown_member_ignored(j: Json, name: Seq<char>, x: Json)
        requires
            !ProblemDocument::member_names().contains(name),
        ensures
            ProblemDocument::from_json(extended(j, name, x)) == ProblemDocument::from_json(j),
    {
    }
}

impl ProblemDocument {
    /// Decodes a `ProblemDocument` from a JSON text.
    pub fn from_str(s: &str) -> (r: Result<ProblemDocument, DecodeError>)
        ensures
            outcome(r) == decode_text::<ProblemDocument>(s@),
    {
        from_text::<ProblemDocument>(s)
    }

    /// Encodes a `ProblemDocument` as a JSON text. Whether there is a text is for the
    /// printer to say; what it prints is the encoding of `self`.
    pub fn to_string(&self) -> (r: Result<String, EncodeError>)
        ensures
            match r {
                Ok(s) => encode_text::<ProblemDocument>(self.deep_view()) == Some(s@),
                Err(_) => encode_text::<ProblemDocument>(self.deep_view()) is None,
            },
    {
        to_text::<ProblemDocument>(self)
    }
}

/// An ACME error object (RFC 8555, section 6.7).
#[derive(Clone, Debug, PartialEq, Eq)]
pub struct Error {
    /// Error type.
    pub type_: ErrorType,
    /// Error description.
    pub detail: String,
    /// Sub-problem documents.
    pub sub_problems: Option<Vec<ProblemDocument>>,
}

/// The view of an [`Error`].
pub ghost struct ErrorView {
    pub type_: ErrorTypeView,
    pub detail: Seq<char>,
    pub sub_problems: Option<Seq<ProblemDocumentView>>,
}

impl DeepView for Error {
    type V = ErrorView;

    open spec fn deep_view(&self) -> ErrorView {
        ErrorView {
            type_: self.type_.deep_view(),
            detail: self.detail.deep_view(),
            sub_problems: self.sub_problems.deep_view(),
        }
    }
}

/// The member names of an `Error` differ from one another.
proof fn lemma_error_names()
    ensures
        "type"@.len() == 4,
        "detail"@.len() == 6,
        "subproblems"@.len() == 11,
{
    reveal_strlit("type");
    reveal_strlit("detail");
    reveal_strlit("subproblems");
}

impl Wire for Error {
    open spec fn valid(v: ErrorView) -> bool {
        &&& ErrorType::valid(v.type_)
        &&& (v.sub_problems matches Some(x) ==> <Vec<ProblemDocument> as Wire>::valid(x))
    }

    open spec fn to_json(v: ErrorView) -> Json {
        let m = no_members();
        let m = with::<ErrorType>(m, "type"@, v.type_);
        let m = with::<String>(m, "detail"@, v.detail);
        let m = with_optional::<Vec<ProblemDocument>>(m, "subproblems"@, v.sub_problems);
        Json::Object(m)
    }

    open spec fn from_json(j: Json) -> Result<ErrorView, DecodeErrorView> {
        let type_ = required::<ErrorType>(j, "type"@);
        let detail = required::<String>(j, "detail"@);
        let sub_problems = optional::<Vec<ProblemDocument>>(j, "subproblems"@);
        if !(j is Object) {
            Err(misshapen())
        } else if type_ is Err {
            Err(type_->Err_0)
        } else if detail is Err {
            Err(detail->Err_0)
        } else if sub_problems is Err {
            Err(sub_problems->Err_0)
        } else {
            Ok(
                ErrorView {
                    type_: type_->Ok_0,
                    detail: detail->Ok_0,
                    sub_problems: sub_problems->Ok_0,
                },
            )
        }
    }

    fn to_value(&self) -> (r: serde_json::Value) {
        let mut m = serde_json::Map::new();
        put(&mut m, "type", &self.type_);
        put(&mut m, "detail", &self.detail);
        put_optional(&mut m, "subproblems", &self.sub_problems);
        crate::json::object(m)
    }

    fn from_value(v: &serde_json::Value) -> (r: Result<Self, DecodeError>) {
        if !v.is_object() {
            return Err(misshapen_error());
        }
        let type_ = get_required::<ErrorType>(v, "type")?;
        let detail = get_required::<String>(v, "detail")?;
        let sub_problems = get_optional::<Vec<ProblemDocument>>(v, "subproblems")?;
        Ok(Error { type_, detail, sub_problems })
    }

    proof fn round_trip(v: ErrorView) {
        lemma_error_names();
        ErrorType::round_trip(v.type_);
        String::round_trip(v.detail);
        if let Some(x) = v.sub_problems {
            <Vec<ProblemDocument> as Wire>::round_trip(x);
        }
    }

    proof fn decoded_is_valid(j: Json) {
        if let Some(x) = member_of(j, "type"@) {
            ErrorType::decoded_is_valid(x);
        }
        if let Some(x) = member_of(j, "subproblems"@) {
            <Vec<ProblemDocument> as Wire>::decoded_is_valid(x);
        }
    }
}

impl Error {
    /// The wire names of the members of an `Error`.
    pub open spec fn member_names() -> Set<Seq<char>> {
        set!["type"@, "detail"@, "subproblems"@]
    }

    /// What the encoding of an `Error` holds, member by member. A member that
    /// is required is always there. One that is left out when absent is
    /// there exactly when the value has it. One that is always written holds
    /// `null` when the value has none. There are no other members.
    pub proof fn lemma_encoded_members(v: ErrorView, name: Seq<char>)
        ensures
            Error::to_json(v) is Object,
            member_of(Error::to_json(v), "type"@) == Some(ErrorType::to_json(v.type_)),
            member_of(Error::to_json(v), "detail"@) == Some(String::to_json(v.detail)),
            member_of(Error::to_json(v), "subproblems"@) == (match v.sub_problems {
                Some(x) => Some(<Vec<ProblemDocument> as Wire>::to_json(x)),
                None => None,
            }),
            !Error::member_names().contains(name) ==> member_of(Error::to_json(v), name) is None,
    {
        lemma_error_names();
    }

    /// A member under a name that the record does not have changes nothing of
    /// what is decoded.
    pub proof fn lemma_unknown_member_ignored(j: Json, name: Seq<char>, x: Json)
        requires
            !Error::member_names().contains(name),
        ensures
            Error::from_json(extended(j, name, x)) == Error::from_json(j),
    {
    }
}

impl Error {
    /// Decodes an `Error` from a JSON text.
    pub fn from_str(s: &str) -> (r: Result<Error, DecodeError>)
        ensures
            outcome(r) == decode_text::<Error>(s@),
    {
        from_text::<Error>(s)
    }

    /// Encodes an `Error` as a JSON text. Whether there is a text is for the
    /// printer to say; what it prints is the encoding of `self`.
    pub fn to_string(&self) -> (r: Result<String, EncodeError>)
        ensures
            match r {
                Ok(s) => encode_text::<Error>(self.deep_view()) == Some(s@),
                Err(_) => encode_text::<Error>(self.deep_view()) is None,
            },
    {
        to_text::<Error>(self)
    }
}

} // verus!
