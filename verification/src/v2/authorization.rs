//! Authorizations and their challenges.

use vstd::prelude::*;
use crate::json::{Json, no_members};
use crate::text::str_eq;
use crate::v2::error::{Error, ErrorView};
use crate::v2::identifier::{Identifier, IdentifierView};
use crate::wire::{
    DecodeError, DecodeErrorView, EncodeError, Wire, decode_text, encode_text, extended,
    from_text, get_optional, get_required, member_of, misshapen, misshapen_error, optional,
    outcome, put, put_optional, required, to_text, with, with_optional,
};

verus! {

/// A request for a new authorization is the identifier to authorize.
pub type NewAuthorization = Identifier;

impl NewAuthorization {
    /// Decodes a `NewAuthorization` from a JSON text.
    pub fn from_str(s: &str) -> (r: Result<NewAuthorization, DecodeError>)
        ensures
            outcome(r) == decode_text::<Identifier>(s@),
    {
        from_text::<Identifier>(s)
    }

    /// Encodes a `NewAuthorization` as a JSON text. Whether there is a text is for the
    /// printer to say; what it prints is the encoding of `self`.
    pub fn to_string(&self) -> (r: Result<String, EncodeError>)
        ensures
            match r {
                Ok(s) => encode_text::<Identifier>(self.deep_view()) == Some(s@),
                Err(_) => encode_text::<Identifier>(self.deep_view()) is None,
            },
    {
        to_text::<Identifier>(self)
    }
}

/// Challenge resource status values (RFC 8555, section 7.1.6).
#[derive(Clone, Copy, Debug, PartialEq, Eq)]
pub enum ChallengeStatus {
    Pending,
    Processing,
    Valid,
    Invalid,
}

/// The wire strings of `ChallengeStatus` differ from one another.
proof fn lemma_challenge_status_names()
    ensures
        "pending"@.len() == 7,
        "pending"@[0] == 'p',
        "processing"@.len() == 10,
        "valid"@.len() == 5,
        "invalid"@.len() == 7,
        "invalid"@[0] == 'i',
{
    reveal_strlit("pending");
    reveal_strlit("processing");
    reveal_strlit("valid");
    reveal_strlit("invalid");
}

impl ChallengeStatus {
    /// The wire string of a variant.
    pub open spec fn wire(self) -> Seq<char> {
        match self {
            ChallengeStatus::Pending => "pending"@,
            ChallengeStatus::Processing => "processing"@,
            ChallengeStatus::Valid => "valid"@,
            ChallengeStatus::Invalid => "invalid"@,
        }
    }

    /// The variant that a wire string stands for, `None` for a string outside
    /// the vocabulary.
    pub open spec fn from_wire(s: Seq<char>) -> Option<ChallengeStatus> {
        if s == "pending"@ {
            Some(ChallengeStatus::Pending)
        } else if s == "processing"@ {
            Some(ChallengeStatus::Processing)
        } else if s == "valid"@ {
            Some(ChallengeStatus::Valid)
        } else if s == "invalid"@ {
            Some(ChallengeStatus::Invalid)
        } else {
            None
        }
    }

    /// The wire string of a variant.
    pub fn encode(&self) -> (r: &'static str)
        ensures
            r@ == self.wire(),
    {
        match self {
            ChallengeStatus::Pending => "pending",
            ChallengeStatus::Processing => "processing",
            ChallengeStatus::Valid => "valid",
            ChallengeStatus::Invalid => "invalid",
        }
    }

    /// The variant that a wire string stands for. A string outside the
    /// vocabulary is an error, never a default.
    pub fn decode(s: &str) -> (r: Result<ChallengeStatus, DecodeError>)
        ensures
            r == (match ChallengeStatus::from_wire(s@) {
                Some(v) => Ok::<ChallengeStatus, DecodeError>(v),
                None => Err(DecodeError::UnknownVariant),
            }),
    {
        if str_eq(s, "pending") {
            Ok(ChallengeStatus::Pending)
        } else if str_eq(s, "processing") {
            Ok(ChallengeStatus::Processing)
        } else if str_eq(s, "valid") {
            Ok(ChallengeStatus::Valid)
        } else if str_eq(s, "invalid") {
            Ok(ChallengeStatus::Invalid)
        } else {
            Err(DecodeError::UnknownVariant)
        }
    }

    /// Variants and wire strings correspond one to one: decoding the wire
    /// string of a variant gives the variant, and a string decodes to a
    /// variant only where it is that variant's wire string.
    pub proof fn lemma_bijection(v: ChallengeStatus, s: Seq<char>)
        ensures
            ChallengeStatus::from_wire(v.wire()) == Some(v),
            ChallengeStatus::from_wire(s) == Some(v) <==> v.wire() == s,
    {
        lemma_challenge_status_names();
    }
}

impl DeepView for ChallengeStatus {
    type V = ChallengeStatus;

    open spec fn deep_view(&self) -> ChallengeStatus {
        *self
    }
}

impl Wire for ChallengeStatus {
    open spec fn valid(v: ChallengeStatus) -> bool {
        true
    }

    open spec fn to_json(v: ChallengeStatus) -> Json {
        Json::Str(v.wire())
    }

    open spec fn from_json(j: Json) -> Result<ChallengeStatus, DecodeErrorView> {
        match j {
            Json::Str(s) => match ChallengeStatus::from_wire(s) {
                Some(v) => Ok(v),
                None => Err(DecodeErrorView::UnknownVariant),
            },
            _ => Err(misshapen()),
        }
    }

    fn to_value(&self) -> (r: serde_json::Value) {
        crate::json::string(self.encode().to_owned())
    }

    fn from_value(v: &serde_json::Value) -> (r: Result<Self, DecodeError>) {
        match v.as_str() {
            Some(s) => ChallengeStatus::decode(s),
            None => Err(misshapen_error()),
        }
    }

    proof fn round_trip(v: ChallengeStatus) {
        ChallengeStatus::lemma_bijection(v, v.wire());
    }

    proof fn decoded_is_valid(j: Json) {
    }
}

/// Challenge types (RFC 8555, section 8).
#[derive(Clone, Copy, Debug, PartialEq, Eq)]
pub enum ChallengeType {
    /// Proof over HTTP (RFC 8555, section 8.3).
    Http01,
    /// Proof over DNS (RFC 8555, section 8.4).
    Dns01,
}

/// The wire strings of `ChallengeType` differ from one another.
proof fn lemma_challenge_type_names()
    ensures
        "http-01"@.len() == 7,
        "dns-01"@.len() == 6,
{
    reveal_strlit("http-01");
    reveal_strlit("dns-01");
}

impl ChallengeType {
    /// The wire string of a variant.
    pub open spec fn wire(self) -> Seq<char> {
        match self {
            ChallengeType::Http01 => "http-01"@,
            ChallengeType::Dns01 => "dns-01"@,
        }
    }

    /// The variant that a wire string stands for, `None` for a string outside
    /// the vocabulary.
    pub open spec fn from_wire(s: Seq<char>) -> Option<ChallengeType> {
        if s == "http-01"@ {
            Some(ChallengeType::Http01)
        } else if s == "dns-01"@ {
            Some(ChallengeType::Dns01)
        } else {
            None
        }
    }

    /// The wire string of a variant.
    pub fn encode(&self) -> (r: &'static str)
        ensures
            r@ == self.wire(),
    {
        match self {
            ChallengeType::Http01 => "http-01",
            ChallengeType::Dns01 => "dns-01",
        }
    }

    /// The variant that a wire string stands for. A string outside the
    /// vocabulary is an error, never a default.
    pub fn decode(s: &str) -> (r: Result<ChallengeType, DecodeError>)
        ensures
            r == (match ChallengeType::from_wire(s@) {
                Some(v) => Ok::<ChallengeType, DecodeError>(v),
                None => Err(DecodeError::UnknownVariant),
            }),
    {
        if str_eq(s, "http-01") {
            Ok(ChallengeType::Http01)
        } else if str_eq(s, "dns-01") {
            Ok(ChallengeType::Dns01)
        } else {
            Err(DecodeError::UnknownVariant)
        }
    }

    /// Variants and wire strings correspond one to one: decoding the wire
    /// string of a variant gives the variant, and a string decodes to a
    /// variant only where it is that variant's wire string.
    pub proof fn lemma_bijection(v: ChallengeType, s: Seq<char>)
        ensures
            ChallengeType::from_wire(v.wire()) == Some(v),
            ChallengeType::from_wire(s) == Some(v) <==> v.wire() == s,
    {
        lemma_challenge_type_names();
    }
}

impl DeepView for ChallengeType {
    type V = ChallengeType;

    open spec fn deep_view(&self) -> ChallengeType {
        *self
    }
}

impl Wire for ChallengeType {
    open spec fn valid(v: ChallengeType) -> bool {
        true
    }

    open spec fn to_json(v: ChallengeType) -> Json {
        Json::Str(v.wire())
    }

    open spec fn from_json(j: Json) -> Result<ChallengeType, DecodeErrorView> {
        match j {
            Json::Str(s) => match ChallengeType::from_wire(s) {
                Some(v) => Ok(v),
                None => Err(DecodeErrorView::UnknownVariant),
            },
            _ => Err(misshapen()),
        }
    }

    fn to_value(&self) -> (r: serde_json::Value) {
        crate::json::string(self.encode().to_owned())
    }

    fn from_value(v: &serde_json::Value) -> (r: Result<Self, DecodeError>) {
        match v.as_str() {
            Some(s) => ChallengeType::decode(s),
            None => Err(misshapen_error()),
        }
    }

    proof fn round_trip(v: ChallengeType) {
        ChallengeType::lemma_bijection(v, v.wire());
    }

    proof fn decoded_is_valid(j: Json) {
    }
}

/// Authorization resource status values (RFC 8555, section 7.1.6).
#[derive(Clone, Copy, Debug, PartialEq, Eq)]
pub enum AuthorizationStatus {
    Pending,
    Expired,
    Deactivated,
    Revoked,
    Valid,
    Invalid,
}

/// The wire strings of `AuthorizationStatus` differ from one another.
proof fn lemma_authorization_status_names()
    ensures
        "pending"@.len() == 7,
        "pending"@[0] == 'p',
        "expired"@.len() == 7,
        "expired"@[0] == 'e',
        "deactivated"@.len() == 11,
        "revoked"@.len() == 7,
        "revoked"@[0] == 'r',
        "valid"@.len() == 5,
        "invalid"@.len() == 7,
        "invalid"@[0] == 'i',
{
    reveal_strlit("pending");
    reveal_strlit("expired");
    reveal_strlit("deactivated");
    reveal_strlit("revoked");
    reveal_strlit("valid");
    reveal_strlit("invalid");
}

impl AuthorizationStatus {
    /// The wire string of a variant.
    pub open spec fn wire(self) -> Seq<char> {
        match self {
            AuthorizationStatus::Pending => "pending"@,
            AuthorizationStatus::Expired => "expired"@,
            AuthorizationStatus::Deactivated => "deactivated"@,
            AuthorizationStatus::Revoked => "revoked"@,
            AuthorizationStatus::Valid => "valid"@,
            AuthorizationStatus::Invalid => "invalid"@,
        }
    }

    /// The variant that a wire string stands for, `None` for a string outside
    /// the vocabulary.
    pub open spec fn from_wire(s: Seq<char>) -> Option<AuthorizationStatus> {
        if s == "pending"@ {
            Some(AuthorizationStatus::Pending)
        } else if s == "expired"@ {
            Some(AuthorizationStatus::Expired)
        } else if s == "deactivated"@ {
            Some(AuthorizationStatus::Deactivated)
        } else if s == "revoked"@ {
            Some(AuthorizationStatus::Revoked)
        } else if s == "valid"@ {
            Some(AuthorizationStatus::Valid)
        } else if s == "invalid"@ {
            Some(AuthorizationStatus::Invalid)
        } else {
            None
        }
    }

    /// The wire string of a variant.
    pub fn encode(&self) -> (r: &'static str)
        ensures
            r@ == self.wire(),
    {
        match self {
            AuthorizationStatus::Pending => "pending",
            AuthorizationStatus::Expired => "expired",
            AuthorizationStatus::Deactivated => "deactivated",
            AuthorizationStatus::Revoked => "revoked",
            AuthorizationStatus::Valid => "valid",
            AuthorizationStatus::Invalid => "invalid",
        }
    }

    /// The variant that a wire string stands for. A string outside the
    /// vocabulary is an error, never a default.
    pub fn decode(s: &str) -> (r: Result<AuthorizationStatus, DecodeError>)
        ensures
            r == (match AuthorizationStatus::from_wire(s@) {
                Some(v) => Ok::<AuthorizationStatus, DecodeError>(v),
                None => Err(DecodeError::UnknownVariant),
            }),
    {
        if str_eq(s, "pending") {
            Ok(AuthorizationStatus::Pending)
        } else if str_eq(s, "expired") {
            Ok(AuthorizationStatus::Expired)
        } else if str_eq(s, "deactivated") {
            Ok(AuthorizationStatus::Deactivated)
        } else if str_eq(s, "revoked") {
            Ok(AuthorizationStatus::Revoked)
        } else if str_eq(s, "valid") {
            Ok(AuthorizationStatus::Valid)
        } else if str_eq(s, "invalid") {
            Ok(AuthorizationStatus::Invalid)
        } else {
            Err(DecodeError::UnknownVariant)
        }
    }

    /// Variants and wire strings correspond one to one: decoding the wire
    /// string of a variant gives the variant, and a string decodes to a
    /// variant only where it is that variant's wire string.
    pub proof fn lemma_bijection(v: AuthorizationStatus, s: Seq<char>)
        ensures
            AuthorizationStatus::from_wire(v.wire()) == Some(v),
            AuthorizationStatus::from_wire(s) == Some(v) <==> v.wire() == s,
    {
        lemma_authorization_status_names();
    }
}

impl DeepView for AuthorizationStatus {
    type V = AuthorizationStatus;

    open spec fn deep_view(&self) -> AuthorizationStatus {
        *self
    }
}

impl Wire for AuthorizationStatus {
    open spec fn valid(v: AuthorizationStatus) -> bool {
        true
    }

    open spec fn to_json(v: AuthorizationStatus) -> Json {
        Json::Str(v.wire())
    }

    open spec fn from_json(j: Json) -> Result<AuthorizationStatus, DecodeErrorView> {
        match j {
            Json::Str(s) => match AuthorizationStatus::from_wire(s) {
                Some(v) => Ok(v),
                None => Err(DecodeErrorView::UnknownVariant),
            },
            _ => Err(misshapen()),
        }
    }

    fn to_value(&self) -> (r: serde_json::Value) {
        crate::json::string(self.encode().to_owned())
    }

    fn from_value(v: &serde_json::Value) -> (r: Result<Self, DecodeError>) {
        match v.as_str() {
            Some(s) => AuthorizationStatus::decode(s),
            None => Err(misshapen_error()),
        }
    }

    proof fn round_trip(v: AuthorizationStatus) {
        AuthorizationStatus::lemma_bijection(v, v.wire());
    }

    proof fn decoded_is_valid(j: Json) {
    }
}

/// An ACME challenge object (RFC 8555, section 7.1.5).
#[derive(Clone, Debug, PartialEq, Eq)]
pub struct Challenge {
    /// URL to which a response to the challenge is posted.
    pub url: String,
    /// Challenge type.
    pub type_: ChallengeType,
    /// Status of the challenge.
    pub status: ChallengeStatus,
    /// Challenge token. Which types of challenge carry one is not checked here.
    pub token: Option<String>,
    /// Time at which the challenge was validated.
    pub validated: Option<String>,
    /// Error met while the challenge was validated.
    pub error: Option<Error>,
}

/// The view of a [`Challenge`].
pub ghost struct ChallengeView {
    pub url: Seq<char>,
    pub type_: ChallengeType,
    pub status: ChallengeStatus,
    pub token: Option<Seq<char>>,
    pub validated: Option<Seq<char>>,
    pub error: Option<ErrorView>,
}

impl DeepView for Challenge {
    type V = ChallengeView;

    open spec fn deep_view(&self) -> ChallengeView {
        ChallengeView {
            url: self.url.deep_view(),
            type_: self.type_.deep_view(),
            status: self.status.deep_view(),
            token: self.token.deep_view(),
            validated: self.validated.deep_view(),
            error: self.error.deep_view(),
        }
    }
}

/// The member names of a `Challenge` differ from one another.
proof fn lemma_challenge_names()
    ensures
        "url"@.len() == 3,
        "type"@.len() == 4,
        "status"@.len() == 6,
        "token"@.len() == 5,
        "token"@[0] == 't',
        "validated"@.len() == 9,
        "error"@.len() == 5,
        "error"@[0] == 'e',
{
    reveal_strlit("url");
    reveal_strlit("type");
    reveal_strlit("status");
    reveal_strlit("token");
    reveal_strlit("validated");
    reveal_strlit("error");
}

impl Wire for Challenge {
    open spec fn valid(v: ChallengeView) -> bool {
        (v.error matches Some(x) ==> Error::valid(x))
    }

    open spec fn to_json(v: ChallengeView) -> Json {
        let m = no_members();
        let m = with::<String>(m, "url"@, v.url);
        let m = with::<ChallengeType>(m, "type"@, v.type_);
        let m = with::<ChallengeStatus>(m, "status"@, v.status);
        let m = with_optional::<String>(m, "token"@, v.token);
        let m = with_optional::<String>(m, "validated"@, v.validated);
        let m = with_optional::<Error>(m, "error"@, v.error);
        Json::Object(m)
    }

    open spec fn from_json(j: Json) -> Result<ChallengeView, DecodeErrorView> {
        let url = required::<String>(j, "url"@);
        let type_ = required::<ChallengeType>(j, "type"@);
        let status = required::<ChallengeStatus>(j, "status"@);
        let token = optional::<String>(j, "token"@);
        let validated = optional::<String>(j, "validated"@);
        let error = optional::<Error>(j, "error"@);
        if !(j is Object) {
            Err(misshapen())
        } else if url is Err {
            Err(url->Err_0)
        } else if type_ is Err {
            Err(type_->Err_0)
        } else if status is Err {
            Err(status->Err_0)
        } else if token is Err {
            Err(token->Err_0)
        } else if validated is Err {
            Err(validated->Err_0)
        } else if error is Err {
            Err(error->Err_0)
        } else {
            Ok(
                ChallengeView {
                    url: url->Ok_0,
                    type_: type_->Ok_0,
                    status: status->Ok_0,
                    token: token->Ok_0,
                    validated: validated->Ok_0,
                    error: error->Ok_0,
                },
            )
        }
    }

    fn to_value(&self) -> (r: serde_json::Value) {
        let mut m = serde_json::Map::new();
        put(&mut m, "url", &self.url);
        put(&mut m, "type", &self.type_);
        put(&mut m, "status", &self.status);
        put_optional(&mut m, "token", &self.token);
        put_optional(&mut m, "validated", &self.validated);
        put_optional(&mut m, "error", &self.error);
        crate::json::object(m)
    }

    fn from_value(v: &serde_json::Value) -> (r: Result<Self, DecodeError>) {
        if !v.is_object() {
            return Err(misshapen_error());
        }
        let url = get_required::<String>(v, "url")?;
        let type_ = get_required::<ChallengeType>(v, "type")?;
        let status = get_required::<ChallengeStatus>(v, "status")?;
        let token = get_optional::<String>(v, "token")?;
        let validated = get_optional::<String>(v, "validated")?;
        let error = get_optional::<Error>(v, "error")?;
        Ok(Challenge { url, type_, status, token, validated, error })
    }

    proof fn round_trip(v: ChallengeView) {
        lemma_challenge_names();
        String::round_trip(v.url);
        ChallengeType::round_trip(v.type_);
        ChallengeStatus::round_trip(v.status);
        if let Some(x) = v.token {
            String::round_trip(x);
        }
        if let Some(x) = v.validated {
            String::round_trip(x);
        }
        if let Some(x) = v.error {
            Error::round_trip(x);
        }
    }

    proof fn decoded_is_valid(j: Json) {
        if let Some(x) = member_of(j, "error"@) {
            Error::decoded_is_valid(x);
        }
    }
}

impl Challenge {
    /// The wire names of the members of a `Challenge`.
    pub open spec fn member_names() -> Set<Seq<char>> {
        set!["url"@, "type"@, "status"@, "token"@, "validated"@, "error"@]
    }

    /// What the encoding of a `Challenge` holds, member by member. A member that
    /// is required is always there. One that is left out when absent is
    /// there exactly when the value has it. One that is always written holds
    /// `null` when the value has none. There are no other members.
    pub proof fn lemma_encoded_members(v: ChallengeView, name: Seq<char>)
        ensures
            Challenge::to_json(v) is Object,
            member_of(Challenge::to_json(v), "url"@) == Some(String::to_json(v.url)),
            member_of(Challenge::to_json(v), "type"@) == Some(ChallengeType::to_json(v.type_)),
            member_of(Challenge::to_json(v), "status"@) == Some(ChallengeStatus::to_json(v.status)),
            member_of(Challenge::to_json(v), "token"@) == (match v.token {
                Some(x) => Some(String::to_json(x)),
                None => None,
            }),
            member_of(Challenge::to_json(v), "validated"@) == (match v.validated {
                Some(x) => Some(String::to_json(x)),
                None => None,
            }),
            member_of(Challenge::to_json(v), "error"@) == (match v.error {
                Some(x) => Some(Error::to_json(x)),
                None => None,
            }),
            !Challenge::member_names().contains(name) ==> member_of(
                Challenge::to_json(v),
                name,
            ) is None,
    {
        lemma_challenge_names();
    }

    /// A member under a name that the record does not have changes nothing of
    /// what is decoded.
    pub proof fn lemma_unknown_member_ignored(j: Json, name: Seq<char>, x: Json)
        requires
            !Challenge::member_names().contains(name),
        ensures
            Challenge::from_json(extended(j, name, x)) == Challenge::from_json(j),
    {
    }
}

impl Challenge {
    /// Decodes a `Challenge` from a JSON text.
    pub fn from_str(s: &str) -> (r: Result<Challenge, DecodeError>)
        ensures
            outcome(r) == decode_text::<Challenge>(s@),
    {
        from_text::<Challenge>(s)
    }

    /// Encodes a `Challenge` as a JSON text. Whether there is a text is for the
    /// printer to say; what it prints is the encoding of `self`.
    pub fn to_string(&self) -> (r: Result<String, EncodeError>)
        ensures
            match r {
                Ok(s) => encode_text::<Challenge>(self.deep_view()) == Some(s@),
                Err(_) => encode_text::<Challenge>(self.deep_view()) is None,
            },
    {
        to_text::<Challenge>(self)
    }
}

/// An ACME authorization resource (RFC 8555, section 7.1.4). It has at least
/// one challenge: a decoder answers an empty list with `InvalidValue`.
#[derive(Clone, Debug, PartialEq, Eq)]
pub struct Authorization {
    /// The identifier that the account is authorized for.
    pub identifier: Identifier,
    /// Authorization status.
    pub status: AuthorizationStatus,
    /// Expiration time.
    pub expires: Option<String>,
    /// The challenges by which control of the identifier can be proved.
    pub challenges: Vec<Challenge>,
    /// True for an authorization of a domain name with a wildcard label.
    pub wildcard: Option<bool>,
}

/// The view of an [`Authorization`].
pub ghost struct AuthorizationView {
    pub identifier: IdentifierView,
    pub status: AuthorizationStatus,
    pub expires: Option<Seq<char>>,
    pub challenges: Seq<ChallengeView>,
    pub wildcard: Option<bool>,
}

impl DeepView for Authorization {
    type V = AuthorizationView;

    open spec fn deep_view(&self) -> AuthorizationView {
        AuthorizationView {
            identifier: self.identifier.deep_view(),
            status: self.status.deep_view(),
            expires: self.expires.deep_view(),
            challenges: self.challenges.deep_view(),
            wildcard: self.wildcard.deep_view(),
        }
    }
}

/// The member names of an `Authorization` differ from one another.
proof fn lemma_authorization_names()
    ensures
        "identifier"@.len() == 10,
        "identifier"@[0] == 'i',
        "status"@.len() == 6,
        "expires"@.len() == 7,
        "challenges"@.len() == 10,
        "challenges"@[0] == 'c',
        "wildcard"@.len() == 8,
{
    reveal_strlit("identifier");
    reveal_strlit("status");
    reveal_strlit("expires");
    reveal_strlit("challenges");
    reveal_strlit("wildcard");
}

impl Wire for Authorization {
    open spec fn valid(v: AuthorizationView) -> bool {
        &&& <Vec<Challenge> as Wire>::valid(v.challenges)
        &&& v.challenges.len() > 0
    }

    open spec fn to_json(v: AuthorizationView) -> Json {
        let m = no_members();
        let m = with::<Identifier>(m, "identifier"@, v.identifier);
        let m = with::<AuthorizationStatus>(m, "status"@, v.status);
        let m = with_optional::<String>(m, "expires"@, v.expires);
        let m = with::<Vec<Challenge>>(m, "challenges"@, v.challenges);
        let m = with_optional::<bool>(m, "wildcard"@, v.wildcard);
        Json::Object(m)
    }

    open spec fn from_json(j: Json) -> Result<AuthorizationView, DecodeErrorView> {
        let identifier = required::<Identifier>(j, "identifier"@);
        let status = required::<AuthorizationStatus>(j, "status"@);
        let expires = optional::<String>(j, "expires"@);
        let challenges = required::<Vec<Challenge>>(j, "challenges"@);
        let wildcard = optional::<bool>(j, "wildcard"@);
        if !(j is Object) {
            Err(misshapen())
        } else if identifier is Err {
            Err(identifier->Err_0)
        } else if status is Err {
            Err(status->Err_0)
        } else if expires is Err {
            Err(expires->Err_0)
        } else if challenges is Err {
            Err(challenges->Err_0)
        } else if wildcard is Err {
            Err(wildcard->Err_0)
        } else if challenges->Ok_0.len() == 0 {
            Err(DecodeErrorView::InvalidValue)
        } else {
            Ok(
                AuthorizationView {
                    identifier: identifier->Ok_0,
                    status: status->Ok_0,
                    expires: expires->Ok_0,
                    challenges: challenges->Ok_0,
                    wildcard: wildcard->Ok_0,
                },
            )
        }
    }

    fn to_value(&self) -> (r: serde_json::Value) {
        let mut m = serde_json::Map::new();
        put(&mut m, "identifier", &self.identifier);
        put(&mut m, "status", &self.status);
        put_optional(&mut m, "expires", &self.expires);
        put(&mut m, "challenges", &self.challenges);
        put_optional(&mut m, "wildcard", &self.wildcard);
        crate::json::object(m)
    }

    fn from_value(v: &serde_json::Value) -> (r: Result<Self, DecodeError>) {
        if !v.is_object() {
            return Err(misshapen_error());
        }
        let identifier = get_required::<Identifier>(v, "identifier")?;
        let status = get_required::<AuthorizationStatus>(v, "status")?;
        let expires = get_optional::<String>(v, "expires")?;
        let challenges = get_required::<Vec<Challenge>>(v, "challenges")?;
        let wildcard = get_optional::<bool>(v, "wildcard")?;
        if challenges.len() == 0 {
            return Err(DecodeError::InvalidValue);
        }
        Ok(Authorization { identifier, status, expires, challenges, wildcard })
    }

    proof fn round_trip(v: AuthorizationView) {
        lemma_authorization_names();
        Identifier::round_trip(v.identifier);
        AuthorizationStatus::round_trip(v.status);
        if let Some(x) = v.expires {
            String::round_trip(x);
        }
        <Vec<Challenge> as Wire>::round_trip(v.challenges);
        if let Some(x) = v.wildcard {
            bool::round_trip(x);
        }
    }

    proof fn decoded_is_valid(j: Json) {
        if let Some(x) = member_of(j, "challenges"@) {
            <Vec<Challenge> as Wire>::decoded_is_valid(x);
        }
    }
}

impl Authorization {
    /// The wire names of the members of an `Authorization`.
    pub open spec fn member_names() -> Set<Seq<char>> {
        set!["identifier"@, "status"@, "expires"@, "challenges"@, "wildcard"@]
    }

    /// What the encoding of an `Authorization` holds, member by member. A member that
    /// is required is always there. One that is left out when absent is
    /// there exactly when the value has it. One that is always written holds
    /// `null` when the value has none. There are no other members.
    pub proof fn lemma_encoded_members(v: AuthorizationView, name: Seq<char>)
        ensures
            Authorization::to_json(v) is Object,
            member_of(Authorization::to_json(v), "identifier"@) == Some(
                Identifier::to_json(v.identifier),
            ),
            member_of(Authorization::to_json(v), "status"@) == Some(
                AuthorizationStatus::to_json(v.status),
            ),
            member_of(Authorization::to_json(v), "expires"@) == (match v.expires {
                Some(x) => Some(String::to_json(x)),
                None => None,
            }),
            member_of(Authorization::to_json(v), "challenges"@) == Some(
                <Vec<Challenge> as Wire>::to_json(v.challenges),
            ),
            member_of(Authorization::to_json(v), "wildcard"@) == (match v.wildcard {
                Some(x) => Some(bool::to_json(x)),
                None => None,
            }),
            !Authorization::member_names().contains(name) ==> member_of(
                Authorization::to_json(v),
                name,
            ) is None,
    {
        lemma_authorization_names();
    }

    /// A member under a name that the record does not have changes nothing of
    /// what is decoded.
    pub proof fn lemma_unknown_member_ignored(j: Json, name: Seq<char>, x: Json)
        requires
            !Authorization::member_names().contains(name),
        ensures
            Authorization::from_json(extended(j, name, x)) == Authorization::from_json(j),
    {
    }
}

impl Authorization {
    /// Decodes an `Authorization` from a JSON text.
    pub fn from_str(s: &str) -> (r: Result<Authorization, DecodeError>)
        ensures
            outcome(r) == decode_text::<Authorization>(s@),
    {
        from_text::<Authorization>(s)
    }

    /// Encodes an `Authorization` as a JSON text. Whether there is a text is for the
    /// printer to say; what it prints is the encoding of `self`.
    pub fn to_string(&self) -> (r: Result<String, EncodeError>)
        ensures
            match r {
                Ok(s) => encode_text::<Authorization>(self.deep_view()) == Some(s@),
                Err(_) => encode_text::<Authorization>(self.deep_view()) is None,
            },
    {
        to_text::<Authorization>(self)
    }
}

/// A request to change an authorization (RFC 8555, section 7.5.2): a client
/// gives up an authorization by setting it to deactivated.
#[derive(Clone, Debug, PartialEq, Eq)]
pub struct AuthorizationUpdate {
    /// The new status.
    pub status: AuthorizationStatus,
}

/// The view of an [`AuthorizationUpdate`].
pub ghost struct AuthorizationUpdateView {
    pub status: AuthorizationStatus,
}

impl DeepView for AuthorizationUpdate {
    type V = AuthorizationUpdateView;

    open spec fn deep_view(&self) -> AuthorizationUpdateView {
        AuthorizationUpdateView {
            status: self.status.deep_view(),
        }
    }
}

impl Wire for AuthorizationUpdate {
    open spec fn valid(v: AuthorizationUpdateView) -> bool {
        true
    }

    open spec fn to_json(v: AuthorizationUpdateView) -> Json {
        let m = no_members();
        let m = with::<AuthorizationStatus>(m, "status"@, v.status);
        Json::Object(m)
    }

    open spec fn from_json(j: Json) -> Result<AuthorizationUpdateView, DecodeErrorView> {
        let status = required::<AuthorizationStatus>(j, "status"@);
        if !(j is Object) {
            Err(misshapen())
        } else if status is Err {
            Err(status->Err_0)
        } else {
            Ok(
                AuthorizationUpdateView {
                    status: status->Ok_0,
                },
            )
        }
    }

    fn to_value(&self) -> (r: serde_json::Value) {
        let mut m = serde_json::Map::new();
        put(&mut m, "status", &self.status);
        crate::json::object(m)
    }

    fn from_value(v: &serde_json::Value) -> (r: Result<Self, DecodeError>) {
        if !v.is_object() {
            return Err(misshapen_error());
        }
        let status = get_required::<AuthorizationStatus>(v, "status")?;
        Ok(AuthorizationUpdate { status })
    }

    proof fn round_trip(v: AuthorizationUpdateView) {
        AuthorizationStatus::round_trip(v.status);
    }

    proof fn decoded_is_valid(j: Json) {
    }
}

impl AuthorizationUpdate {
    /// The wire names of the members of an `AuthorizationUpdate`.
    pub open spec fn member_names() -> Set<Seq<char>> {
        set!["status"@]
    }

    /// What the encoding of an `AuthorizationUpdate` holds, member by member. A member that
    /// is required is always there. One that is left out when absent is
    /// there exactly when the value has it. One that is always written holds
    /// `null` when the value has none. There are no other members.
    pub proof fn lemma_encoded_members(v: AuthorizationUpdateView, name: Seq<char>)
        ensures
            AuthorizationUpdate::to_json(v) is Object,
            member_of(AuthorizationUpdate::to_json(v), "status"@) == Some(
                AuthorizationStatus::to_json(v.status),
            ),
            !AuthorizationUpdate::member_names().contains(name) ==> member_of(
                AuthorizationUpdate::to_json(v),
                name,
            ) is None,
    {
    }

    /// A member under a name that the record does not have changes nothing of
    /// what is decoded.
    pub proof fn lemma_unknown_member_ignored(j: Json, name: Seq<char>, x: Json)
        requires
            !AuthorizationUpdate::member_names().contains(name),
        ensures
            AuthorizationUpdate::from_json(extended(j, name, x))
                == AuthorizationUpdate::from_json(j),
    {
    }
}

impl AuthorizationUpdate {
    /// Decodes an `AuthorizationUpdate` from a JSON text.
    pub fn from_str(s: &str) -> (r: Result<AuthorizationUpdate, DecodeError>)
        ensures
            outcome(r) == decode_text::<AuthorizationUpdate>(s@),
    {
        from_text::<AuthorizationUpdate>(s)
    }

    /// Encodes an `AuthorizationUpdate` as a JSON text. Whether there is a text is for the
    /// printer to say; what it prints is the encoding of `self`.
    pub fn to_string(&self) -> (r: Result<String, EncodeError>)
        ensures
            match r {
                Ok(s) => encode_text::<AuthorizationUpdate>(self.deep_view()) == Some(s@),
                Err(_) => encode_text::<AuthorizationUpdate>(self.deep_view()) is None,
            },
    {
        to_text::<AuthorizationUpdate>(self)
    }
}

} // verus!
