//! Orders: the order resource, the requests around it, and the revocation of
//! a certificate.

use vstd::prelude::*;
use crate::json::{Json, no_members};
use crate::text::{decimal, format_i32, i32_of, lemma_decimal_round_trip, parse_i32, str_eq};
use crate::v2::identifier::{Identifier, IdentifierView};
use crate::wire::{
    DecodeError, DecodeErrorView, EncodeError, Wire, decode_text, encode_text, extended,
    from_text, get_optional, get_required, member_of, misshapen, misshapen_error, optional,
    outcome, put, put_nullable, put_optional, required, to_text, with, with_nullable,
    with_optional,
};

verus! {

/// Order resource status values (RFC 8555, section 7.1.6).
#[derive(Clone, Copy, Debug, PartialEq, Eq)]
pub enum OrderStatus {
    Pending,
    Ready,
    Processing,
    Valid,
    Invalid,
}

/// The wire strings of `OrderStatus` differ from one another.
proof fn lemma_order_status_names()
    ensures
        "pending"@.len() == 7,
        "pending"@[0] == 'p',
        "ready"@.len() == 5,
        "ready"@[0] == 'r',
        "processing"@.len() == 10,
        "valid"@.len() == 5,
        "valid"@[0] == 'v',
        "invalid"@.len() == 7,
        "invalid"@[0] == 'i',
{
    reveal_strlit("pending");
    reveal_strlit("ready");
    reveal_strlit("processing");
    reveal_strlit("valid");
    reveal_strlit("invalid");
}

impl OrderStatus {
    /// The wire string of a variant.
    pub open spec fn wire(self) -> Seq<char> {
        match self {
            OrderStatus::Pending => "pending"@,
            OrderStatus::Ready => "ready"@,
            OrderStatus::Processing => "processing"@,
            OrderStatus::Valid => "valid"@,
            OrderStatus::Invalid => "invalid"@,
        }
    }

    /// The variant that a wire string stands for, `None` for a string outside
    /// the vocabulary.
    pub open spec fn from_wire(s: Seq<char>) -> Option<OrderStatus> {
        if s == "pending"@ {
            Some(OrderStatus::Pending)
        } else if s == "ready"@ {
            Some(OrderStatus::Ready)
        } else if s == "processing"@ {
            Some(OrderStatus::Processing)
        } else if s == "valid"@ {
            Some(OrderStatus::Valid)
        } else if s == "invalid"@ {
            Some(OrderStatus::Invalid)
        } else {
            None
        }
    }

    /// The wire string of a variant.
    pub fn encode(&self) -> (r: &'static str)
        ensures
            r@ == self.wire(),
    {
        match self {
            OrderStatus::Pending => "pending",
            OrderStatus::Ready => "ready",
            OrderStatus::Processing => "processing",
            OrderStatus::Valid => "valid",
            OrderStatus::Invalid => "invalid",
        }
    }

    /// The variant that a wire string stands for. A string outside the
    /// vocabulary is an error, never a default.
    pub fn decode(s: &str) -> (r: Result<OrderStatus, DecodeError>)
        ensures
            r == (match OrderStatus::from_wire(s@) {
                Some(v) => Ok::<OrderStatus, DecodeError>(v),
                None => Err(DecodeError::UnknownVariant),
            }),
    {
        if str_eq(s, "pending") {
            Ok(OrderStatus::Pending)
        } else if str_eq(s, "ready") {
            Ok(OrderStatus::Ready)
        } else if str_eq(s, "processing") {
            Ok(OrderStatus::Processing)
        } else if str_eq(s, "valid") {
            Ok(OrderStatus::Valid)
        } else if str_eq(s, "invalid") {
            Ok(OrderStatus::Invalid)
        } else {
            Err(DecodeError::UnknownVariant)
        }
    }

    /// Variants and wire strings correspond one to one: decoding the wire
    /// string of a variant gives the variant, and a string decodes to a
    /// variant only where it is that variant's wire string.
    pub proof fn lemma_bijection(v: OrderStatus, s: Seq<char>)
        ensures
            OrderStatus::from_wire(v.wire()) == Some(v),
            OrderStatus::from_wire(s) == Some(v) <==> v.wire() == s,
    {
        lemma_order_status_names();
    }
}

impl DeepView for OrderStatus {
    type V = OrderStatus;

    open spec fn deep_view(&self) -> OrderStatus {
        *self
    }
}

impl Wire for OrderStatus {
    open spec fn valid(v: OrderStatus) -> bool {
        true
    }

    open spec fn to_json(v: OrderStatus) -> Json {
        Json::Str(v.wire())
    }

    open spec fn from_json(j: Json) -> Result<OrderStatus, DecodeErrorView> {
        match j {
            Json::Str(s) => match OrderStatus::from_wire(s) {
                Some(v) => Ok(v),
                None => Err(DecodeErrorView::UnknownVariant),
            },
            _ => Err(misshapen()),
        }
    }

    fn to_value(&self) -> (r: serde_json::Value) {
        crate::json::string(self.encode().to_owned())
    }

    fn from_value(v: &serde_json::Value) -> (r: Result<Self, DecodeError>) {
        match v.as_str() {
            Some(s) => OrderStatus::decode(s),
            None => Err(misshapen_error()),
        }
    }

    proof fn round_trip(v: OrderStatus) {
        OrderStatus::lemma_bijection(v, v.wire());
    }

    proof fn decoded_is_valid(j: Json) {
    }
}

/// Why a certificate is revoked: the reason codes of RFC 5280, section 5.3.1.
///
/// The list is open. `Other` holds a code that has no variant of its own; the
/// code 7, which the RFC leaves unassigned, is one of them.
#[derive(Clone, Copy, Debug, PartialEq, Eq)]
pub enum CertificateRevocationReason {
    Unspecified,
    KeyCompromise,
    CertificateAuthorityCompromise,
    AffiliationChanged,
    Superseded,
    CessationOfOperation,
    CertificateHold,
    RemoveFromCertificateRevocationList,
    PrivilegeWithdrawn,
    AuthorityAttributeCompromise,
    Other(i32),
}

impl DeepView for CertificateRevocationReason {
    type V = CertificateRevocationReason;

    open spec fn deep_view(&self) -> CertificateRevocationReason {
        *self
    }
}

impl CertificateRevocationReason {
    /// The code of a reason.
    pub open spec fn code(self) -> i32 {
        match self {
            CertificateRevocationReason::Unspecified => 0,
            CertificateRevocationReason::KeyCompromise => 1,
            CertificateRevocationReason::CertificateAuthorityCompromise => 2,
            CertificateRevocationReason::AffiliationChanged => 3,
            CertificateRevocationReason::Superseded => 4,
            CertificateRevocationReason::CessationOfOperation => 5,
            CertificateRevocationReason::CertificateHold => 6,
            CertificateRevocationReason::RemoveFromCertificateRevocationList => 8,
            CertificateRevocationReason::PrivilegeWithdrawn => 9,
            CertificateRevocationReason::AuthorityAttributeCompromise => 10,
            CertificateRevocationReason::Other(n) => n,
        }
    }

    /// The reason that a code stands for: the named reason of a code in the
    /// table, and `Other` holding the code for any other integer.
    pub open spec fn of_code(n: i32) -> CertificateRevocationReason {
        if n == 0 {
            CertificateRevocationReason::Unspecified
        } else if n == 1 {
            CertificateRevocationReason::KeyCompromise
        } else if n == 2 {
            CertificateRevocationReason::CertificateAuthorityCompromise
        } else if n == 3 {
            CertificateRevocationReason::AffiliationChanged
        } else if n == 4 {
            CertificateRevocationReason::Superseded
        } else if n == 5 {
            CertificateRevocationReason::CessationOfOperation
        } else if n == 6 {
            CertificateRevocationReason::CertificateHold
        } else if n == 8 {
            CertificateRevocationReason::RemoveFromCertificateRevocationList
        } else if n == 9 {
            CertificateRevocationReason::PrivilegeWithdrawn
        } else if n == 10 {
            CertificateRevocationReason::AuthorityAttributeCompromise
        } else {
            CertificateRevocationReason::Other(n)
        }
    }

    /// Whether a value is the one that its own code decodes to. Every named
    /// reason is; `Other(n)` is unless `n` is the code of a named reason.
    pub open spec fn canonical(self) -> bool {
        self matches CertificateRevocationReason::Other(n)
            ==> CertificateRevocationReason::of_code(n) == self
    }

    /// The code of a reason.
    pub fn to_code(&self) -> (n: i32)
        ensures
            n == self.code(),
    {
        match self {
            CertificateRevocationReason::Unspecified => 0,
            CertificateRevocationReason::KeyCompromise => 1,
            CertificateRevocationReason::CertificateAuthorityCompromise => 2,
            CertificateRevocationReason::AffiliationChanged => 3,
            CertificateRevocationReason::Superseded => 4,
            CertificateRevocationReason::CessationOfOperation => 5,
            CertificateRevocationReason::CertificateHold => 6,
            CertificateRevocationReason::RemoveFromCertificateRevocationList => 8,
            CertificateRevocationReason::PrivilegeWithdrawn => 9,
            CertificateRevocationReason::AuthorityAttributeCompromise => 10,
            CertificateRevocationReason::Other(n) => *n,
        }
    }

    /// The reason that a code stands for. Each code of the table gives its
    /// named reason; 7, and every integer below 0 or above 10, gives `Other`
    /// holding that integer.
    pub fn from_code(n: i32) -> (r: CertificateRevocationReason)
        ensures
            r == CertificateRevocationReason::of_code(n),
            r.code() == n,
            n == 0 ==> r == CertificateRevocationReason::Unspecified,
            n == 1 ==> r == CertificateRevocationReason::KeyCompromise,
            n == 2 ==> r == CertificateRevocationReason::CertificateAuthorityCompromise,
            n == 3 ==> r == CertificateRevocationReason::AffiliationChanged,
            n == 4 ==> r == CertificateRevocationReason::Superseded,
            n == 5 ==> r == CertificateRevocationReason::CessationOfOperation,
            n == 6 ==> r == CertificateRevocationReason::CertificateHold,
            n == 8 ==> r == CertificateRevocationReason::RemoveFromCertificateRevocationList,
            n == 9 ==> r == CertificateRevocationReason::PrivilegeWithdrawn,
            n == 10 ==> r == CertificateRevocationReason::AuthorityAttributeCompromise,
            n == 7 || n < 0 || n > 10 ==> r == CertificateRevocationReason::Other(n),
    {
        match n {
            0 => CertificateRevocationReason::Unspecified,
            1 => CertificateRevocationReason::KeyCompromise,
            2 => CertificateRevocationReason::CertificateAuthorityCompromise,
            3 => CertificateRevocationReason::AffiliationChanged,
            4 => CertificateRevocationReason::Superseded,
            5 => CertificateRevocationReason::CessationOfOperation,
            6 => CertificateRevocationReason::CertificateHold,
            8 => CertificateRevocationReason::RemoveFromCertificateRevocationList,
            9 => CertificateRevocationReason::PrivilegeWithdrawn,
            10 => CertificateRevocationReason::AuthorityAttributeCompromise,
            _ => CertificateRevocationReason::Other(n),
        }
    }

    /// Codes and canonical reasons correspond one to one: the reason of a
    /// code has that code, and the code of a canonical reason gives it back.
    pub proof fn lemma_codes(v: CertificateRevocationReason, n: i32)
        ensures
            CertificateRevocationReason::of_code(n).code() == n,
            CertificateRevocationReason::of_code(n).canonical(),
            v.canonical() ==> CertificateRevocationReason::of_code(v.code()) == v,
    {
    }
}

/// Writes a revocation reason as its wire string: its code in decimal.
pub fn certificate_revocation_reason_serialize(reason: &CertificateRevocationReason) -> (r: String)
    ensures
        r@ == decimal(reason.code() as int),
{
    format_i32(reason.to_code())
}

/// Reads a revocation reason from its wire string. The string has to denote
/// an integer that fits 32 bits; `InvalidValue` where it does not.
pub fn certificate_revocation_reason_deserialize(s: &str) -> (r: Result<
    CertificateRevocationReason,
    DecodeError,
>)
    ensures
        r == (match i32_of(s@) {
            Some(n) => Ok::<CertificateRevocationReason, DecodeError>(
                CertificateRevocationReason::of_code(n),
            ),
            None => Err(DecodeError::InvalidValue),
        }),
{
    match parse_i32(s) {
        Some(n) => Ok(CertificateRevocationReason::from_code(n)),
        None => Err(DecodeError::InvalidValue),
    }
}

impl Wire for CertificateRevocationReason {
    open spec fn valid(v: CertificateRevocationReason) -> bool {
        v.canonical()
    }

    open spec fn to_json(v: CertificateRevocationReason) -> Json {
        Json::Str(decimal(v.code() as int))
    }

    open spec fn from_json(j: Json) -> Result<CertificateRevocationReason, DecodeErrorView> {
        match j {
            Json::Str(s) => match i32_of(s) {
                Some(n) => Ok(CertificateRevocationReason::of_code(n)),
                None => Err(DecodeErrorView::InvalidValue),
            },
            _ => Err(misshapen()),
        }
    }

    fn to_value(&self) -> (r: serde_json::Value) {
        crate::json::string(certificate_revocation_reason_serialize(self))
    }

    fn from_value(v: &serde_json::Value) -> (r: Result<Self, DecodeError>) {
        match v.as_str() {
            Some(s) => certificate_revocation_reason_deserialize(s),
            None => Err(misshapen_error()),
        }
    }

    proof fn round_trip(v: CertificateRevocationReason) {
        lemma_decimal_round_trip(v.code() as int);
    }

    proof fn decoded_is_valid(j: Json) {
    }
}

/// A request for a new order (RFC 8555, section 7.4).
#[derive(Clone, Debug, PartialEq, Eq)]
pub struct NewOrder {
    /// The identifiers that the certificate is to cover.
    pub identifiers: Vec<Identifier>,
    /// Requested start of the certificate's validity, an RFC 3339 timestamp.
    pub not_before: Option<String>,
    /// Requested end of the certificate's validity, an RFC 3339 timestamp.
    pub not_after: Option<String>,
}

/// The view of a [`NewOrder`].
pub ghost struct NewOrderView {
    pub identifiers: Seq<IdentifierView>,
    pub not_before: Option<Seq<char>>,
    pub not_after: Option<Seq<char>>,
}

impl DeepView for NewOrder {
    type V = NewOrderView;

    open spec fn deep_view(&self) -> NewOrderView {
        NewOrderView {
            identifiers: self.identifiers.deep_view(),
            not_before: self.not_before.deep_view(),
            not_after: self.not_after.deep_view(),
        }
    }
}

/// The member names of a `NewOrder` differ from one another.
proof fn lemma_new_order_names()
    ensures
        "identifiers"@.len() == 11,
        "notBefore"@.len() == 9,
        "notAfter"@.len() == 8,
{
    reveal_strlit("identifiers");
    reveal_strlit("notBefore");
    reveal_strlit("notAfter");
}

impl Wire for NewOrder {
    open spec fn valid(v: NewOrderView) -> bool {
        true
    }

    open spec fn to_json(v: NewOrderView) -> Json {
        let m = no_members();
        let m = with::<Vec<Identifier>>(m, "identifiers"@, v.identifiers);
        let m = with_optional::<String>(m, "notBefore"@, v.not_before);
        let m = with_optional::<String>(m, "notAfter"@, v.not_after);
        Json::Object(m)
    }

    open spec fn from_json(j: Json) -> Result<NewOrderView, DecodeErrorView> {
        let identifiers = required::<Vec<Identifier>>(j, "identifiers"@);
        let not_before = optional::<String>(j, "notBefore"@);
        let not_after = optional::<String>(j, "notAfter"@);
        if !(j is Object) {
            Err(misshapen())
        } else if identifiers is Err {
            Err(identifiers->Err_0)
        } else if not_before is Err {
            Err(not_before->Err_0)
        } else if not_after is Err {
            Err(not_after->Err_0)
        } else {
            Ok(
                NewOrderView {
                    identifiers: identifiers->Ok_0,
                    not_before: not_before->Ok_0,
                    not_after: not_after->Ok_0,
                },
            )
        }
    }

    fn to_value(&self) -> (r: serde_json::Value) {
        let mut m = serde_json::Map::new();
        put(&mut m, "identifiers", &self.identifiers);
        put_optional(&mut m, "notBefore", &self.not_before);
        put_optional(&mut m, "notAfter", &self.not_after);
        crate::json::object(m)
    }

    fn from_value(v: &serde_json::Value) -> (r: Result<Self, DecodeError>) {
        if !v.is_object() {
            return Err(misshapen_error());
        }
        let identifiers = get_required::<Vec<Identifier>>(v, "identifiers")?;
        let not_before = get_optional::<String>(v, "notBefore")?;
        let not_after = get_optional::<String>(v, "notAfter")?;
        Ok(NewOrder { identifiers, not_before, not_after })
    }

    proof fn round_trip(v: NewOrderView) {
        lemma_new_order_names();
        <Vec<Identifier> as Wire>::round_trip(v.identifiers);
        if let Some(x) = v.not_before {
            String::round_trip(x);
        }
        if let Some(x) = v.not_after {
            String::round_trip(x);
        }
    }

    proof fn decoded_is_valid(j: Json) {
    }
}

impl NewOrder {
    /// The wire names of the members of a `NewOrder`.
    pub open spec fn member_names() -> Set<Seq<char>> {
        set!["identifiers"@, "notBefore"@, "notAfter"@]
    }

    /// What the encoding of a `NewOrder` holds, member by member. A member that
    /// is required is always there. One that is left out when absent is
    /// there exactly when the value has it. One that is always written holds
    /// `null` when the value has none. There are no other members.
    pub proof fn lemma_encoded_members(v: NewOrderView, name: Seq<char>)
        ensures
            NewOrder::to_json(v) is Object,
            member_of(NewOrder::to_json(v), "identifiers"@) == Some(
                <Vec<Identifier> as Wire>::to_json(v.identifiers),
            ),
            member_of(NewOrder::to_json(v), "notBefore"@) == (match v.not_before {
                Some(x) => Some(String::to_json(x)),
                None => None,
            }),
            member_of(NewOrder::to_json(v), "notAfter"@) == (match v.not_after {
                Some(x) => Some(String::to_json(x)),
                None => None,
            }),
            !NewOrder::member_names().contains(name) ==> member_of(
                NewOrder::to_json(v),
                name,
            ) is None,
    {
        lemma_new_order_names();
    }

    /// A member under a name that the record does not have changes nothing of
    /// what is decoded.
    pub proof fn lemma_unknown_member_ignored(j: Json, name: Seq<char>, x: Json)
        requires
            !NewOrder::member_names().contains(name),
        ensures
            NewOrder::from_json(extended(j, name, x)) == NewOrder::from_json(j),
    {
    }
}

impl NewOrder {
    /// Decodes a `NewOrder` from a JSON text.
    pub fn from_str(s: &str) -> (r: Result<NewOrder, DecodeError>)
        ensures
            outcome(r) == decode_text::<NewOrder>(s@),
    {
        from_text::<NewOrder>(s)
    }

    /// Encodes a `NewOrder` as a JSON text. Whether there is a text is for the
    /// printer to say; what it prints is the encoding of `self`.
    pub fn to_string(&self) -> (r: Result<String, EncodeError>)
        ensures
            match r {
                Ok(s) => encode_text::<NewOrder>(self.deep_view()) == Some(s@),
                Err(_) => encode_text::<NewOrder>(self.deep_view()) is None,
            },
    {
        to_text::<NewOrder>(self)
    }
}

/// An ACME order resource (RFC 8555, section 7.1.3). Two of its members,
/// `error` and `authorizations`, are always written, as `null` when they are
/// not set; every other member that is not set is left out.
#[derive(Clone, Debug, PartialEq, Eq)]
pub struct Order {
    /// Order status.
    pub status: OrderStatus,
    /// Expiration time.
    pub expires: String,
    /// The identifiers that the certificate is to cover.
    pub identifiers: Vec<Identifier>,
    /// Requested start of the certificate's validity.
    pub not_before: Option<String>,
    /// Requested end of the certificate's validity.
    pub not_after: Option<String>,
    /// Error met while the order was processed.
    pub error: Option<String>,
    /// URLs of the authorizations that have to be completed before the order
    /// can be finalized.
    pub authorizations: Option<Vec<String>>,
    /// URL to finalize the order.
    pub finalize: String,
    /// URL of the certificate that was issued.
    pub certificate: String,
}

/// The view of an [`Order`].
pub ghost struct OrderView {
    pub status: OrderStatus,
    pub expires: Seq<char>,
    pub identifiers: Seq<IdentifierView>,
    pub not_before: Option<Seq<char>>,
    pub not_after: Option<Seq<char>>,
    pub error: Option<Seq<char>>,
    pub authorizations: Option<Seq<Seq<char>>>,
    pub finalize: Seq<char>,
    pub certificate: Seq<char>,
}

impl DeepView for Order {
    type V = OrderView;

    open spec fn deep_view(&self) -> OrderView {
        OrderView {
            status: self.status.deep_view(),
            expires: self.expires.deep_view(),
            identifiers: self.identifiers.deep_view(),
            not_before: self.not_before.deep_view(),
            not_after: self.not_after.deep_view(),
            error: self.error.deep_view(),
            authorizations: self.authorizations.deep_view(),
            finalize: self.finalize.deep_view(),
            certificate: self.certificate.deep_view(),
        }
    }
}

/// The member names of an `Order` differ from one another.
proof fn lemma_order_names()
    ensures
        "status"@.len() == 6,
        "expires"@.len() == 7,
        "identifiers"@.len() == 11,
        "identifiers"@[0] == 'i',
        "notBefore"@.len() == 9,
        "notAfter"@.len() == 8,
        "notAfter"@[0] == 'n',
        "error"@.len() == 5,
        "authorizations"@.len() == 14,
        "finalize"@.len() == 8,
        "finalize"@[0] == 'f',
        "certificate"@.len() == 11,
        "certificate"@[0] == 'c',
{
    reveal_strlit("status");
    reveal_strlit("expires");
    reveal_strlit("identifiers");
    reveal_strlit("notBefore");
    reveal_strlit("notAfter");
    reveal_strlit("error");
    reveal_strlit("authorizations");
    reveal_strlit("finalize");
    reveal_strlit("certificate");
}

impl Wire for Order {
    open spec fn valid(v: OrderView) -> bool {
        true
    }

    open spec fn to_json(v: OrderView) -> Json {
        let m = no_members();
        let m = with::<OrderStatus>(m, "status"@, v.status);
        let m = with::<String>(m, "expires"@, v.expires);
        let m = with::<Vec<Identifier>>(m, "identifiers"@, v.identifiers);
        let m = with_optional::<String>(m, "notBefore"@, v.not_before);
        let m = with_optional::<String>(m, "notAfter"@, v.not_after);
        let m = with_nullable::<String>(m, "error"@, v.error);
        let m = with_nullable::<Vec<String>>(m, "authorizations"@, v.authorizations);
        let m = with::<String>(m, "finalize"@, v.finalize);
        let m = with::<String>(m, "certificate"@, v.certificate);
        Json::Object(m)
    }

    open spec fn from_json(j: Json) -> Result<OrderView, DecodeErrorView> {
        let status = required::<OrderStatus>(j, "status"@);
        let expires = required::<String>(j, "expires"@);
        let identifiers = required::<Vec<Identifier>>(j, "identifiers"@);
        let not_before = optional::<String>(j, "notBefore"@);
        let not_after = optional::<String>(j, "notAfter"@);
        let error = optional::<String>(j, "error"@);
        let authorizations = optional::<Vec<String>>(j, "authorizations"@);
        let finalize = required::<String>(j, "finalize"@);
        let certificate = required::<String>(j, "certificate"@);
        if !(j is Object) {
            Err(misshapen())
        } else if status is Err {
            Err(status->Err_0)
        } else if expires is Err {
            Err(expires->Err_0)
        } else if identifiers is Err {
            Err(identifiers->Err_0)
        } else if not_before is Err {
            Err(not_before->Err_0)
        } else if not_after is Err {
            Err(not_after->Err_0)
        } else if error is Err {
            Err(error->Err_0)
        } else if authorizations is Err {
            Err(authorizations->Err_0)
        } else if finalize is Err {
            Err(finalize->Err_0)
        } else if certificate is Err {
            Err(certificate->Err_0)
        } else {
            Ok(
                OrderView {
                    status: status->Ok_0,
                    expires: expires->Ok_0,
                    identifiers: identifiers->Ok_0,
                    not_before: not_before->Ok_0,
                    not_after: not_after->Ok_0,
                    error: error->Ok_0,
                    authorizations: authorizations->Ok_0,
                    finalize: finalize->Ok_0,
                    certificate: certificate->Ok_0,
                },
            )
        }
    }

    fn to_value(&self) -> (r: serde_json::Value) {
        let mut m = serde_json::Map::new();
        put(&mut m, "status", &self.status);
        put(&mut m, "expires", &self.expires);
        put(&mut m, "identifiers", &self.identifiers);
        put_optional(&mut m, "notBefore", &self.not_before);
        put_optional(&mut m, "notAfter", &self.not_after);
        put_nullable(&mut m, "error", &self.error);
        put_nullable(&mut m, "authorizations", &self.authorizations);
        put(&mut m, "finalize", &self.finalize);
        put(&mut m, "certificate", &self.certificate);
        crate::json::object(m)
    }

    fn from_value(v: &serde_json::Value) -> (r: Result<Self, DecodeError>) {
        if !v.is_object() {
            return Err(misshapen_error());
        }
        let status = get_required::<OrderStatus>(v, "status")?;
        let expires = get_required::<String>(v, "expires")?;
        let identifiers = get_required::<Vec<Identifier>>(v, "identifiers")?;
        let not_before = get_optional::<String>(v, "notBefore")?;
        let not_after = get_optional::<String>(v, "notAfter")?;
        let error = get_optional::<String>(v, "error")?;
        let authorizations = get_optional::<Vec<String>>(v, "authorizations")?;
        let finalize = get_required::<String>(v, "finalize")?;
        let certificate = get_required::<String>(v, "certificate")?;
        Ok(
            Order {
                status,
                expires,
                identifiers,
                not_before,
                not_after,
                error,
                authorizations,
                finalize,
                certificate,
            },
        )
    }

    proof fn round_trip(v: OrderView) {
        lemma_order_names();
        OrderStatus::round_trip(v.status);
        String::round_trip(v.expires);
        <Vec<Identifier> as Wire>::round_trip(v.identifiers);
        if let Some(x) = v.not_before {
            String::round_trip(x);
        }
        if let Some(x) = v.not_after {
            String::round_trip(x);
        }
        if let Some(x) = v.error {
            String::round_trip(x);
        }
        if let Some(x) = v.authorizations {
            <Vec<String> as Wire>::round_trip(x);
        }
        String::round_trip(v.finalize);
        String::round_trip(v.certificate);
    }

    proof fn decoded_is_valid(j: Json) {
    }
}

impl Order {
    /// The wire names of the members of an `Order`.
    pub open spec fn member_names() -> Set<Seq<char>> {
        set![
            "status"@, "expires"@, "identifiers"@, "notBefore"@, "notAfter"@, "error"@,
            "authorizations"@, "finalize"@, "certificate"@
        ]
    }

    /// What the encoding of an `Order` holds, member by member. A member that
    /// is required is always there. One that is left out when absent is
    /// there exactly when the value has it. One that is always written holds
    /// `null` when the value has none. There are no other members.
    pub proof fn lemma_encoded_members(v: OrderView, name: Seq<char>)
        ensures
            Order::to_json(v) is Object,
            member_of(Order::to_json(v), "status"@) == Some(OrderStatus::to_json(v.status)),
            member_of(Order::to_json(v), "expires"@) == Some(String::to_json(v.expires)),
            member_of(Order::to_json(v), "identifiers"@) == Some(
                <Vec<Identifier> as Wire>::to_json(v.identifiers),
            ),
            member_of(Order::to_json(v), "notBefore"@) == (match v.not_before {
                Some(x) => Some(String::to_json(x)),
                None => None,
            }),
            member_of(Order::to_json(v), "notAfter"@) == (match v.not_after {
                Some(x) => Some(String::to_json(x)),
                None => None,
            }),
            member_of(Order::to_json(v), "error"@) == Some(
                match v.error {
                    Some(x) => String::to_json(x),
                    None => Json::Null,
                },
            ),
            member_of(Order::to_json(v), "authorizations"@) == Some(
                match v.authorizations {
                    Some(x) => <Vec<String> as Wire>::to_json(x),
                    None => Json::Null,
                },
            ),
            member_of(Order::to_json(v), "finalize"@) == Some(String::to_json(v.finalize)),
            member_of(Order::to_json(v), "certificate"@) == Some(String::to_json(v.certificate)),
            !Order::member_names().contains(name) ==> member_of(Order::to_json(v), name) is None,
    {
        lemma_order_names();
    }

    /// A member under a name that the record does not have changes nothing of
    /// what is decoded.
    pub proof fn lemma_unknown_member_ignored(j: Json, name: Seq<char>, x: Json)
        requires
            !Order::member_names().contains(name),
        ensures
            Order::from_json(extended(j, name, x)) == Order::from_json(j),
    {
    }
}

impl Order {
    /// Decodes an `Order` from a JSON text.
    pub fn from_str(s: &str) -> (r: Result<Order, DecodeError>)
        ensures
            outcome(r) == decode_text::<Order>(s@),
    {
        from_text::<Order>(s)
    }

    /// Encodes an `Order` as a JSON text. Whether there is a text is for the
    /// printer to say; what it prints is the encoding of `self`.
    pub fn to_string(&self) -> (r: Result<String, EncodeError>)
        ensures
            match r {
                Ok(s) => encode_text::<Order>(self.deep_view()) == Some(s@),
                Err(_) => encode_text::<Order>(self.deep_view()) is None,
            },
    {
        to_text::<Order>(self)
    }
}

/// A request to finalize an order (RFC 8555, section 7.4).
#[derive(Clone, Debug, PartialEq, Eq)]
pub struct OrderFinalize {
    /// The certificate signing request: the base64url encoding of its DER form.
    pub certificate_signing_request: String,
}

/// The view of an [`OrderFinalize`].
pub ghost struct OrderFinalizeView {
    pub certificate_signing_request: Seq<char>,
}

impl DeepView for OrderFinalize {
    type V = OrderFinalizeView;

    open spec fn deep_view(&self) -> OrderFinalizeView {
        OrderFinalizeView {
            certificate_signing_request: self.certificate_signing_request.deep_view(),
        }
    }
}

impl Wire for OrderFinalize {
    open spec fn valid(v: OrderFinalizeView) -> bool {
        true
    }

    open spec fn to_json(v: OrderFinalizeView) -> Json {
        let m = no_members();
        let m = with::<String>(m, "csr"@, v.certificate_signing_request);
        Json::Object(m)
    }

    open spec fn from_json(j: Json) -> Result<OrderFinalizeView, DecodeErrorView> {
        let certificate_signing_request = required::<String>(j, "csr"@);
        if !(j is Object) {
            Err(misshapen())
        } else if certificate_signing_request is Err {
            Err(certificate_signing_request->Err_0)
        } else {
            Ok(
                OrderFinalizeView {
                    certificate_signing_request: certificate_signing_request->Ok_0,
                },
            )
        }
    }

    fn to_value(&self) -> (r: serde_json::Value) {
        let mut m = serde_json::Map::new();
        put(&mut m, "csr", &self.certificate_signing_request);
        crate::json::object(m)
    }

    fn from_value(v: &serde_json::Value) -> (r: Result<Self, DecodeError>) {
        if !v.is_object() {
            return Err(misshapen_error());
        }
        let certificate_signing_request = get_required::<String>(v, "csr")?;
        Ok(OrderFinalize { certificate_signing_request })
    }

    proof fn round_trip(v: OrderFinalizeView) {
        String::round_trip(v.certificate_signing_request);
    }

    proof fn decoded_is_valid(j: Json) {
    }
}

impl OrderFinalize {
    /// The wire names of the members of an `OrderFinalize`.
    pub open spec fn member_names() -> Set<Seq<char>> {
        set!["csr"@]
    }

    /// What the encoding of an `OrderFinalize` holds, member by member. A member that
    /// is required is always there. One that is left out when absent is
    /// there exactly when the value has it. One that is always written holds
    /// `null` when the value has none. There are no other members.
    pub proof fn lemma_encoded_members(v: OrderFinalizeView, name: Seq<char>)
        ensures
            OrderFinalize::to_json(v) is Object,
            member_of(OrderFinalize::to_json(v), "csr"@) == Some(
                String::to_json(v.certificate_signing_request),
            ),
            !OrderFinalize::member_names().contains(name) ==> member_of(
                OrderFinalize::to_json(v),
                name,
            ) is None,
    {
    }

    /// A member under a name that the record does not have changes nothing of
    /// what is decoded.
    pub proof fn lemma_unknown_member_ignored(j: Json, name: Seq<char>, x: Json)
        requires
            !OrderFinalize::member_names().contains(name),
        ensures
            OrderFinalize::from_json(extended(j, name, x)) == OrderFinalize::from_json(j),
    {
    }
}

impl OrderFinalize {
    /// Decodes an `OrderFinalize` from a JSON text.
    pub fn from_str(s: &str) -> (r: Result<OrderFinalize, DecodeError>)
        ensures
            outcome(r) == decode_text::<OrderFinalize>(s@),
    {
        from_text::<OrderFinalize>(s)
    }

    /// Encodes an `OrderFinalize` as a JSON text. Whether there is a text is for the
    /// printer to say; what it prints is the encoding of `self`.
    pub fn to_string(&self) -> (r: Result<String, EncodeError>)
        ensures
            match r {
                Ok(s) => encode_text::<OrderFinalize>(self.deep_view()) == Some(s@),
                Err(_) => encode_text::<OrderFinalize>(self.deep_view()) is None,
            },
    {
        to_text::<OrderFinalize>(self)
    }
}

/// A request to revoke a certificate (RFC 8555, section 7.6).
#[derive(Clone, Debug, PartialEq, Eq)]
pub struct CertificateRevocation {
    /// The certificate to revoke: the base64url encoding of its DER form.
    pub certificate: String,
    /// Reason for the revocation. On the wire it is a string that holds the
    /// reason's code in decimal.
    pub reason: Option<CertificateRevocationReason>,
}

/// The view of a [`CertificateRevocation`].
pub ghost struct CertificateRevocationView {
    pub certificate: Seq<char>,
    pub reason: Option<CertificateRevocationReason>,
}

impl DeepView for CertificateRevocation {
    type V = CertificateRevocationView;

    open spec fn deep_view(&self) -> CertificateRevocationView {
        CertificateRevocationView {
            certificate: self.certificate.deep_view(),
            reason: self.reason.deep_view(),
        }
    }
}

/// The member names of a `CertificateRevocation` differ from one another.
proof fn lemma_certificate_revocation_names()
    ensures
        "certificate"@.len() == 11,
        "reason"@.len() == 6,
{
    reveal_strlit("certificate");
    reveal_strlit("reason");
}

impl Wire for CertificateRevocation {
    open spec fn valid(v: CertificateRevocationView) -> bool {
        (v.reason matches Some(x) ==> CertificateRevocationReason::valid(x))
    }

    open spec fn to_json(v: CertificateRevocationView) -> Json {
        let m = no_members();
        let m = with::<String>(m, "certificate"@, v.certificate);
        let m = with_optional::<CertificateRevocationReason>(m, "reason"@, v.reason);
        Json::Object(m)
    }

    open spec fn from_json(j: Json) -> Result<CertificateRevocationView, DecodeErrorView> {
        let certificate = required::<String>(j, "certificate"@);
        let reason = optional::<CertificateRevocationReason>(j, "reason"@);
        if !(j is Object) {
            Err(misshapen())
        } else if certificate is Err {
            Err(certificate->Err_0)
        } else if reason is Err {
            Err(reason->Err_0)
        } else {
            Ok(
                CertificateRevocationView {
                    certificate: certificate->Ok_0,
                    reason: reason->Ok_0,
                },
            )
        }
    }

    fn to_value(&self) -> (r: serde_json::Value) {
        let mut m = serde_json::Map::new();
        put(&mut m, "certificate", &self.certificate);
        put_optional(&mut m, "reason", &self.reason);
        crate::json::object(m)
    }

    fn from_value(v: &serde_json::Value) -> (r: Result<Self, DecodeError>) {
        if !v.is_object() {
            return Err(misshapen_error());
        }
        let certificate = get_required::<String>(v, "certificate")?;
        let reason = get_optional::<CertificateRevocationReason>(v, "reason")?;
        Ok(CertificateRevocation { certificate, reason })
    }

    proof fn round_trip(v: CertificateRevocationView) {
        lemma_certificate_revocation_names();
        String::round_trip(v.certificate);
        if let Some(x) = v.reason {
            CertificateRevocationReason::round_trip(x);
        }
    }

    proof fn decoded_is_valid(j: Json) {
        if let Some(x) = member_of(j, "reason"@) {
            CertificateRevocationReason::decoded_is_valid(x);
        }
    }
}

impl CertificateRevocation {
    /// The wire names of the members of a `CertificateRevocation`.
    pub open spec fn member_names() -> Set<Seq<char>> {
        set!["certificate"@, "reason"@]
    }

    /// What the encoding of a `CertificateRevocation` holds, member by member. A member that
    /// is required is always there. One that is left out when absent is
    /// there exactly when the value has it. One that is always written holds
    /// `null` when the value has none. There are no other members.
    pub proof fn lemma_encoded_members(v: CertificateRevocationView, name: Seq<char>)
        ensures
            CertificateRevocation::to_json(v) is Object,
            member_of(CertificateRevocation::to_json(v), "certificate"@) == Some(
                String::to_json(v.certificate),
            ),
            member_of(CertificateRevocation::to_json(v), "reason"@) == (match v.reason {
                Some(x) => Some(CertificateRevocationReason::to_json(x)),
                None => None,
            }),
            !CertificateRevocation::member_names().contains(name) ==> member_of(
                CertificateRevocation::to_json(v),
                name,
            ) is None,
    {
        lemma_certificate_revocation_names();
    }

    /// A member under a name that the record does not have changes nothing of
    /// what is decoded.
    pub proof fn lemma_unknown_member_ignored(j: Json, name: Seq<char>, x: Json)
        requires
            !CertificateRevocation::member_names().contains(name),
        ensures
            CertificateRevocation::from_json(extended(j, name, x))
                == CertificateRevocation::from_json(j),
    {
    }
}

impl CertificateRevocation {
    /// Decodes a `CertificateRevocation` from a JSON text.
    pub fn from_str(s: &str) -> (r: Result<CertificateRevocation, DecodeError>)
        ensures
            outcome(r) == decode_text::<CertificateRevocation>(s@),
    {
        from_text::<CertificateRevocation>(s)
    }

    /// Encodes a `CertificateRevocation` as a JSON text. Whether there is a text is for the
    /// printer to say; what it prints is the encoding of `self`.
    pub fn to_string(&self) -> (r: Result<String, EncodeError>)
        ensures
            match r {
                Ok(s) => encode_text::<CertificateRevocation>(self.deep_view()) == Some(s@),
                Err(_) => encode_text::<CertificateRevocation>(self.deep_view()) is None,
            },
    {
        to_text::<CertificateRevocation>(self)
    }
}

} // verus!
