//! Identifiers: what a certificate is ordered for.

use vstd::prelude::*;
use crate::json::{Json, no_members};
use crate::text::str_eq;
use crate::wire::{
    DecodeError, DecodeErrorView, Wire, extended, get_required, member_of, misshapen,
    misshapen_error, put, required, with,
};

verus! {

/// The kinds of identifier. The protocol has one so far: a DNS name.
#[derive(Clone, Copy, Debug, PartialEq, Eq)]
pub enum IdentifierType {
    Dns,
}

impl IdentifierType {
    /// The wire string of a variant.
    pub open spec fn wire(self) -> Seq<char> {
        match self {
            IdentifierType::Dns => "dns"@,
        }
    }

    /// The variant that a wire string stands for, `None` for a string outside
    /// the vocabulary.
    pub open spec fn from_wire(s: Seq<char>) -> Option<IdentifierType> {
        if s == "dns"@ {
            Some(IdentifierType::Dns)
        } else {
            None
        }
    }

    /// The wire string of a variant.
    pub fn encode(&self) -> (r: &'static str)
        ensures
            r@ == self.wire(),
    {
        match self {
            IdentifierType::Dns => "dns",
        }
    }

    /// The variant that a wire string stands for. A string outside the
    /// vocabulary is an error, never a default.
    pub fn decode(s: &str) -> (r: Result<IdentifierType, DecodeError>)
        ensures
            r == (match IdentifierType::from_wire(s@) {
                Some(v) => Ok::<IdentifierType, DecodeError>(v),
                None => Err(DecodeError::UnknownVariant),
            }),
    {
        if str_eq(s, "dns") {
            Ok(IdentifierType::Dns)
        } else {
            Err(DecodeError::UnknownVariant)
        }
    }

    /// Variants and wire strings correspond one to one: decoding the wire
    /// string of a variant gives the variant, and a string decodes to a
    /// variant only where it is that variant's wire string.
    pub proof fn lemma_bijection(v: IdentifierType, s: Seq<char>)
        ensures
            IdentifierType::from_wire(v.wire()) == Some(v),
            IdentifierType::from_wire(s) == Some(v) <==> v.wire() == s,
    {
    }
}

impl DeepView for IdentifierType {
    type V = IdentifierType;

    open spec fn deep_view(&self) -> IdentifierType {
        *self
    }
}

impl Wire for IdentifierType {
    open spec fn valid(v: IdentifierType) -> bool {
        true
    }

    open spec fn to_json(v: IdentifierType) -> Json {
        Json::Str(v.wire())
    }

    open spec fn from_json(j: Json) -> Result<IdentifierType, DecodeErrorView> {
        match j {
            Json::Str(s) => match IdentifierType::from_wire(s) {
                Some(v) => Ok(v),
                None => Err(DecodeErrorView::UnknownVariant),
            },
            _ => Err(misshapen()),
        }
    }

    fn to_value(&self) -> (r: serde_json::Value) {
        crate::json::string(self.encode().to_owned())
    }

    fn from_value(v: &serde_json::Value) -> (r: Result<Self, DecodeError>) {
        match v.as_str() {
            Some(s) => IdentifierType::decode(s),
            None => Err(misshapen_error()),
        }
    }

    proof fn round_trip(v: IdentifierType) {
        IdentifierType::lemma_bijection(v, v.wire());
    }

    proof fn decoded_is_valid(j: Json) {
    }
}

/// The identifier object of an order, of an authorization and of a request for
/// a new authorization.
#[derive(Clone, Debug, PartialEq, Eq)]
pub struct Identifier {
    /// Identifier type.
    pub type_: IdentifierType,
    /// Identifier value: a domain name, possibly with a wildcard label. It is
    /// not looked into here.
    pub value: String,
}

/// The view of an [`Identifier`].
pub ghost struct IdentifierView {
    pub type_: IdentifierType,
    pub value: Seq<char>,
}

impl DeepView for Identifier {
    type V = IdentifierView;

    open spec fn deep_view(&self) -> IdentifierView {
        IdentifierView {
            type_: self.type_.deep_view(),
            value: self.value.deep_view(),
        }
    }
}

/// The member names of an `Identifier` differ from one another.
proof fn lemma_identifier_names()
    ensures
        "type"@.len() == 4,
        "value"@.len() == 5,
{
    reveal_strlit("type");
    reveal_strlit("value");
}

impl Wire for Identifier {
    open spec fn valid(v: IdentifierView) -> bool {
        true
    }

    open spec fn to_json(v: IdentifierView) -> Json {
        let m = no_members();
        let m = with::<IdentifierType>(m, "type"@, v.type_);
        let m = with::<String>(m, "value"@, v.value);
        Json::Object(m)
    }

    open spec fn from_json(j: Json) -> Result<IdentifierView, DecodeErrorView> {
        let type_ = required::<IdentifierType>(j, "type"@);
        let value = required::<String>(j, "value"@);
        if !(j is Object) {
            Err(misshapen())
        } else if type_ is Err {
            Err(type_->Err_0)
        } else if value is Err {
            Err(value->Err_0)
        } else {
            Ok(
                IdentifierView {
                    type_: type_->Ok_0,
                    value: value->Ok_0,
                },
            )
        }
    }

    fn to_value(&self) -> (r: serde_json::Value) {
        let mut m = serde_json::Map::new();
        put(&mut m, "type", &self.type_);
        put(&mut m, "value", &self.value);
        crate::json::object(m)
    }

    fn from_value(v: &serde_json::Value) -> (r: Result<Self, DecodeError>) {
        if !v.is_object() {
            return Err(misshapen_error());
        }
        let type_ = get_required::<IdentifierType>(v, "type")?;
        let value = get_required::<String>(v, "value")?;
        Ok(Identifier { type_, value })
    }

    proof fn round_trip(v: IdentifierView) {
        lemma_identifier_names();
        IdentifierType::round_trip(v.type_);
        String::round_trip(v.value);
    }

    proof fn decoded_is_valid(j: Json) {
    }
}

impl Identifier {
    /// The wire names of the members of an `Identifier`.
    pub open spec fn member_names() -> Set<Seq<char>> {
        set!["type"@, "value"@]
    }

    /// What the encoding of an `Identifier` holds, member by member. A member that
    /// is required is always there. One that is left out when absent is
    /// there exactly when the value has it. One that is always written holds
    /// `null` when the value has none. There are no other members.
    pub proof fn lemma_encoded_members(v: IdentifierView, name: Seq<char>)
        ensures
            Identifier::to_json(v) is Object,
            member_of(Identifier::to_json(v), "type"@) == Some(IdentifierType::to_json(v.type_)),
            member_of(Identifier::to_json(v), "value"@) == Some(String::to_json(v.value)),
            !Identifier::member_names().contains(name) ==> member_of(
                Identifier::to_json(v),
                name,
            ) is None,
    {
        lemma_identifier_names();
    }

    /// A member under a name that the record does not have changes nothing of
    /// what is decoded.
    pub proof fn lemma_unknown_member_ignored(j: Json, name: Seq<char>, x: Json)
        requires
            !Identifier::member_names().contains(name),
        ensures
            Identifier::from_json(extended(j, name, x)) == Identifier::from_json(j),
    {
    }
}

} // verus!
