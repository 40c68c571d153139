//! Accounts: the account resource and the requests that create and change it.

use vstd::prelude::*;
use crate::json::{Json, no_members};
use crate::text::str_eq;
use crate::v2::jose::{JsonWebSignature, JsonWebSignatureView};
use crate::wire::{
    DecodeError, DecodeErrorView, EncodeError, Wire, decode_text, encode_text, extended,
    from_text, get_optional, get_required, member_of, misshapen, misshapen_error, optional,
    outcome, put, put_optional, required, to_text, with, with_optional,
};

verus! {

/// Account resource status values (RFC 8555, section 7.1.6).
#[derive(Clone, Copy, Debug, PartialEq, Eq)]
pub enum AccountStatus {
    Valid,
    Deactivated,
    Revoked,
}

/// The wire strings of `AccountStatus` differ from one another.
proof fn lemma_account_status_names()
    ensures
        "valid"@.len() == 5,
        "deactivated"@.len() == 11,
        "revoked"@.len() == 7,
{
    reveal_strlit("valid");
    reveal_strlit("deactivated");
    reveal_strlit("revoked");
}

impl AccountStatus {
    /// The wire string of a variant.
    pub open spec fn wire(self) -> Seq<char> {
        match self {
            AccountStatus::Valid => "valid"@,
            AccountStatus::Deactivated => "deactivated"@,
            AccountStatus::Revoked => "revoked"@,
        }
    }

    /// The variant that a wire string stands for, `None` for a string outside
    /// the vocabulary.
    pub open spec fn from_wire(s: Seq<char>) -> Option<AccountStatus> {
        if s == "valid"@ {
            Some(AccountStatus::Valid)
        } else if s == "deactivated"@ {
            Some(AccountStatus::Deactivated)
        } else if s == "revoked"@ {
            Some(AccountStatus::Revoked)
        } else {
            None
        }
    }

    /// The wire string of a variant.
    pub fn encode(&self) -> (r: &'static str)
        ensures
            r@ == self.wire(),
    {
        match self {
            AccountStatus::Valid => "valid",
            AccountStatus::Deactivated => "deactivated",
            AccountStatus::Revoked => "revoked",
        }
    }

    /// The variant that a wire string stands for. A string outside the
    /// vocabulary is an error, never a default.
    pub fn decode(s: &str) -> (r: Result<AccountStatus, DecodeError>)
        ensures
            r == (match AccountStatus::from_wire(s@) {
                Some(v) => Ok::<AccountStatus, DecodeError>(v),
                None => Err(DecodeError::UnknownVariant),
            }),
    {
        if str_eq(s, "valid") {
            Ok(AccountStatus::Valid)
        } else if str_eq(s, "deactivated") {
            Ok(AccountStatus::Deactivated)
        } else if str_eq(s, "revoked") {
            Ok(AccountStatus::Revoked)
        } else {
            Err(DecodeError::UnknownVariant)
        }
    }

    /// Variants and wire strings correspond one to one: decoding the wire
    /// string of a variant gives the variant, and a string decodes to a
    /// variant only where it is that variant's wire string.
    pub proof fn lemma_bijection(v: AccountStatus, s: Seq<char>)
        ensures
            AccountStatus::from_wire(v.wire()) == Some(v),
            AccountStatus::from_wire(s) == Some(v) <==> v.wire() == s,
    {
        lemma_account_status_names();
    }
}

impl DeepView for AccountStatus {
    type V = AccountStatus;

    open spec fn deep_view(&self) -> AccountStatus {
        *self
    }
}

impl Wire for AccountStatus {
    open spec fn valid(v: AccountStatus) -> bool {
        true
    }

    open spec fn to_json(v: AccountStatus) -> Json {
        Json::Str(v.wire())
    }

    open spec fn from_json(j: Json) -> Result<AccountStatus, DecodeErrorView> {
        match j {
            Json::Str(s) => match AccountStatus::from_wire(s) {
                Some(v) => Ok(v),
                None => Err(DecodeErrorView::UnknownVariant),
            },
            _ => Err(misshapen()),
        }
    }

    fn to_value(&self) -> (r: serde_json::Value) {
        crate::json::string(self.encode().to_owned())
    }

    fn from_value(v: &serde_json::Value) -> (r: Result<Self, DecodeError>) {
        match v.as_str() {
            Some(s) => AccountStatus::decode(s),
            None => Err(misshapen_error()),
        }
    }

    proof fn round_trip(v: AccountStatus) {
        AccountStatus::lemma_bijection(v, v.wire());
    }

    proof fn decoded_is_valid(j: Json) {
    }
}

/// A request to register an account (RFC 8555, section 7.3).
#[derive(Clone, Debug, PartialEq, Eq)]
pub struct NewAccount {
    /// How the provider can reach the client.
    pub contact: Option<String>,
    /// That the client agrees to the provider's terms of service.
    pub terms_of_service_agreed: Option<bool>,
    /// Asks for the existing account only: none is created where none exists.
    /// It changes the meaning of no other member.
    pub only_return_existing: Option<bool>,
    /// External account binding.
    pub external_account_binding: Option<JsonWebSignature>,
}

/// The view of a [`NewAccount`].
pub ghost struct NewAccountView {
    pub contact: Option<Seq<char>>,
    pub terms_of_service_agreed: Option<bool>,
    pub only_return_existing: Option<bool>,
    pub external_account_binding: Option<JsonWebSignatureView>,
}

impl DeepView for NewAccount {
    type V = NewAccountView;

    open spec fn deep_view(&self) -> NewAccountView {
        NewAccountView {
            contact: self.contact.deep_view(),
            terms_of_service_agreed: self.terms_of_service_agreed.deep_view(),
            only_return_existing: self.only_return_existing.deep_view(),
            external_account_binding: self.external_account_binding.deep_view(),
        }
    }
}

/// The member names of a `NewAccount` differ from one another.
proof fn lemma_new_account_names()
    ensures
        "contact"@.len() == 7,
        "termsOfServiceAgreed"@.len() == 20,
        "onlyReturnExisting"@.len() == 18,
        "externalAccountBinding"@.len() == 22,
{
    reveal_strlit("contact");
    reveal_strlit("termsOfServiceAgreed");
    reveal_strlit("onlyReturnExisting");
    reveal_strlit("externalAccountBinding");
}

impl Wire for NewAccount {
    open spec fn valid(v: NewAccountView) -> bool {
        true
    }

    open spec fn to_json(v: NewAccountView) -> Json {
        let m = no_members();
        let m = with_optional::<String>(m, "contact"@, v.contact);
        let m = with_optional::<bool>(m, "termsOfServiceAgreed"@, v.terms_of_service_agreed);
        let m = with_optional::<bool>(m, "onlyReturnExisting"@, v.only_return_existing);
        let m = with_optional::<JsonWebSignature>(
            m,
            "externalAccountBinding"@,
            v.external_account_binding,
        );
        Json::Object(m)
    }

    open spec fn from_json(j: Json) -> Result<NewAccountView, DecodeErrorView> {
        let contact = optional::<String>(j, "contact"@);
        let terms_of_service_agreed = optional::<bool>(j, "termsOfServiceAgreed"@);
        let only_return_existing = optional::<bool>(j, "onlyReturnExisting"@);
        let external_account_binding = optional::<JsonWebSignature>(j, "externalAccountBinding"@);
        if !(j is Object) {
            Err(misshapen())
        } else if contact is Err {
            Err(contact->Err_0)
        } else if terms_of_service_agreed is Err {
            Err(terms_of_service_agreed->Err_0)
        } else if only_return_existing is Err {
            Err(only_return_existing->Err_0)
        } else if external_account_binding is Err {
            Err(external_account_binding->Err_0)
        } else {
            Ok(
                NewAccountView {
                    contact: contact->Ok_0,
                    terms_of_service_agreed: terms_of_service_agreed->Ok_0,
                    only_return_existing: only_return_existing->Ok_0,
                    external_account_binding: external_account_binding->Ok_0,
                },
            )
        }
    }

    fn to_value(&self) -> (r: serde_json::Value) {
        let mut m = serde_json::Map::new();
        put_optional(&mut m, "contact", &self.contact);
        put_optional(&mut m, "termsOfServiceAgreed", &self.terms_of_service_agreed);
        put_optional(&mut m, "onlyReturnExisting", &self.only_return_existing);
        put_optional(&mut m, "externalAccountBinding", &self.external_account_binding);
        crate::json::object(m)
    }

    fn from_value(v: &serde_json::Value) -> (r: Result<Self, DecodeError>) {
        if !v.is_object() {
            return Err(misshapen_error());
        }
        let contact = get_optional::<String>(v, "contact")?;
        let terms_of_service_agreed = get_optional::<bool>(v, "termsOfServiceAgreed")?;
        let only_return_existing = get_optional::<bool>(v, "onlyReturnExisting")?;
        let external_account_binding = get_optional::<JsonWebSignature>(v, "externalAccountBinding")?;
        Ok(
            NewAccount {
                contact,
                terms_of_service_agreed,
                only_return_existing,
                external_account_binding,
            },
        )
    }

    proof fn round_trip(v: NewAccountView) {
        lemma_new_account_names();
        if let Some(x) = v.contact {
            String::round_trip(x);
        }
        if let Some(x) = v.terms_of_service_agreed {
            bool::round_trip(x);
        }
        if let Some(x) = v.only_return_existing {
            bool::round_trip(x);
        }
        if let Some(x) = v.external_account_binding {
            JsonWebSignature::round_trip(x);
        }
    }

    proof fn decoded_is_valid(j: Json) {
    }
}

impl NewAccount {
    /// The wire names of the members of a `NewAccount`.
    pub open spec fn member_names() -> Set<Seq<char>> {
        set![
            "contact"@, "termsOfServiceAgreed"@, "onlyReturnExisting"@,
            "externalAccountBinding"@
        ]
    }

    /// What the encoding of a `NewAccount` holds, member by member. A member that
    /// is required is always there. One that is left out when absent is
    /// there exactly when the value has it. One that is always written holds
    /// `null` when the value has none. There are no other members.
    pub proof fn lemma_encoded_members(v: NewAccountView, name: Seq<char>)
        ensures
            NewAccount::to_json(v) is Object,
            member_of(NewAccount::to_json(v), "contact"@) == (match v.contact {
                Some(x) => Some(String::to_json(x)),
                None => None,
            }),
            member_of(NewAccount::to_json(v), "termsOfServiceAgreed"@)
                == (match v.terms_of_service_agreed {
                Some(x) => Some(bool::to_json(x)),
                None => None,
            }),
            member_of(NewAccount::to_json(v), "onlyReturnExisting"@)
                == (match v.only_return_existing {
                Some(x) => Some(bool::to_json(x)),
                None => None,
            }),
            member_of(NewAccount::to_json(v), "externalAccountBinding"@)
                == (match v.external_account_binding {
                Some(x) => Some(JsonWebSignature::to_json(x)),
                None => None,
            }),
            !NewAccount::member_names().contains(name) ==> member_of(
                NewAccount::to_json(v),
                name,
            ) is None,
    {
        lemma_new_account_names();
    }

    /// A member under a name that the record does not have changes nothing of
    /// what is decoded.
    pub proof fn lemma_unknown_member_ignored(j: Json, name: Seq<char>, x: Json)
        requires
            !NewAccount::member_names().contains(name),
        ensures
            NewAccount::from_json(extended(j, name, x)) == NewAccount::from_json(j),
    {
    }
}

impl NewAccount {
    /// Decodes a `NewAccount` from a JSON text.
    pub fn from_str(s: &str) -> (r: Result<NewAccount, DecodeError>)
        ensures
            outcome(r) == decode_text::<NewAccount>(s@),
    {
        from_text::<NewAccount>(s)
    }

    /// Encodes a `NewAccount` as a JSON text. Whether there is a text is for the
    /// printer to say; what it prints is the encoding of `self`.
    pub fn to_string(&self) -> (r: Result<String, EncodeError>)
        ensures
            match r {
                Ok(s) => encode_text::<NewAccount>(self.deep_view()) == Some(s@),
                Err(_) => encode_text::<NewAccount>(self.deep_view()) is None,
            },
    {
        to_text::<NewAccount>(self)
    }
}

/// A request to change an account (RFC 8555, section 7.3.2). A member is set
/// only for what is to change.
#[derive(Clone, Debug, PartialEq, Eq)]
pub struct AccountUpdate {
    /// The new contact URLs.
    pub contact: Option<Vec<String>>,
    /// The new status; set to deactivate the account.
    pub status: Option<AccountStatus>,
    /// That the client agrees to the current terms of service.
    pub terms_of_service_agreed: Option<bool>,
}

/// The view of an [`AccountUpdate`].
pub ghost struct AccountUpdateView {
    pub contact: Option<Seq<Seq<char>>>,
    pub status: Option<AccountStatus>,
    pub terms_of_service_agreed: Option<bool>,
}

impl DeepView for AccountUpdate {
    type V = AccountUpdateView;

    open spec fn deep_view(&self) -> AccountUpdateView {
        AccountUpdateView {
            contact: self.contact.deep_view(),
            status: self.status.deep_view(),
            terms_of_service_agreed: self.terms_of_service_agreed.deep_view(),
        }
    }
}

/// The member names of an `AccountUpdate` differ from one another.
proof fn lemma_account_update_names()
    ensures
        "contact"@.len() == 7,
        "status"@.len() == 6,
        "termsOfServiceAgreed"@.len() == 20,
{
    reveal_strlit("contact");
    reveal_strlit("status");
    reveal_strlit("termsOfServiceAgreed");
}

impl Wire for AccountUpdate {
    open spec fn valid(v: AccountUpdateView) -> bool {
        true
    }

    open spec fn to_json(v: AccountUpdateView) -> Json {
        let m = no_members();
        let m = with_optional::<Vec<String>>(m, "contact"@, v.contact);
        let m = with_optional::<AccountStatus>(m, "status"@, v.status);
        let m = with_optional::<bool>(m, "termsOfServiceAgreed"@, v.terms_of_service_agreed);
        Json::Object(m)
    }

    open spec fn from_json(j: Json) -> Result<AccountUpdateView, DecodeErrorView> {
        let contact = optional::<Vec<String>>(j, "contact"@);
        let status = optional::<AccountStatus>(j, "status"@);
        let terms_of_service_agreed = optional::<bool>(j, "termsOfServiceAgreed"@);
        if !(j is Object) {
            Err(misshapen())
        } else if contact is Err {
            Err(contact->Err_0)
        } else if status is Err {
            Err(status->Err_0)
        } else if terms_of_service_agreed is Err {
            Err(terms_of_service_agreed->Err_0)
        } else {
            Ok(
                AccountUpdateView {
                    contact: contact->Ok_0,
                    status: status->Ok_0,
                    terms_of_service_agreed: terms_of_service_agreed->Ok_0,
                },
            )
        }
    }

    fn to_value(&self) -> (r: serde_json::Value) {
        let mut m = serde_json::Map::new();
        put_optional(&mut m, "contact", &self.contact);
        put_optional(&mut m, "status", &self.status);
        put_optional(&mut m, "termsOfServiceAgreed", &self.terms_of_service_agreed);
        crate::json::object(m)
    }

    fn from_value(v: &serde_json::Value) -> (r: Result<Self, DecodeError>) {
        if !v.is_object() {
            return Err(misshapen_error());
        }
        let contact = get_optional::<Vec<String>>(v, "contact")?;
        let status = get_optional::<AccountStatus>(v, "status")?;
        let terms_of_service_agreed = get_optional::<bool>(v, "termsOfServiceAgreed")?;
        Ok(AccountUpdate { contact, status, terms_of_service_agreed })
    }

    proof fn round_trip(v: AccountUpdateView) {
        lemma_account_update_names();
        if let Some(x) = v.contact {
            <Vec<String> as Wire>::round_trip(x);
        }
        if let Some(x) = v.status {
            AccountStatus::round_trip(x);
        }
        if let Some(x) = v.terms_of_service_agreed {
            bool::round_trip(x);
        }
    }

    proof fn decoded_is_valid(j: Json) {
    }
}

impl AccountUpdate {
    /// The wire names of the members of an `AccountUpdate`.
    pub open spec fn member_names() -> Set<Seq<char>> {
        set!["contact"@, "status"@, "termsOfServiceAgreed"@]
    }

    /// What the encoding of an `AccountUpdate` holds, member by member. A member that
    /// is required is always there. One that is left out when absent is
    /// there exactly when the value has it. One that is always written holds
    /// `null` when the value has none. There are no other members.
    pub proof fn lemma_encoded_members(v: AccountUpdateView, name: Seq<char>)
        ensures
            AccountUpdate::to_json(v) is Object,
            member_of(AccountUpdate::to_json(v), "contact"@) == (match v.contact {
                Some(x) => Some(<Vec<String> as Wire>::to_json(x)),
                None => None,
            }),
            member_of(AccountUpdate::to_json(v), "status"@) == (match v.status {
                Some(x) => Some(AccountStatus::to_json(x)),
                None => None,
            }),
            member_of(AccountUpdate::to_json(v), "termsOfServiceAgreed"@)
                == (match v.terms_of_service_agreed {
                Some(x) => Some(bool::to_json(x)),
                None => None,
            }),
            !AccountUpdate::member_names().contains(name) ==> member_of(
                AccountUpdate::to_json(v),
                name,
            ) is None,
    {
        lemma_account_update_names();
    }

    /// A member under a name that the record does not have changes nothing of
    /// what is decoded.
    pub proof fn lemma_unknown_member_ignored(j: Json, name: Seq<char>, x: Json)
        requires
            !AccountUpdate::member_names().contains(name),
        ensures
            AccountUpdate::from_json(extended(j, name, x)) == AccountUpdate::from_json(j),
    {
    }
}

impl AccountUpdate {
    /// Decodes an `AccountUpdate` from a JSON text.
    pub fn from_str(s: &str) -> (r: Result<AccountUpdate, DecodeError>)
        ensures
            outcome(r) == decode_text::<AccountUpdate>(s@),
    {
        from_text::<AccountUpdate>(s)
    }

    /// Encodes an `AccountUpdate` as a JSON text. Whether there is a text is for the
    /// printer to say; what it prints is the encoding of `self`.
    pub fn to_string(&self) -> (r: Result<String, EncodeError>)
        ensures
            match r {
                Ok(s) => encode_text::<AccountUpdate>(self.deep_view()) == Some(s@),
                Err(_) => encode_text::<AccountUpdate>(self.deep_view()) is None,
            },
    {
        to_text::<AccountUpdate>(self)
    }
}

/// An ACME account resource (RFC 8555, section 7.1.2).
#[derive(Clone, Debug, PartialEq, Eq)]
pub struct Account {
    /// Account status.
    pub status: AccountStatus,
    /// URLs by which the provider can reach the client.
    pub contact: Option<Vec<String>>,
    /// Whether the account has agreed to the provider's terms of service.
    pub terms_of_service_agreed: Option<bool>,
    /// External account binding.
    pub external_account_binding: Option<JsonWebSignature>,
    /// URL of the list of the account's orders, an `AccountOrders`.
    pub orders: String,
}

/// The view of an [`Account`].
pub ghost struct AccountView {
    pub status: AccountStatus,
    pub contact: Option<Seq<Seq<char>>>,
    pub terms_of_service_agreed: Option<bool>,
    pub external_account_binding: Option<JsonWebSignatureView>,
    pub orders: Seq<char>,
}

impl DeepView for Account {
    type V = AccountView;

    open spec fn deep_view(&self) -> AccountView {
        AccountView {
            status: self.status.deep_view(),
            contact: self.contact.deep_view(),
            terms_of_service_agreed: self.terms_of_service_agreed.deep_view(),
            external_account_binding: self.external_account_binding.deep_view(),
            orders: self.orders.deep_view(),
        }
    }
}

/// The member names of an `Account` differ from one another.
proof fn lemma_account_names()
    ensures
        "status"@.len() == 6,
        "status"@[0] == 's',
        "contact"@.len() == 7,
        "termsOfServiceAgreed"@.len() == 20,
        "externalAccountBinding"@.len() == 22,
        "orders"@.len() == 6,
        "orders"@[0] == 'o',
{
    reveal_strlit("status");
    reveal_strlit("contact");
    reveal_strlit("termsOfServiceAgreed");
    reveal_strlit("externalAccountBinding");
    reveal_strlit("orders");
}

impl Wire for Account {
    open spec fn valid(v: AccountView) -> bool {
        true
    }

    open spec fn to_json(v: AccountView) -> Json {
        let m = no_members();
        let m = with::<AccountStatus>(m, "status"@, v.status);
        let m = with_optional::<Vec<String>>(m, "contact"@, v.contact);
        let m = with_optional::<bool>(m, "termsOfServiceAgreed"@, v.terms_of_service_agreed);
        let m = with_optional::<JsonWebSignature>(
            m,
            "externalAccountBinding"@,
            v.external_account_binding,
        );
        let m = with::<String>(m, "orders"@, v.orders);
        Json::Object(m)
    }

    open spec fn from_json(j: Json) -> Result<AccountView, DecodeErrorView> {
        let status = required::<AccountStatus>(j, "status"@);
        let contact = optional::<Vec<String>>(j, "contact"@);
        let terms_of_service_agreed = optional::<bool>(j, "termsOfServiceAgreed"@);
        let external_account_binding = optional::<JsonWebSignature>(j, "externalAccountBinding"@);
        let orders = required::<String>(j, "orders"@);
        if !(j is Object) {
            Err(misshapen())
        } else if status is Err {
            Err(status->Err_0)
        } else if contact is Err {
            Err(contact->Err_0)
        } else if terms_of_service_agreed is Err {
            Err(terms_of_service_agreed->Err_0)
        } else if external_account_binding is Err {
            Err(external_account_binding->Err_0)
        } else if orders is Err {
            Err(orders->Err_0)
        } else {
            Ok(
                AccountView {
                    status: status->Ok_0,
                    contact: contact->Ok_0,
                    terms_of_service_agreed: terms_of_service_agreed->Ok_0,
                    external_account_binding: external_account_binding->Ok_0,
                    orders: orders->Ok_0,
                },
            )
        }
    }

    fn to_value(&self) -> (r: serde_json::Value) {
        let mut m = serde_json::Map::new();
        put(&mut m, "status", &self.status);
        put_optional(&mut m, "contact", &self.contact);
        put_optional(&mut m, "termsOfServiceAgreed", &self.terms_of_service_agreed);
        put_optional(&mut m, "externalAccountBinding", &self.external_account_binding);
        put(&mut m, "orders", &self.orders);
        crate::json::object(m)
    }

    fn from_value(v: &serde_json::Value) -> (r: Result<Self, DecodeError>) {
        if !v.is_object() {
            return Err(misshapen_error());
        }
        let status = get_required::<AccountStatus>(v, "status")?;
        let contact = get_optional::<Vec<String>>(v, "contact")?;
        let terms_of_service_agreed = get_optional::<bool>(v, "termsOfServiceAgreed")?;
        let external_account_binding = get_optional::<JsonWebSignature>(v, "externalAccountBinding")?;
        let orders = get_required::<String>(v, "orders")?;
        Ok(Account { status, contact, terms_of_service_agreed, external_account_binding, orders })
    }

    proof fn round_trip(v: AccountView) {
        lemma_account_names();
        AccountStatus::round_trip(v.status);
        if let Some(x) = v.contact {
            <Vec<String> as Wire>::round_trip(x);
        }
        if let Some(x) = v.terms_of_service_agreed {
            bool::round_trip(x);
        }
        if let Some(x) = v.external_account_binding {
            JsonWebSignature::round_trip(x);
        }
        String::round_trip(v.orders);
    }

    proof fn decoded_is_valid(j: Json) {
    }
}

impl Account {
    /// The wire names of the members of an `Account`.
    pub open spec fn member_names() -> Set<Seq<char>> {
        set!["status"@, "contact"@, "termsOfServiceAgreed"@, "externalAccountBinding"@, "orders"@]
    }

    /// What the encoding of an `Account` holds, member by member. A member that
    /// is required is always there. One that is left out when absent is
    /// there exactly when the value has it. One that is always written holds
    /// `null` when the value has none. There are no other members.
    pub proof fn lemma_encoded_members(v: AccountView, name: Seq<char>)
        ensures
            Account::to_json(v) is Object,
            member_of(Account::to_json(v), "status"@) == Some(AccountStatus::to_json(v.status)),
            member_of(Account::to_json(v), "contact"@) == (match v.contact {
                Some(x) => Some(<Vec<String> as Wire>::to_json(x)),
                None => None,
            }),
            member_of(Account::to_json(v), "termsOfServiceAgreed"@)
                == (match v.terms_of_service_agreed {
                Some(x) => Some(bool::to_json(x)),
                None => None,
            }),
            member_of(Account::to_json(v), "externalAccountBinding"@)
                == (match v.external_account_binding {
                Some(x) => Some(JsonWebSignature::to_json(x)),
                None => None,
            }),
            member_of(Account::to_json(v), "orders"@) == Some(String::to_json(v.orders)),
            !Account::member_names().contains(name) ==> member_of(
                Account::to_json(v),
                name,
            ) is None,
    {
        lemma_account_names();
    }

    /// A member under a name that the record does not have changes nothing of
    /// what is decoded.
    pub proof fn lemma_unknown_member_ignored(j: Json, name: Seq<char>, x: Json)
        requires
            !Account::member_names().contains(name),
        ensures
            Account::from_json(extended(j, name, x)) == Account::from_json(j),
    {
    }
}

impl Account {
    /// Decodes an `Account` from a JSON text.
    pub fn from_str(s: &str) -> (r: Result<Account, DecodeError>)
        ensures
            outcome(r) == decode_text::<Account>(s@),
    {
        from_text::<Account>(s)
    }

    /// Encodes an `Account` as a JSON text. Whether there is a text is for the
    /// printer to say; what it prints is the encoding of `self`.
    pub fn to_string(&self) -> (r: Result<String, EncodeError>)
        ensures
            match r {
                Ok(s) => encode_text::<Account>(self.deep_view()) == Some(s@),
                Err(_) => encode_text::<Account>(self.deep_view()) is None,
            },
    {
        to_text::<Account>(self)
    }
}

/// The list of an account's orders (RFC 8555, section 7.1.2.1).
#[derive(Clone, Debug, PartialEq, Eq)]
pub struct AccountOrders {
    /// URLs of the orders that belong to the account.
    pub orders: Vec<String>,
}

/// The view of an [`AccountOrders`].
pub ghost struct AccountOrdersView {
    pub orders: Seq<Seq<char>>,
}

impl DeepView for AccountOrders {
    type V = AccountOrdersView;

    open spec fn deep_view(&self) -> AccountOrdersView {
        AccountOrdersView {
            orders: self.orders.deep_view(),
        }
    }
}

impl Wire for AccountOrders {
    open spec fn valid(v: AccountOrdersView) -> bool {
        true
    }

    open spec fn to_json(v: AccountOrdersView) -> Json {
        let m = no_members();
        let m = with::<Vec<String>>(m, "orders"@, v.orders);
        Json::Object(m)
    }

    open spec fn from_json(j: Json) -> Result<AccountOrdersView, DecodeErrorView> {
        let orders = required::<Vec<String>>(j, "orders"@);
        if !(j is Object) {
            Err(misshapen())
        } else if orders is Err {
            Err(orders->Err_0)
        } else {
            Ok(
                AccountOrdersView {
                    orders: orders->Ok_0,
                },
            )
        }
    }

    fn to_value(&self) -> (r: serde_json::Value) {
        let mut m = serde_json::Map::new();
        put(&mut m, "orders", &self.orders);
        crate::json::object(m)
    }

    fn from_value(v: &serde_json::Value) -> (r: Result<Self, DecodeError>) {
        if !v.is_object() {
            return Err(misshapen_error());
        }
        let orders = get_required::<Vec<String>>(v, "orders")?;
        Ok(AccountOrders { orders })
    }

    proof fn round_trip(v: AccountOrdersView) {
        <Vec<String> as Wire>::round_trip(v.orders);
    }

    proof fn decoded_is_valid(j: Json) {
    }
}

impl AccountOrders {
    /// The wire names of the members of an `AccountOrders`.
    pub open spec fn member_names() -> Set<Seq<char>> {
        set!["orders"@]
    }

    /// What the encoding of an `AccountOrders` holds, member by member. A member that
    /// is required is always there. One that is left out when absent is
    /// there exactly when the value has it. One that is always written holds
    /// `null` when the value has none. There are no other members.
    pub proof fn lemma_encoded_members(v: AccountOrdersView, name: Seq<char>)
        ensures
            AccountOrders::to_json(v) is Object,
            member_of(AccountOrders::to_json(v), "orders"@) == Some(
                <Vec<String> as Wire>::to_json(v.orders),
            ),
            !AccountOrders::member_names().contains(name) ==> member_of(
                AccountOrders::to_json(v),
                name,
            ) is None,
    {
    }

    /// A member under a name that the record does not have changes nothing of
    /// what is decoded.
    pub proof fn lemma_unknown_member_ignored(j: Json, name: Seq<char>, x: Json)
        requires
            !AccountOrders::member_names().contains(name),
        ensures
            AccountOrders::from_json(extended(j, name, x)) == AccountOrders::from_json(j),
    {
    }
}

impl AccountOrders {
    /// Decodes an `AccountOrders` from a JSON text.
    pub fn from_str(s: &str) -> (r: Result<AccountOrders, DecodeError>)
        ensures
            outcome(r) == decode_text::<AccountOrders>(s@),
    {
        from_text::<AccountOrders>(s)
    }

    /// Encodes an `AccountOrders` as a JSON text. Whether there is a text is for the
    /// printer to say; what it prints is the encoding of `self`.
    pub fn to_string(&self) -> (r: Result<String, EncodeError>)
        ensures
            match r {
                Ok(s) => encode_text::<AccountOrders>(self.deep_view()) == Some(s@),
                Err(_) => encode_text::<AccountOrders>(self.deep_view()) is None,
            },
    {
        to_text::<AccountOrders>(self)
    }
}

} // verus!
