//! The directory: the map of a server's endpoints.

use vstd::prelude::*;
use crate::json::{Json, no_members};
use crate::wire::{
    DecodeError, DecodeErrorView, EncodeError, Wire, decode_text, encode_text, extended,
    from_text, get_optional, get_required, member_of, misshapen, misshapen_error, optional,
    outcome, put, put_optional, required, to_text, with, with_optional,
};

verus! {

/// The metadata object of a directory (RFC 8555, section 7.1.1). Each member
/// may be absent, whatever the others are.
#[derive(Clone, Debug, PartialEq, Eq)]
pub struct DirectoryMetadata {
    /// URL of the provider's terms of service.
    pub terms_of_service: Option<String>,
    /// URL of the provider's website.
    pub website: Option<String>,
    /// Host names that the provider recognises as its own when it validates CAA
    /// records.
    pub caa_identities: Option<Vec<String>>,
    /// Whether a new account has to be bound to an external account.
    pub external_account_required: Option<bool>,
}

/// The view of a [`DirectoryMetadata`].
pub ghost struct DirectoryMetadataView {
    pub terms_of_service: Option<Seq<char>>,
    pub website: Option<Seq<char>>,
    pub caa_identities: Option<Seq<Seq<char>>>,
    pub external_account_required: Option<bool>,
}

impl DeepView for DirectoryMetadata {
    type V = DirectoryMetadataView;

    open spec fn deep_view(&self) -> DirectoryMetadataView {
        DirectoryMetadataView {
            terms_of_service: self.terms_of_service.deep_view(),
            website: self.website.deep_view(),
            caa_identities: self.caa_identities.deep_view(),
            external_account_required: self.external_account_required.deep_view(),
        }
    }
}

/// The member names of a `DirectoryMetadata` differ from one another.
proof fn lemma_directory_metadata_names()
    ensures
        "termsOfService"@.len() == 14,
        "website"@.len() == 7,
        "caaIdentities"@.len() == 13,
        "externalAccountRequired"@.len() == 23,
{
    reveal_strlit("termsOfService");
    reveal_strlit("website");
    reveal_strlit("caaIdentities");
    reveal_strlit("externalAccountRequired");
}

impl Wire for DirectoryMetadata {
    open spec fn valid(v: DirectoryMetadataView) -> bool {
        true
    }

    open spec fn to_json(v: DirectoryMetadataView) -> Json {
        let m = no_members();
        let m = with_optional::<String>(m, "termsOfService"@, v.terms_of_service);
        let m = with_optional::<String>(m, "website"@, v.website);
        let m = with_optional::<Vec<String>>(m, "caaIdentities"@, v.caa_identities);
        let m = with_optional::<bool>(m, "externalAccountRequired"@, v.external_account_required);
        Json::Object(m)
    }

    open spec fn from_json(j: Json) -> Result<DirectoryMetadataView, DecodeErrorView> {
        let terms_of_service = optional::<String>(j, "termsOfService"@);
        let website = optional::<String>(j, "website"@);
        let caa_identities = optional::<Vec<String>>(j, "caaIdentities"@);
        let external_account_required = optional::<bool>(j, "externalAccountRequired"@);
        if !(j is Object) {
            Err(misshapen())
        } else if terms_of_service is Err {
            Err(terms_of_service->Err_0)
        } else if website is Err {
            Err(website->Err_0)
        } else if caa_identities is Err {
            Err(caa_identities->Err_0)
        } else if external_account_required is Err {
            Err(external_account_required->Err_0)
        } else {
            Ok(
                DirectoryMetadataView {
                    terms_of_service: terms_of_service->Ok_0,
                    website: website->Ok_0,
                    caa_identities: caa_identities->Ok_0,
                    external_account_required: external_account_required->Ok_0,
                },
            )
        }
    }

    fn to_value(&self) -> (r: serde_json::Value) {
        let mut m = serde_json::Map::new();
        put_optional(&mut m, "termsOfService", &self.terms_of_service);
        put_optional(&mut m, "website", &self.website);
        put_optional(&mut m, "caaIdentities", &self.caa_identities);
        put_optional(&mut m, "externalAccountRequired", &self.external_account_required);
        crate::json::object(m)
    }

    fn from_value(v: &serde_json::Value) -> (r: Result<Self, DecodeError>) {
        if !v.is_object() {
            return Err(misshapen_error());
        }
        let terms_of_service = get_optional::<String>(v, "termsOfService")?;
        let website = get_optional::<String>(v, "website")?;
        let caa_identities = get_optional::<Vec<String>>(v, "caaIdentities")?;
        let external_account_required = get_optional::<bool>(v, "externalAccountRequired")?;
        Ok(
            DirectoryMetadata {
                terms_of_service,
                website,
                caa_identities,
                external_account_required,
            },
        )
    }

    proof fn round_trip(v: DirectoryMetadataView) {
        lemma_directory_metadata_names();
        if let Some(x) = v.terms_of_service {
            String::round_trip(x);
        }
        if let Some(x) = v.website {
            String::round_trip(x);
        }
        if let Some(x) = v.caa_identities {
            <Vec<String> as Wire>::round_trip(x);
        }
        if let Some(x) = v.external_account_required {
            bool::round_trip(x);
        }
    }

    proof fn decoded_is_valid(j: Json) {
    }
}

impl DirectoryMetadata {
    /// The wire names of the members of a `DirectoryMetadata`.
    pub open spec fn member_names() -> Set<Seq<char>> {
        set!["termsOfService"@, "website"@, "caaIdentities"@, "externalAccountRequired"@]
    }

    /// What the encoding of a `DirectoryMetadata` holds, member by member. A member that
    /// is required is always there. One that is left out when absent is
    /// there exactly when the value has it. One that is always written holds
    /// `null` when the value has none. There are no other members.
    pub proof fn lemma_encoded_members(v: DirectoryMetadataView, name: Seq<char>)
        ensures
            DirectoryMetadata::to_json(v) is Object,
            member_of(DirectoryMetadata::to_json(v), "termsOfService"@)
                == (match v.terms_of_service {
                Some(x) => Some(String::to_json(x)),
                None => None,
            }),
            member_of(DirectoryMetadata::to_json(v), "website"@) == (match v.website {
                Some(x) => Some(String::to_json(x)),
                None => None,
            }),
            member_of(DirectoryMetadata::to_json(v), "caaIdentities"@) == (match v.caa_identities {
                Some(x) => Some(<Vec<String> as Wire>::to_json(x)),
                None => None,
            }),
            member_of(DirectoryMetadata::to_json(v), "externalAccountRequired"@)
                == (match v.external_account_required {
                Some(x) => Some(bool::to_json(x)),
                None => None,
            }),
            !DirectoryMetadata::member_names().contains(name) ==> member_of(
                DirectoryMetadata::to_json(v),
                name,
            ) is None,
    {
        lemma_directory_metadata_names();
    }

    /// A member under a name that the record does not have changes nothing of
    /// what is decoded.
    pub proof fn lemma_unknown_member_ignored(j: Json, name: Seq<char>, x: Json)
        requires
            !DirectoryMetadata::member_names().contains(name),
        ensures
            DirectoryMetadata::from_json(extended(j, name, x)) == DirectoryMetadata::from_json(j),
    {
    }
}

impl DirectoryMetadata {
    /// Decodes a `DirectoryMetadata` from a JSON text.
    pub fn from_str(s: &str) -> (r: Result<DirectoryMetadata, DecodeError>)
        ensures
            outcome(r) == decode_text::<DirectoryMetadata>(s@),
    {
        from_text::<DirectoryMetadata>(s)
    }

    /// Encodes a `DirectoryMetadata` as a JSON text. Whether there is a text is for the
    /// printer to say; what it prints is the encoding of `self`.
    pub fn to_string(&self) -> (r: Result<String, EncodeError>)
        ensures
            match r {
                Ok(s) => encode_text::<DirectoryMetadata>(self.deep_view()) == Some(s@),
                Err(_) => encode_text::<DirectoryMetadata>(self.deep_view()) is None,
            },
    {
        to_text::<DirectoryMetadata>(self)
    }
}

/// An ACME directory resource (RFC 8555, section 7.1.1).
#[derive(Clone, Debug, PartialEq, Eq)]
pub struct Directory {
    /// New nonce URL.
    pub new_nonce: String,
    /// New account URL.
    pub new_account: String,
    /// New order URL.
    pub new_order: String,
    /// New authorization URL.
    pub new_authorization: Option<String>,
    /// Revoke certificate URL.
    pub revoke_certificate: String,
    /// Key change URL.
    pub key_change: String,
    /// Metadata object.
    pub metadata: Option<DirectoryMetadata>,
}

/// The view of a [`Directory`].
pub ghost struct DirectoryView {
    pub new_nonce: Seq<char>,
    pub new_account: Seq<char>,
    pub new_order: Seq<char>,
    pub new_authorization: Option<Seq<char>>,
    pub revoke_certificate: Seq<char>,
    pub key_change: Seq<char>,
    pub metadata: Option<DirectoryMetadataView>,
}

impl DeepView for Directory {
    type V = DirectoryView;

    open spec fn deep_view(&self) -> DirectoryView {
        DirectoryView {
            new_nonce: self.new_nonce.deep_view(),
            new_account: self.new_account.deep_view(),
            new_order: self.new_order.deep_view(),
            new_authorization: self.new_authorization.deep_view(),
            revoke_certificate: self.revoke_certificate.deep_view(),
            key_change: self.key_change.deep_view(),
            metadata: self.metadata.deep_view(),
        }
    }
}

/// The member names of a `Directory` differ from one another.
proof fn lemma_directory_names()
    ensures
        "newNonce"@.len() == 8,
        "newNonce"@[3] == 'N',
        "newAccount"@.len() == 10,
        "newAccount"@[0] == 'n',
        "newOrder"@.len() == 8,
        "newOrder"@[3] == 'O',
        "newAuthz"@.len() == 8,
        "newAuthz"@[3] == 'A',
        "revokeCert"@.len() == 10,
        "revokeCert"@[0] == 'r',
        "keyChange"@.len() == 9,
        "meta"@.len() == 4,
{
    reveal_strlit("newNonce");
    reveal_strlit("newAccount");
    reveal_strlit("newOrder");
    reveal_strlit("newAuthz");
    reveal_strlit("revokeCert");
    reveal_strlit("keyChange");
    reveal_strlit("meta");
}

impl Wire for Directory {
    open spec fn valid(v: DirectoryView) -> bool {
        true
    }

    open spec fn to_json(v: DirectoryView) -> Json {
        let m = no_members();
        let m = with::<String>(m, "newNonce"@, v.new_nonce);
        let m = with::<String>(m, "newAccount"@, v.new_account);
        let m = with::<String>(m, "newOrder"@, v.new_order);
        let m = with_optional::<String>(m, "newAuthz"@, v.new_authorization);
        let m = with::<String>(m, "revokeCert"@, v.revoke_certificate);
        let m = with::<String>(m, "keyChange"@, v.key_change);
        let m = with_optional::<DirectoryMetadata>(m, "meta"@, v.metadata);
        Json::Object(m)
    }

    open spec fn from_json(j: Json) -> Result<DirectoryView, DecodeErrorView> {
        let new_nonce = required::<String>(j, "newNonce"@);
        let new_account = required::<String>(j, "newAccount"@);
        let new_order = required::<String>(j, "newOrder"@);
        let new_authorization = optional::<String>(j, "newAuthz"@);
        let revoke_certificate = required::<String>(j, "revokeCert"@);
        let key_change = required::<String>(j, "keyChange"@);
        let metadata = optional::<DirectoryMetadata>(j, "meta"@);
        if !(j is Object) {
            Err(misshapen())
        } else if new_nonce is Err {
            Err(new_nonce->Err_0)
        } else if new_account is Err {
            Err(new_account->Err_0)
        } else if new_order is Err {
            Err(new_order->Err_0)
        } else if new_authorization is Err {
            Err(new_authorization->Err_0)
        } else if revoke_certificate is Err {
            Err(revoke_certificate->Err_0)
        } else if key_change is Err {
            Err(key_change->Err_0)
        } else if metadata is Err {
            Err(metadata->Err_0)
        } else {
            Ok(
                DirectoryView {
                    new_nonce: new_nonce->Ok_0,
                    new_account: new_account->Ok_0,
                    new_order: new_order->Ok_0,
                    new_authorization: new_authorization->Ok_0,
                    revoke_certificate: revoke_certificate->Ok_0,
                    key_change: key_change->Ok_0,
                    metadata: metadata->Ok_0,
                },
            )
        }
    }

    fn to_value(&self) -> (r: serde_json::Value) {
        let mut m = serde_json::Map::new();
        put(&mut m, "newNonce", &self.new_nonce);
        put(&mut m, "newAccount", &self.new_account);
        put(&mut m, "newOrder", &self.new_order);
        put_optional(&mut m, "newAuthz", &self.new_authorization);
        put(&mut m, "revokeCert", &self.revoke_certificate);
        put(&mut m, "keyChange", &self.key_change);
        put_optional(&mut m, "meta", &self.metadata);
        crate::json::object(m)
    }

    fn from_value(v: &serde_json::Value) -> (r: Result<Self, DecodeError>) {
        if !v.is_object() {
            return Err(misshapen_error());
        }
        let new_nonce = get_required::<String>(v, "newNonce")?;
        let new_account = get_required::<String>(v, "newAccount")?;
        let new_order = get_required::<String>(v, "newOrder")?;
        let new_authorization = get_optional::<String>(v, "newAuthz")?;
        let revoke_certificate = get_required::<String>(v, "revokeCert")?;
        let key_change = get_required::<String>(v, "keyChange")?;
        let metadata = get_optional::<DirectoryMetadata>(v, "meta")?;
        Ok(
            Directory {
                new_nonce,
                new_account,
                new_order,
                new_authorization,
                revoke_certificate,
                key_change,
                metadata,
            },
        )
    }

    proof fn round_trip(v: DirectoryView) {
        lemma_directory_names();
        String::round_trip(v.new_nonce);
        String::round_trip(v.new_account);
        String::round_trip(v.new_order);
        if let Some(x) = v.new_authorization {
            String::round_trip(x);
        }
        String::round_trip(v.revoke_certificate);
        String::round_trip(v.key_change);
        if let Some(x) = v.metadata {
            DirectoryMetadata::round_trip(x);
        }
    }

    proof fn decoded_is_valid(j: Json) {
    }
}

impl Directory {
    /// The wire names of the members of a `Directory`.
    pub open spec fn member_names() -> Set<Seq<char>> {
        set![
            "newNonce"@, "newAccount"@, "newOrder"@, "newAuthz"@, "revokeCert"@, "keyChange"@,
            "meta"@
        ]
    }

    /// What the encoding of a `Directory` holds, member by member. A member that
    /// is required is always there. One that is left out when absent is
    /// there exactly when the value has it. One that is always written holds
    /// `null` when the value has none. There are no other members.
    pub proof fn lemma_encoded_members(v: DirectoryView, name: Seq<char>)
        ensures
            Directory::to_json(v) is Object,
            member_of(Directory::to_json(v), "newNonce"@) == Some(String::to_json(v.new_nonce)),
            member_of(Directory::to_json(v), "newAccount"@) == Some(String::to_json(v.new_account)),
            member_of(Directory::to_json(v), "newOrder"@) == Some(String::to_json(v.new_order)),
            member_of(Directory::to_json(v), "newAuthz"@) == (match v.new_authorization {
                Some(x) => Some(String::to_json(x)),
                None => None,
            }),
            member_of(Directory::to_json(v), "revokeCert"@) == Some(
                String::to_json(v.revoke_certificate),
            ),
            member_of(Directory::to_json(v), "keyChange"@) == Some(String::to_json(v.key_change)),
            member_of(Directory::to_json(v), "meta"@) == (match v.metadata {
                Some(x) => Some(DirectoryMetadata::to_json(x)),
                None => None,
            }),
            !Directory::member_names().contains(name) ==> member_of(
                Directory::to_json(v),
                name,
            ) is None,
    {
        lemma_directory_names();
    }

    /// A member under a name that the record does not have changes nothing of
    /// what is decoded.
    pub proof fn lemma_unknown_member_ignored(j: Json, name: Seq<char>, x: Json)
        requires
            !Directory::member_names().contains(name),
        ensures
            Directory::from_json(extended(j, name, x)) == Directory::from_json(j),
    {
    }
}

impl Directory {
    /// Decodes a `Directory` from a JSON text.
    pub fn from_str(s: &str) -> (r: Result<Directory, DecodeError>)
        ensures
            outcome(r) == decode_text::<Directory>(s@),
    {
        from_text::<Directory>(s)
    }

    /// Encodes a `Directory` as a JSON text. Whether there is a text is for the
    /// printer to say; what it prints is the encoding of `self`.
    pub fn to_string(&self) -> (r: Result<String, EncodeError>)
        ensures
            match r {
                Ok(s) => encode_text::<Directory>(self.deep_view()) == Some(s@),
                Err(_) => encode_text::<Directory>(self.deep_view()) is None,
            },
    {
        to_text::<Directory>(self)
    }
}

} // verus!
