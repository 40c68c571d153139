//! The JOSE envelope: the signed form of every authenticated request.
//!
//! Nothing is signed or verified here. The envelope carries what a signer
//! produced, and the protected header says which key signed it.

use vstd::prelude::*;
use crate::json::{Json, no_members};
use crate::wire::{
    DecodeError, DecodeErrorView, EncodeError, Wire, decode_text, encode_text, extended,
    from_text, get_optional, get_required, member_of, misshapen, misshapen_error, optional,
    outcome, put, put_optional, required, to_text, with, with_optional,
};

verus! {

/// A JSON web key (RFC 8555, section 6.2). Only the shape of an RSA key is
/// carried: key type, exponent and modulus.
#[derive(Debug, PartialEq, Eq)]
pub struct JsonWebKey {
    /// Key type.
    pub key_type: String,
    /// Public exponent.
    pub exponent: String,
    /// Modulus.
    pub modulus: String,
}

/// The view of a [`JsonWebKey`].
pub ghost struct JsonWebKeyView {
    pub key_type: Seq<char>,
    pub exponent: Seq<char>,
    pub modulus: Seq<char>,
}

impl DeepView for JsonWebKey {
    type V = JsonWebKeyView;

    open spec fn deep_view(&self) -> JsonWebKeyView {
        JsonWebKeyView {
            key_type: self.key_type.deep_view(),
            exponent: self.exponent.deep_view(),
            modulus: self.modulus.deep_view(),
        }
    }
}

/// The member names of a `JsonWebKey` differ from one another.
proof fn lemma_json_web_key_names()
    ensures
        "kty"@.len() == 3,
        "e"@.len() == 1,
        "e"@[0] == 'e',
        "n"@.len() == 1,
        "n"@[0] == 'n',
{
    reveal_strlit("kty");
    reveal_strlit("e");
    reveal_strlit("n");
}

impl Wire for JsonWebKey {
    open spec fn valid(v: JsonWebKeyView) -> bool {
        true
    }

    open spec fn to_json(v: JsonWebKeyView) -> Json {
        let m = no_members();
        let m = with::<String>(m, "kty"@, v.key_type);
        let m = with::<String>(m, "e"@, v.exponent);
        let m = with::<String>(m, "n"@, v.modulus);
        Json::Object(m)
    }

    open spec fn from_json(j: Json) -> Result<JsonWebKeyView, DecodeErrorView> {
        let key_type = required::<String>(j, "kty"@);
        let exponent = required::<String>(j, "e"@);
        let modulus = required::<String>(j, "n"@);
        if !(j is Object) {
            Err(misshapen())
        } else if key_type is Err {
            Err(key_type->Err_0)
        } else if exponent is Err {
            Err(exponent->Err_0)
        } else if modulus is Err {
            Err(modulus->Err_0)
        } else {
            Ok(
                JsonWebKeyView {
                    key_type: key_type->Ok_0,
                    exponent: exponent->Ok_0,
                    modulus: modulus->Ok_0,
                },
            )
        }
    }

    fn to_value(&self) -> (r: serde_json::Value) {
        let mut m = serde_json::Map::new();
        put(&mut m, "kty", &self.key_type);
        put(&mut m, "e", &self.exponent);
        put(&mut m, "n", &self.modulus);
        crate::json::object(m)
    }

    fn from_value(v: &serde_json::Value) -> (r: Result<Self, DecodeError>) {
        if !v.is_object() {
            return Err(misshapen_error());
        }
        let key_type = get_required::<String>(v, "kty")?;
        let exponent = get_required::<String>(v, "e")?;
        let modulus = get_required::<String>(v, "n")?;
        Ok(JsonWebKey { key_type, exponent, modulus })
    }

    proof fn round_trip(v: JsonWebKeyView) {
        lemma_json_web_key_names();
        String::round_trip(v.key_type);
        String::round_trip(v.exponent);
        String::round_trip(v.modulus);
    }

    proof fn decoded_is_valid(j: Json) {
    }
}

impl JsonWebKey {
    /// The wire names of the members of a `JsonWebKey`.
    pub open spec fn member_names() -> Set<Seq<char>> {
        set!["kty"@, "e"@, "n"@]
    }

    /// What the encoding of a `JsonWebKey` holds, member by member. A member that
    /// is required is always there. One that is left out when absent is
    /// there exactly when the value has it. One that is always written holds
    /// `null` when the value has none. There are no other members.
    pub proof fn lemma_encoded_members(v: JsonWebKeyView, name: Seq<char>)
        ensures
            JsonWebKey::to_json(v) is Object,
            member_of(JsonWebKey::to_json(v), "kty"@) == Some(String::to_json(v.key_type)),
            member_of(JsonWebKey::to_json(v), "e"@) == Some(String::to_json(v.exponent)),
            member_of(JsonWebKey::to_json(v), "n"@) == Some(String::to_json(v.modulus)),
            !JsonWebKey::member_names().contains(name) ==> member_of(
                JsonWebKey::to_json(v),
                name,
            ) is None,
    {
        lemma_json_web_key_names();
    }

    /// A member under a name that the record does not have changes nothing of
    /// what is decoded.
    pub proof fn lemma_unknown_member_ignored(j: Json, name: Seq<char>, x: Json)
        requires
            !JsonWebKey::member_names().contains(name),
        ensures
            JsonWebKey::from_json(extended(j, name, x)) == JsonWebKey::from_json(j),
    {
    }
}

impl Clone for JsonWebKey {
    fn clone(&self) -> (r: Self)
        ensures
            r == *self,
    {
        JsonWebKey {
            key_type: self.key_type.clone(),
            exponent: self.exponent.clone(),
            modulus: self.modulus.clone(),
        }
    }
}

impl JsonWebKey {
    /// Decodes a `JsonWebKey` from a JSON text.
    pub fn from_str(s: &str) -> (r: Result<JsonWebKey, DecodeError>)
        ensures
            outcome(r) == decode_text::<JsonWebKey>(s@),
    {
        from_text::<JsonWebKey>(s)
    }

    /// Encodes a `JsonWebKey` as a JSON text. Whether there is a text is for the
    /// printer to say; what it prints is the encoding of `self`.
    pub fn to_string(&self) -> (r: Result<String, EncodeError>)
        ensures
            match r {
                Ok(s) => encode_text::<JsonWebKey>(self.deep_view()) == Some(s@),
                Err(_) => encode_text::<JsonWebKey>(self.deep_view()) is None,
            },
    {
        to_text::<JsonWebKey>(self)
    }
}

/// A JSON web signature (RFC 8555, section 6.2): three base64url texts, carried
/// as they are.
#[derive(Clone, Debug, PartialEq, Eq)]
pub struct JsonWebSignature {
    /// The protected header, encoded.
    pub protected: String,
    /// The payload, encoded.
    pub payload: String,
    /// The signature, encoded.
    pub signature: String,
}

/// The view of a [`JsonWebSignature`].
pub ghost struct JsonWebSignatureView {
    pub protected: Seq<char>,
    pub payload: Seq<char>,
    pub signature: Seq<char>,
}

impl DeepView for JsonWebSignature {
    type V = JsonWebSignatureView;

    open spec fn deep_view(&self) -> JsonWebSignatureView {
        JsonWebSignatureView {
            protected: self.protected.deep_view(),
            payload: self.payload.deep_view(),
            signature: self.signature.deep_view(),
        }
    }
}

/// The member names of a `JsonWebSignature` differ from one another.
proof fn lemma_json_web_signature_names()
    ensures
        "protected"@.len() == 9,
        "protected"@[0] == 'p',
        "payload"@.len() == 7,
        "signature"@.len() == 9,
        "signature"@[0] == 's',
{
    reveal_strlit("protected");
    reveal_strlit("payload");
    reveal_strlit("signature");
}

impl Wire for JsonWebSignature {
    open spec fn valid(v: JsonWebSignatureView) -> bool {
        true
    }

    open spec fn to_json(v: JsonWebSignatureView) -> Json {
        let m = no_members();
        let m = with::<String>(m, "protected"@, v.protected);
        let m = with::<String>(m, "payload"@, v.payload);
        let m = with::<String>(m, "signature"@, v.signature);
        Json::Object(m)
    }

    open spec fn from_json(j: Json) -> Result<JsonWebSignatureView, DecodeErrorView> {
        let protected = required::<String>(j, "protected"@);
        let payload = required::<String>(j, "payload"@);
        let signature = required::<String>(j, "signature"@);
        if !(j is Object) {
            Err(misshapen())
        } else if protected is Err {
            Err(protected->Err_0)
        } else if payload is Err {
            Err(payload->Err_0)
        } else if signature is Err {
            Err(signature->Err_0)
        } else {
            Ok(
                JsonWebSignatureView {
                    protected: protected->Ok_0,
                    payload: payload->Ok_0,
                    signature: signature->Ok_0,
                },
            )
        }
    }

    fn to_value(&self) -> (r: serde_json::Value) {
        let mut m = serde_json::Map::new();
        put(&mut m, "protected", &self.protected);
        put(&mut m, "payload", &self.payload);
        put(&mut m, "signature", &self.signature);
        crate::json::object(m)
    }

    fn from_value(v: &serde_json::Value) -> (r: Result<Self, DecodeError>) {
        if !v.is_object() {
            return Err(misshapen_error());
        }
        let protected = get_required::<String>(v, "protected")?;
        let payload = get_required::<String>(v, "payload")?;
        let signature = get_required::<String>(v, "signature")?;
        Ok(JsonWebSignature { protected, payload, signature })
    }

    proof fn round_trip(v: JsonWebSignatureView) {
        lemma_json_web_signature_names();
        String::round_trip(v.protected);
        String::round_trip(v.payload);
        String::round_trip(v.signature);
    }

    proof fn decoded_is_valid(j: Json) {
    }
}

impl JsonWebSignature {
    /// The wire names of the members of a `JsonWebSignature`.
    pub open spec fn member_names() -> Set<Seq<char>> {
        set!["protected"@, "payload"@, "signature"@]
    }

    /// What the encoding of a `JsonWebSignature` holds, member by member. A member that
    /// is required is always there. One that is left out when absent is
    /// there exactly when the value has it. One that is always written holds
    /// `null` when the value has none. There are no other members.
    pub proof fn lemma_encoded_members(v: JsonWebSignatureView, name: Seq<char>)
        ensures
            JsonWebSignature::to_json(v) is Object,
            member_of(JsonWebSignature::to_json(v), "protected"@) == Some(
                String::to_json(v.protected),
            ),
            member_of(JsonWebSignature::to_json(v), "payload"@) == Some(String::to_json(v.payload)),
            member_of(JsonWebSignature::to_json(v), "signature"@) == Some(
                String::to_json(v.signature),
            ),
            !JsonWebSignature::member_names().contains(name) ==> member_of(
                JsonWebSignature::to_json(v),
                name,
            ) is None,
    {
        lemma_json_web_signature_names();
    }

    /// A member under a name that the record does not have changes nothing of
    /// what is decoded.
    pub proof fn lemma_unknown_member_ignored(j: Json, name: Seq<char>, x: Json)
        requires
            !JsonWebSignature::member_names().contains(name),
        ensures
            JsonWebSignature::from_json(extended(j, name, x)) == JsonWebSignature::from_json(j),
    {
    }
}

impl JsonWebSignature {
    /// Decodes a `JsonWebSignature` from a JSON text.
    pub fn from_str(s: &str) -> (r: Result<JsonWebSignature, DecodeError>)
        ensures
            outcome(r) == decode_text::<JsonWebSignature>(s@),
    {
        from_text::<JsonWebSignature>(s)
    }

    /// Encodes a `JsonWebSignature` as a JSON text. Whether there is a text is for the
    /// printer to say; what it prints is the encoding of `self`.
    pub fn to_string(&self) -> (r: Result<String, EncodeError>)
        ensures
            match r {
                Ok(s) => encode_text::<JsonWebSignature>(self.deep_view()) == Some(s@),
                Err(_) => encode_text::<JsonWebSignature>(self.deep_view()) is None,
            },
    {
        to_text::<JsonWebSignature>(self)
    }
}

/// The protected header of a JSON web signature (RFC 8555, section 6.2).
///
/// A header names the signing key in exactly one of two ways: it carries the
/// key itself, as a request that creates an account or rolls a key over does,
/// or the identifier under which the server knows the key. Every value of this
/// type does so: [`JsonWebSignatureProtected::new`] and the decoders refuse
/// anything else.
#[derive(Debug, PartialEq, Eq)]
pub struct JsonWebSignatureProtected {
    algorithm: String,
    nonce: Option<String>,
    url: String,
    json_web_key: Option<JsonWebKey>,
    key_id: Option<String>,
}

/// The view of a [`JsonWebSignatureProtected`].
pub ghost struct JsonWebSignatureProtectedView {
    pub algorithm: Seq<char>,
    pub nonce: Option<Seq<char>>,
    pub url: Seq<char>,
    pub json_web_key: Option<JsonWebKeyView>,
    pub key_id: Option<Seq<char>>,
}

impl JsonWebSignatureProtectedView {
    /// Whether exactly one of key and key identifier is there.
    pub open spec fn one_key(self) -> bool {
        (self.json_web_key is Some) != (self.key_id is Some)
    }
}

impl DeepView for JsonWebSignatureProtected {
    type V = JsonWebSignatureProtectedView;

    closed spec fn deep_view(&self) -> JsonWebSignatureProtectedView {
        JsonWebSignatureProtectedView {
            algorithm: self.algorithm.deep_view(),
            nonce: self.nonce.deep_view(),
            url: self.url.deep_view(),
            json_web_key: self.json_web_key.deep_view(),
            key_id: self.key_id.deep_view(),
        }
    }
}

/// The member names of a protected header differ from one another.
proof fn lemma_protected_names()
    ensures
        "alg"@.len() == 3,
        "alg"@[0] == 'a',
        "nonce"@.len() == 5,
        "url"@.len() == 3,
        "url"@[0] == 'u',
        "jwk"@.len() == 3,
        "jwk"@[0] == 'j',
        "kid"@.len() == 3,
        "kid"@[0] == 'k',
{
    reveal_strlit("alg");
    reveal_strlit("nonce");
    reveal_strlit("url");
    reveal_strlit("jwk");
    reveal_strlit("kid");
}

impl JsonWebSignatureProtected {
    #[verifier::type_invariant]
    spec fn one_key(self) -> bool {
        self.deep_view().one_key()
    }

    /// A protected header. It is `MalformedEnvelope` to give both a key and a
    /// key identifier, or neither.
    pub fn new(
        algorithm: String,
        nonce: Option<String>,
        url: String,
        json_web_key: Option<JsonWebKey>,
        key_id: Option<String>,
    ) -> (r: Result<JsonWebSignatureProtected, DecodeError>)
        ensures
            match r {
                Ok(p) => p.deep_view() == (JsonWebSignatureProtectedView {
                    algorithm: algorithm@,
                    nonce: nonce.deep_view(),
                    url: url@,
                    json_web_key: json_web_key.deep_view(),
                    key_id: key_id.deep_view(),
                }) && p.deep_view().one_key(),
                Err(e) => e == DecodeError::MalformedEnvelope && (json_web_key is Some) == (
                key_id is Some),
            },
    {
        if json_web_key.is_some() == key_id.is_some() {
            Err(DecodeError::MalformedEnvelope)
        } else {
            Ok(JsonWebSignatureProtected { algorithm, nonce, url, json_web_key, key_id })
        }
    }

    /// The signature algorithm.
    pub fn algorithm(&self) -> (r: &String)
        ensures
            r@ == self.deep_view().algorithm,
    {
        &self.algorithm
    }

    /// The anti-replay nonce.
    pub fn nonce(&self) -> (r: &Option<String>)
        ensures
            r.deep_view() == self.deep_view().nonce,
    {
        &self.nonce
    }

    /// The URL that the request is sent to.
    pub fn url(&self) -> (r: &String)
        ensures
            r@ == self.deep_view().url,
    {
        &self.url
    }

    /// The signing key, where the header carries it. It does exactly where
    /// it carries no key identifier.
    pub fn json_web_key(&self) -> (r: &Option<JsonWebKey>)
        ensures
            r.deep_view() == self.deep_view().json_web_key,
            self.deep_view().one_key(),
    {
        proof {
            use_type_invariant(self);
        }
        &self.json_web_key
    }

    /// The identifier of the signing key, where the header carries one. It
    /// does exactly where it carries no key.
    pub fn key_id(&self) -> (r: &Option<String>)
        ensures
            r.deep_view() == self.deep_view().key_id,
            self.deep_view().one_key(),
    {
        proof {
            use_type_invariant(self);
        }
        &self.key_id
    }
}

impl Clone for JsonWebSignatureProtected {
    fn clone(&self) -> (r: Self)
        ensures
            r.deep_view() == self.deep_view(),
    {
        proof {
            use_type_invariant(self);
        }
        JsonWebSignatureProtected {
            algorithm: self.algorithm.clone(),
            nonce: match &self.nonce {
                Some(n) => Some(n.clone()),
                None => None,
            },
            url: self.url.clone(),
            json_web_key: match &self.json_web_key {
                Some(k) => Some(k.clone()),
                None => None,
            },
            key_id: match &self.key_id {
                Some(k) => Some(k.clone()),
                None => None,
            },
        }
    }
}

impl Wire for JsonWebSignatureProtected {
    open spec fn valid(v: JsonWebSignatureProtectedView) -> bool {
        v.one_key()
    }

    open spec fn to_json(v: JsonWebSignatureProtectedView) -> Json {
        let m = no_members();
        let m = with::<String>(m, "alg"@, v.algorithm);
        let m = with_optional::<String>(m, "nonce"@, v.nonce);
        let m = with::<String>(m, "url"@, v.url);
        let m = with_optional::<JsonWebKey>(m, "jwk"@, v.json_web_key);
        let m = with_optional::<String>(m, "kid"@, v.key_id);
        Json::Object(m)
    }

    open spec fn from_json(j: Json) -> Result<JsonWebSignatureProtectedView, DecodeErrorView> {
        let algorithm = required::<String>(j, "alg"@);
        let nonce = optional::<String>(j, "nonce"@);
        let url = required::<String>(j, "url"@);
        let json_web_key = optional::<JsonWebKey>(j, "jwk"@);
        let key_id = optional::<String>(j, "kid"@);
        if !(j is Object) {
            Err(misshapen())
        } else if algorithm is Err {
            Err(algorithm->Err_0)
        } else if nonce is Err {
            Err(nonce->Err_0)
        } else if url is Err {
            Err(url->Err_0)
        } else if json_web_key is Err {
            Err(json_web_key->Err_0)
        } else if key_id is Err {
            Err(key_id->Err_0)
        } else if (json_web_key->Ok_0 is Some) == (key_id->Ok_0 is Some) {
            Err(DecodeErrorView::MalformedEnvelope)
        } else {
            Ok(
                JsonWebSignatureProtectedView {
                    algorithm: algorithm->Ok_0,
                    nonce: nonce->Ok_0,
                    url: url->Ok_0,
                    json_web_key: json_web_key->Ok_0,
                    key_id: key_id->Ok_0,
                },
            )
        }
    }

    fn to_value(&self) -> (r: serde_json::Value) {
        let mut m = serde_json::Map::new();
        put(&mut m, "alg", &self.algorithm);
        put_optional(&mut m, "nonce", &self.nonce);
        put(&mut m, "url", &self.url);
        put_optional(&mut m, "jwk", &self.json_web_key);
        put_optional(&mut m, "kid", &self.key_id);
        crate::json::object(m)
    }

    fn from_value(v: &serde_json::Value) -> (r: Result<Self, DecodeError>) {
        if !v.is_object() {
            return Err(misshapen_error());
        }
        let algorithm = get_required::<String>(v, "alg")?;
        let nonce = get_optional::<String>(v, "nonce")?;
        let url = get_required::<String>(v, "url")?;
        let json_web_key = get_optional::<JsonWebKey>(v, "jwk")?;
        let key_id = get_optional::<String>(v, "kid")?;
        JsonWebSignatureProtected::new(algorithm, nonce, url, json_web_key, key_id)
    }

    proof fn round_trip(v: JsonWebSignatureProtectedView) {
        lemma_protected_names();
        String::round_trip(v.algorithm);
        if let Some(x) = v.nonce {
            String::round_trip(x);
        }
        String::round_trip(v.url);
        if let Some(x) = v.json_web_key {
            JsonWebKey::round_trip(x);
        }
        if let Some(x) = v.key_id {
            String::round_trip(x);
        }
    }

    proof fn decoded_is_valid(j: Json) {
    }
}

impl JsonWebSignatureProtected {
    /// The wire names of the members of a protected header.
    pub open spec fn member_names() -> Set<Seq<char>> {
        set!["alg"@, "nonce"@, "url"@, "jwk"@, "kid"@]
    }

    /// What the encoding of a protected header holds, member by member: the
    /// algorithm and the URL always, and each of nonce, key and key identifier
    /// exactly when the header has it. There are no other members.
    pub proof fn lemma_encoded_members(v: JsonWebSignatureProtectedView, name: Seq<char>)
        ensures
            JsonWebSignatureProtected::to_json(v) is Object,
            member_of(JsonWebSignatureProtected::to_json(v), "alg"@) == Some(
                String::to_json(v.algorithm),
            ),
            member_of(JsonWebSignatureProtected::to_json(v), "nonce"@) == (match v.nonce {
                Some(x) => Some(String::to_json(x)),
                None => None,
            }),
            member_of(JsonWebSignatureProtected::to_json(v), "url"@) == Some(String::to_json(v.url)),
            member_of(JsonWebSignatureProtected::to_json(v), "jwk"@) == (match v.json_web_key {
                Some(x) => Some(JsonWebKey::to_json(x)),
                None => None,
            }),
            member_of(JsonWebSignatureProtected::to_json(v), "kid"@) == (match v.key_id {
                Some(x) => Some(String::to_json(x)),
                None => None,
            }),
            !JsonWebSignatureProtected::member_names().contains(name) ==> member_of(
                JsonWebSignatureProtected::to_json(v),
                name,
            ) is None,
    {
        lemma_protected_names();
    }

    /// A member under a name that the header does not have changes nothing of
    /// what is decoded.
    pub proof fn lemma_unknown_member_ignored(j: Json, name: Seq<char>, x: Json)
        requires
            !JsonWebSignatureProtected::member_names().contains(name),
        ensures
            JsonWebSignatureProtected::from_json(extended(j, name, x))
                == JsonWebSignatureProtected::from_json(j),
    {
    }

    /// A header with both a key and a key identifier, or with neither, does
    /// not decode: where its members are of the right shape the failure is
    /// `MalformedEnvelope`.
    pub proof fn lemma_two_keys_or_none_rejected(j: Json)
        requires
            j is Object,
            required::<String>(j, "alg"@) is Ok,
            optional::<String>(j, "nonce"@) is Ok,
            required::<String>(j, "url"@) is Ok,
            optional::<JsonWebKey>(j, "jwk"@) is Ok,
            optional::<String>(j, "kid"@) is Ok,
            (optional::<JsonWebKey>(j, "jwk"@)->Ok_0 is Some) == (optional::<String>(
                j,
                "kid"@,
            )->Ok_0 is Some),
        ensures
            JsonWebSignatureProtected::from_json(j) == Err::<
                JsonWebSignatureProtectedView,
                DecodeErrorView,
            >(DecodeErrorView::MalformedEnvelope),
    {
    }
}

impl JsonWebSignatureProtected {
    /// Decodes a `JsonWebSignatureProtected` from a JSON text.
    pub fn from_str(s: &str) -> (r: Result<JsonWebSignatureProtected, DecodeError>)
        ensures
            outcome(r) == decode_text::<JsonWebSignatureProtected>(s@),
    {
        from_text::<JsonWebSignatureProtected>(s)
    }

    /// Encodes a `JsonWebSignatureProtected` as a JSON text. Whether there is a text is for the
    /// printer to say; what it prints is the encoding of `self`.
    pub fn to_string(&self) -> (r: Result<String, EncodeError>)
        ensures
            match r {
                Ok(s) => encode_text::<JsonWebSignatureProtected>(self.deep_view()) == Some(s@),
                Err(_) => encode_text::<JsonWebSignatureProtected>(self.deep_view()) is None,
            },
    {
        to_text::<JsonWebSignatureProtected>(self)
    }
}

} // verus!
