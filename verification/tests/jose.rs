use acme_types::v2::{JsonWebKey, JsonWebSignature, JsonWebSignatureProtected};
use acme_types::wire::{DecodeError, Wire};
use serde_json::Value;

fn s(text: &str) -> String {
    text.to_string()
}

fn key() -> JsonWebKey {
    JsonWebKey { key_type: s("RSA"), exponent: s("AQAB"), modulus: s("0vx7") }
}

fn mismatch(field: &str) -> DecodeError {
    DecodeError::SchemaMismatch { field: field.to_string() }
}

#[test]
fn json_web_key_round_trip() {
    let k = key();
    let text = k.to_string().unwrap();
    assert_eq!(text, r#"{"e":"AQAB","kty":"RSA","n":"0vx7"}"#);
    assert_eq!(JsonWebKey::from_str(&text), Ok(k.clone()));
    assert_eq!(JsonWebKey::from_value(&k.to_value()), Ok(k));
    assert_eq!(JsonWebKey::from_str(r#"{"kty":"RSA","e":"AQAB"}"#), Err(mismatch("n")));
    assert_eq!(JsonWebKey::from_str(r#"{"kty":"RSA","n":"x"}"#), Err(mismatch("e")));
    assert_eq!(JsonWebKey::from_str(r#"{"e":"AQAB","n":"x"}"#), Err(mismatch("kty")));
    assert_eq!(
        JsonWebKey::from_str(r#"{"kty":"EC","e":"","n":"","crv":"P-256","x":"a","y":"b"}"#),
        Ok(JsonWebKey { key_type: s("EC"), exponent: s(""), modulus: s("") })
    );
}

#[test]
fn json_web_signature_round_trip() {
    let jws = JsonWebSignature { protected: s("cHJv"), payload: s(""), signature: s("c2ln") };
    let text = jws.to_string().unwrap();
    assert_eq!(text, r#"{"payload":"","protected":"cHJv","signature":"c2ln"}"#);
    assert_eq!(JsonWebSignature::from_str(&text), Ok(jws.clone()));
    assert_eq!(JsonWebSignature::from_value(&jws.to_value()), Ok(jws));
    assert_eq!(
        JsonWebSignature::from_str(r#"{"protected":"a","payload":"b"}"#),
        Err(mismatch("signature"))
    );
    assert_eq!(
        JsonWebSignature::from_str(r#"{"protected":{"alg":"RS256"},"payload":"b","signature":"c"}"#),
        Err(mismatch("protected"))
    );
}

#[test]
fn a_protected_header_with_a_key() {
    let p = JsonWebSignatureProtected::new(
        s("RS256"),
        Some(s("nonce-1")),
        s("https://ca.example/acct"),
        Some(key()),
        None,
    )
    .unwrap();
    assert_eq!(p.algorithm(), "RS256");
    assert_eq!(p.nonce(), &Some(s("nonce-1")));
    assert_eq!(p.url(), "https://ca.example/acct");
    assert_eq!(p.json_web_key(), &Some(key()));
    assert_eq!(p.key_id(), &None);
    let text = p.to_string().unwrap();
    assert_eq!(
        text,
        r#"{"alg":"RS256","jwk":{"e":"AQAB","kty":"RSA","n":"0vx7"},"nonce":"nonce-1","url":"https://ca.example/acct"}"#
    );
    assert_eq!(JsonWebSignatureProtected::from_str(&text), Ok(p.clone()));
    assert_eq!(JsonWebSignatureProtected::from_value(&p.to_value()), Ok(p.clone()));
    assert_eq!(p.clone(), p);
}

#[test]
fn a_protected_header_with_a_key_identifier() {
    let p = JsonWebSignatureProtected::new(
        s("ES256"),
        None,
        s("https://ca.example/order"),
        None,
        Some(s("https://ca.example/acct/1")),
    )
    .unwrap();
    assert_eq!(p.json_web_key(), &None);
    assert_eq!(p.key_id(), &Some(s("https://ca.example/acct/1")));
    let v = p.to_value();
    assert!(v.get("jwk").is_none());
    assert!(v.get("nonce").is_none());
    assert_eq!(v.get("kid"), Some(&Value::String(s("https://ca.example/acct/1"))));
    assert_eq!(
        p.to_string().unwrap(),
        r#"{"alg":"ES256","kid":"https://ca.example/acct/1","url":"https://ca.example/order"}"#
    );
    assert_eq!(JsonWebSignatureProtected::from_value(&v), Ok(p));
}

#[test]
fn a_protected_header_with_both_or_neither_is_malformed() {
    assert_eq!(
        JsonWebSignatureProtected::new(s("RS256"), None, s("u"), Some(key()), Some(s("kid"))),
        Err(DecodeError::MalformedEnvelope)
    );
    assert_eq!(
        JsonWebSignatureProtected::new(s("RS256"), Some(s("n")), s("u"), None, None),
        Err(DecodeError::MalformedEnvelope)
    );
    assert_eq!(
        JsonWebSignatureProtected::from_str(
            r#"{"alg":"RS256","url":"u","jwk":{"kty":"RSA","e":"AQAB","n":"x"},"kid":"k"}"#
        ),
        Err(DecodeError::MalformedEnvelope)
    );
    assert_eq!(
        JsonWebSignatureProtected::from_str(r#"{"alg":"RS256","url":"u"}"#),
        Err(DecodeError::MalformedEnvelope)
    );
    assert_eq!(
        JsonWebSignatureProtected::from_str(r#"{"alg":"RS256","url":"u","jwk":null,"kid":null}"#),
        Err(DecodeError::MalformedEnvelope)
    );
    assert_eq!(
        JsonWebSignatureProtected::from_str(r#"{"alg":"RS256","url":"u","jwk":null,"kid":"k"}"#)
            .map(|p| p.key_id().clone()),
        Ok(Some(s("k")))
    );
}

#[test]
fn a_protected_header_of_the_wrong_shape_is_a_mismatch_first() {
    assert_eq!(
        JsonWebSignatureProtected::from_str(r#"{"url":"u","kid":"k"}"#),
        Err(mismatch("alg"))
    );
    assert_eq!(
        JsonWebSignatureProtected::from_str(r#"{"alg":"RS256","kid":"k"}"#),
        Err(mismatch("url"))
    );
    assert_eq!(
        JsonWebSignatureProtected::from_str(r#"{"alg":"RS256","url":"u","kid":7}"#),
        Err(mismatch("kid"))
    );
    assert_eq!(
        JsonWebSignatureProtected::from_str(r#"{"alg":"RS256","url":"u","jwk":{"kty":"RSA"},"kid":"k"}"#),
        Err(mismatch("e"))
    );
    assert_eq!(
        JsonWebSignatureProtected::from_str(r#"{"alg":"RS256","url":"u","jwk":"key"}"#),
        Err(mismatch("jwk"))
    );
    assert_eq!(
        JsonWebSignatureProtected::from_str(r#"{"alg":"RS256","nonce":1,"url":"u"}"#),
        Err(mismatch("nonce"))
    );
    assert_eq!(JsonWebSignatureProtected::from_str("[]"), Err(mismatch("")));
}
