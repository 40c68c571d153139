use acme_types::v2::{
    AccountStatus, AuthorizationStatus, ChallengeStatus, ChallengeType, IdentifierType,
    OrderStatus,
};
use acme_types::wire::{DecodeError, Wire};
use serde_json::Value;

fn mismatch(field: &str) -> DecodeError {
    DecodeError::SchemaMismatch { field: field.to_string() }
}

#[test]
fn identifier_type_wire_strings() {
    assert_eq!(IdentifierType::Dns.encode(), "dns");
    assert_eq!(IdentifierType::decode("dns"), Ok(IdentifierType::Dns));
    assert_eq!(IdentifierType::decode("ip"), Err(DecodeError::UnknownVariant));
    assert_eq!(IdentifierType::decode("DNS"), Err(DecodeError::UnknownVariant));
    assert_eq!(IdentifierType::decode(""), Err(DecodeError::UnknownVariant));
}

#[test]
fn account_status_wire_strings() {
    let table = [
        (AccountStatus::Valid, "valid"),
        (AccountStatus::Deactivated, "deactivated"),
        (AccountStatus::Revoked, "revoked"),
    ];
    for (v, s) in table {
        assert_eq!(v.encode(), s);
        assert_eq!(AccountStatus::decode(s), Ok(v));
    }
    assert_eq!(AccountStatus::decode("pending"), Err(DecodeError::UnknownVariant));
    assert_eq!(AccountStatus::decode("Valid"), Err(DecodeError::UnknownVariant));
}

#[test]
fn order_status_wire_strings() {
    let table = [
        (OrderStatus::Pending, "pending"),
        (OrderStatus::Ready, "ready"),
        (OrderStatus::Processing, "processing"),
        (OrderStatus::Valid, "valid"),
        (OrderStatus::Invalid, "invalid"),
    ];
    for (v, s) in table {
        assert_eq!(v.encode(), s);
        assert_eq!(OrderStatus::decode(s), Ok(v));
    }
    assert_eq!(OrderStatus::decode("revoked"), Err(DecodeError::UnknownVariant));
    assert_eq!(OrderStatus::decode("valid "), Err(DecodeError::UnknownVariant));
}

#[test]
fn authorization_status_wire_strings() {
    let table = [
        (AuthorizationStatus::Pending, "pending"),
        (AuthorizationStatus::Expired, "expired"),
        (AuthorizationStatus::Deactivated, "deactivated"),
        (AuthorizationStatus::Revoked, "revoked"),
        (AuthorizationStatus::Valid, "valid"),
        (AuthorizationStatus::Invalid, "invalid"),
    ];
    for (v, s) in table {
        assert_eq!(v.encode(), s);
        assert_eq!(AuthorizationStatus::decode(s), Ok(v));
    }
    assert_eq!(AuthorizationStatus::decode("ready"), Err(DecodeError::UnknownVariant));
}

#[test]
fn challenge_status_wire_strings() {
    let table = [
        (ChallengeStatus::Pending, "pending"),
        (ChallengeStatus::Processing, "processing"),
        (ChallengeStatus::Valid, "valid"),
        (ChallengeStatus::Invalid, "invalid"),
    ];
    for (v, s) in table {
        assert_eq!(v.encode(), s);
        assert_eq!(ChallengeStatus::decode(s), Ok(v));
    }
    assert_eq!(ChallengeStatus::decode("expired"), Err(DecodeError::UnknownVariant));
}

#[test]
fn challenge_type_wire_strings() {
    assert_eq!(ChallengeType::Http01.encode(), "http-01");
    assert_eq!(ChallengeType::Dns01.encode(), "dns-01");
    assert_eq!(ChallengeType::decode("http-01"), Ok(ChallengeType::Http01));
    assert_eq!(ChallengeType::decode("dns-01"), Ok(ChallengeType::Dns01));
    assert_eq!(ChallengeType::decode("tls-alpn-01"), Err(DecodeError::UnknownVariant));
    assert_eq!(ChallengeType::decode("http01"), Err(DecodeError::UnknownVariant));
}

#[test]
fn closed_enum_as_json_value() {
    assert_eq!(ChallengeType::Http01.to_value(), Value::String("http-01".to_string()));
    assert_eq!(
        ChallengeType::from_value(&Value::String("dns-01".to_string())),
        Ok(ChallengeType::Dns01)
    );
    assert_eq!(
        ChallengeType::from_value(&Value::String("smtp-01".to_string())),
        Err(DecodeError::UnknownVariant)
    );
    assert_eq!(ChallengeType::from_value(&Value::Bool(true)), Err(mismatch("")));
    assert_eq!(ChallengeType::from_value(&Value::Null), Err(mismatch("")));
}

#[test]
fn primitive_values_as_json() {
    assert_eq!("a".to_string().to_value(), Value::String("a".to_string()));
    assert_eq!(true.to_value(), Value::Bool(true));
    assert_eq!(false.to_value(), Value::Bool(false));
    assert_eq!(String::from_value(&Value::String("a".to_string())), Ok("a".to_string()));
    assert_eq!(String::from_value(&Value::Bool(true)), Err(mismatch("")));
    assert_eq!(bool::from_value(&Value::Bool(true)), Ok(true));
    assert_eq!(bool::from_value(&Value::String("true".to_string())), Err(mismatch("")));
    let list = vec!["a".to_string(), "b".to_string()];
    let encoded = list.to_value();
    assert_eq!(
        encoded,
        Value::Array(vec![Value::String("a".to_string()), Value::String("b".to_string())])
    );
    assert_eq!(Vec::<String>::from_value(&encoded), Ok(list));
    assert_eq!(Vec::<String>::from_value(&Value::Array(vec![])), Ok(vec![]));
    assert_eq!(
        Vec::<String>::from_value(&Value::Array(vec![
            Value::String("a".to_string()),
            Value::Bool(false)
        ])),
        Err(mismatch(""))
    );
    assert_eq!(Vec::<String>::from_value(&Value::String("a".to_string())), Err(mismatch("")));
}
