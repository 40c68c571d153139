use acme_types::v2::{
    certificate_revocation_reason_deserialize, certificate_revocation_reason_serialize,
    CertificateRevocation, CertificateRevocationReason,
};
use acme_types::wire::{DecodeError, Wire};
use serde_json::Value;

fn table() -> Vec<(CertificateRevocationReason, i32)> {
    vec![
        (CertificateRevocationReason::Unspecified, 0),
        (CertificateRevocationReason::KeyCompromise, 1),
        (CertificateRevocationReason::CertificateAuthorityCompromise, 2),
        (CertificateRevocationReason::AffiliationChanged, 3),
        (CertificateRevocationReason::Superseded, 4),
        (CertificateRevocationReason::CessationOfOperation, 5),
        (CertificateRevocationReason::CertificateHold, 6),
        (CertificateRevocationReason::RemoveFromCertificateRevocationList, 8),
        (CertificateRevocationReason::PrivilegeWithdrawn, 9),
        (CertificateRevocationReason::AuthorityAttributeCompromise, 10),
    ]
}

#[test]
fn codes_of_the_table_give_named_reasons() {
    for (v, n) in table() {
        assert_eq!(CertificateRevocationReason::from_code(n), v);
        assert_eq!(v.to_code(), n);
    }
}

#[test]
fn codes_outside_the_table_are_kept() {
    for n in [7, 11, 12, 100, -1, -7, i32::MAX, i32::MIN] {
        let v = CertificateRevocationReason::from_code(n);
        assert_eq!(v, CertificateRevocationReason::Other(n));
        assert_eq!(v.to_code(), n);
    }
}

#[test]
fn code_seven_is_not_a_neighbour() {
    let v = CertificateRevocationReason::from_code(7);
    assert_ne!(v, CertificateRevocationReason::CertificateHold);
    assert_ne!(v, CertificateRevocationReason::RemoveFromCertificateRevocationList);
    assert_eq!(v, CertificateRevocationReason::Other(7));
}

#[test]
fn revocation_reason_seven_is_kept() {
    let v = certificate_revocation_reason_deserialize("7").unwrap();
    assert_eq!(v, CertificateRevocationReason::Other(7));
    assert_eq!(certificate_revocation_reason_serialize(&v), "7");
}

#[test]
fn reasons_are_written_as_their_code() {
    for (v, n) in table() {
        assert_eq!(certificate_revocation_reason_serialize(&v), n.to_string());
        assert_eq!(certificate_revocation_reason_deserialize(&n.to_string()), Ok(v));
    }
    assert_eq!(
        certificate_revocation_reason_serialize(&CertificateRevocationReason::Other(-3)),
        "-3"
    );
    assert_eq!(
        certificate_revocation_reason_deserialize("-3"),
        Ok(CertificateRevocationReason::Other(-3))
    );
    assert_eq!(
        certificate_revocation_reason_deserialize("04"),
        Ok(CertificateRevocationReason::Superseded)
    );
}

#[test]
fn a_reason_that_is_no_integer_is_an_invalid_value() {
    for s in ["", "x", "4x", "4.0", " 4", "-", "2147483648", "-2147483649", "four"] {
        assert_eq!(
            certificate_revocation_reason_deserialize(s),
            Err(DecodeError::InvalidValue),
            "on {:?}",
            s
        );
    }
}

#[test]
fn revocation_request_round_trip() {
    let full = CertificateRevocation {
        certificate: "MIIB".to_string(),
        reason: Some(CertificateRevocationReason::Superseded),
    };
    let encoded = full.to_string().unwrap();
    assert_eq!(encoded, r#"{"certificate":"MIIB","reason":"4"}"#);
    assert_eq!(CertificateRevocation::from_str(&encoded), Ok(full));

    let other = CertificateRevocation {
        certificate: "MIIB".to_string(),
        reason: Some(CertificateRevocationReason::Other(7)),
    };
    let encoded = other.to_string().unwrap();
    assert_eq!(encoded, r#"{"certificate":"MIIB","reason":"7"}"#);
    assert_eq!(CertificateRevocation::from_str(&encoded), Ok(other));

    let minimal = CertificateRevocation { certificate: "".to_string(), reason: None };
    let encoded = minimal.to_string().unwrap();
    assert_eq!(encoded, r#"{"certificate":""}"#);
    assert_eq!(CertificateRevocation::from_str(&encoded), Ok(minimal));
}

#[test]
fn revocation_request_failures() {
    assert_eq!(
        CertificateRevocation::from_str(r#"{"certificate":"c","reason":"soon"}"#),
        Err(DecodeError::InvalidValue)
    );
    assert_eq!(
        CertificateRevocation::from_str(r#"{"certificate":"c","reason":4}"#),
        Err(DecodeError::SchemaMismatch { field: "reason".to_string() })
    );
    assert_eq!(
        CertificateRevocation::from_str(r#"{"reason":"4"}"#),
        Err(DecodeError::SchemaMismatch { field: "certificate".to_string() })
    );
    assert_eq!(
        CertificateRevocation::from_str(r#"{"certificate":"c","reason":null}"#),
        Ok(CertificateRevocation { certificate: "c".to_string(), reason: None })
    );
}

#[test]
fn reason_as_json_value() {
    assert_eq!(
        CertificateRevocationReason::KeyCompromise.to_value(),
        Value::String("1".to_string())
    );
    assert_eq!(
        CertificateRevocationReason::from_value(&Value::String("10".to_string())),
        Ok(CertificateRevocationReason::AuthorityAttributeCompromise)
    );
    assert_eq!(
        CertificateRevocationReason::from_value(&Value::Bool(true)),
        Err(DecodeError::SchemaMismatch { field: String::new() })
    );
}
