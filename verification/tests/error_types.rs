use acme_types::v2::{
    error_type_deserialize, error_type_serialize, Error, ErrorType, Identifier, IdentifierType,
    ProblemDocument,
};
use acme_types::wire::{DecodeError, Wire};
use serde_json::Value;

fn named() -> Vec<(ErrorType, &'static str)> {
    vec![
        (ErrorType::AccountDoesNotExist, "accountDoesNotExist"),
        (ErrorType::AlreadyRevoked, "alreadyRevoked"),
        (ErrorType::BadCertificateSigningRequest, "badCSR"),
        (ErrorType::BadNonce, "badNonce"),
        (ErrorType::BadPublicKey, "badPublicKey"),
        (ErrorType::BadRevocationReason, "badRevocationReason"),
        (ErrorType::BadSignatureAlgorithm, "badSignatureAlgorithm"),
        (ErrorType::CertificationAuthorityAuthorization, "caa"),
        (ErrorType::Compound, "compound"),
        (ErrorType::Connection, "connection"),
        (ErrorType::Dns, "dns"),
        (ErrorType::ExternalAccountRequired, "externalAccountRequired"),
        (ErrorType::IncorrectResponse, "incorrectResponse"),
        (ErrorType::InvalidContact, "invalidContact"),
        (ErrorType::Malformed, "malformed"),
        (ErrorType::OrderNotReady, "orderNotReady"),
        (ErrorType::RateLimited, "rateLimited"),
        (ErrorType::RejectedIdentifier, "rejectedIdentifier"),
        (ErrorType::ServerInternal, "serverInternal"),
        (ErrorType::Tls, "tls"),
        (ErrorType::Unauthorized, "unauthorized"),
        (ErrorType::UnsupportedContact, "unsupportedContact"),
        (ErrorType::UnsupportedIdentifier, "unsupportedIdentifier"),
        (ErrorType::UserActionRequired, "userActionRequired"),
    ]
}

fn text(v: &Value) -> String {
    serde_json::to_string(v).unwrap()
}

#[test]
fn named_error_types_have_their_urn() {
    for (v, token) in named() {
        assert_eq!(error_type_serialize(&v), format!("urn:ietf:params:acme:error:{}", token));
    }
}

#[test]
fn named_error_types_survive_a_round_trip() {
    for (v, _) in named() {
        assert_eq!(error_type_deserialize(&error_type_serialize(&v)), v);
    }
}

#[test]
fn each_urn_decodes_to_its_own_variant() {
    for (v, token) in named() {
        let urn = format!("urn:ietf:params:acme:error:{}", token);
        assert_eq!(error_type_deserialize(&urn), v);
    }
    assert_eq!(
        error_type_deserialize("urn:ietf:params:acme:error:badNonce"),
        ErrorType::BadNonce
    );
    assert_eq!(
        error_type_deserialize("urn:ietf:params:acme:error:rateLimited"),
        ErrorType::RateLimited
    );
}

#[test]
fn unknown_error_types_are_kept_as_they_are() {
    for s in [
        "urn:ietf:params:acme:error:somethingNew",
        "urn:ietf:params:acme:error:",
        "urn:ietf:params:acme:error:badNonce ",
        "urn:ietf:params:acme:error:BadNonce",
        "urn:ietf:params:acme:error:badNonceX",
        "urn:ietf:params:acme:error:urn:ietf:params:acme:error:badNonce",
        "urn:ietf:params:acme:error",
        "urn:ietf:params:acme:ERROR:badNonce",
        "urn:example:badNonce",
        "badNonce",
        "dns",
        "",
        " urn:ietf:params:acme:error:badNonce",
        "urn:ietf:params:acme:error:\u{e9}",
        "\u{e9}rn:ietf:params:acme:error:badNonce",
    ] {
        let v = error_type_deserialize(s);
        assert_eq!(v, ErrorType::Other(s.to_string()), "on {:?}", s);
        assert_eq!(error_type_serialize(&v), s);
    }
}

#[test]
fn every_wire_string_is_written_back_unchanged() {
    for s in ["urn:ietf:params:acme:error:tls", "urn:ietf:params:acme:error:tlsx", "x", ""] {
        assert_eq!(error_type_serialize(&error_type_deserialize(s)), s);
    }
}

#[test]
fn error_type_as_json_value() {
    assert_eq!(
        ErrorType::Malformed.to_value(),
        Value::String("urn:ietf:params:acme:error:malformed".to_string())
    );
    assert_eq!(
        ErrorType::Other("urn:example:custom".to_string()).to_value(),
        Value::String("urn:example:custom".to_string())
    );
    assert_eq!(
        ErrorType::from_value(&Value::String("urn:ietf:params:acme:error:caa".to_string())),
        Ok(ErrorType::CertificationAuthorityAuthorization)
    );
    assert_eq!(
        ErrorType::from_value(&Value::Null),
        Err(DecodeError::SchemaMismatch { field: String::new() })
    );
}

#[test]
fn rate_limited_error_decodes_and_encodes() {
    let input = r#"{"type":"urn:ietf:params:acme:error:rateLimited","detail":"too many requests"}"#;
    let error = Error::from_str(input).unwrap();
    assert_eq!(
        error,
        Error {
            type_: ErrorType::RateLimited,
            detail: "too many requests".to_string(),
            sub_problems: None,
        }
    );
    let output = error.to_string().unwrap();
    let expected: Value = serde_json::from_str(input).unwrap();
    let actual: Value = serde_json::from_str(&output).unwrap();
    assert_eq!(actual, expected);
    assert_eq!(
        output,
        r#"{"detail":"too many requests","type":"urn:ietf:params:acme:error:rateLimited"}"#
    );
}

#[test]
fn error_with_sub_problems_round_trip() {
    let error = Error {
        type_: ErrorType::Compound,
        detail: "two identifiers were refused".to_string(),
        sub_problems: Some(vec![
            ProblemDocument {
                type_: ErrorType::RejectedIdentifier,
                detail: "not allowed".to_string(),
                identifier: Some(Identifier {
                    type_: IdentifierType::Dns,
                    value: "a.example".to_string(),
                }),
            },
            ProblemDocument {
                type_: ErrorType::Other("urn:example:policy".to_string()),
                detail: "policy".to_string(),
                identifier: None,
            },
        ]),
    };
    let encoded = error.to_string().unwrap();
    assert_eq!(
        encoded,
        concat_parts(&[
            r#"{"detail":"two identifiers were refused","subproblems":["#,
            r#"{"detail":"not allowed","identifier":{"type":"dns","value":"a.example"},"#,
            r#""type":"urn:ietf:params:acme:error:rejectedIdentifier"},"#,
            r#"{"detail":"policy","type":"urn:example:policy"}],"#,
            r#""type":"urn:ietf:params:acme:error:compound"}"#,
        ])
    );
    assert_eq!(Error::from_str(&encoded), Ok(error.clone()));
    assert_eq!(Error::from_value(&error.to_value()), Ok(error));
}

fn concat_parts(parts: &[&str]) -> String {
    parts.iter().map(|p| p.to_string()).collect::<Vec<String>>().join("")
}

#[test]
fn minimal_error_leaves_sub_problems_out() {
    let error = Error {
        type_: ErrorType::Malformed,
        detail: String::new(),
        sub_problems: None,
    };
    let v = error.to_value();
    assert!(v.get("subproblems").is_none());
    assert_eq!(text(&v), r#"{"detail":"","type":"urn:ietf:params:acme:error:malformed"}"#);
    assert_eq!(Error::from_value(&v), Ok(error));
}

#[test]
fn error_decoding_names_the_offending_member() {
    let missing = |field: &str| Err(DecodeError::SchemaMismatch { field: field.to_string() });
    assert_eq!(Error::from_str(r#"{"detail":"d"}"#), missing("type"));
    assert_eq!(Error::from_str(r#"{"type":"urn:x"}"#), missing("detail"));
    assert_eq!(Error::from_str(r#"{"type":5,"detail":"d"}"#), missing("type"));
    assert_eq!(Error::from_str(r#"{"type":"urn:x","detail":null}"#), missing("detail"));
    assert_eq!(
        Error::from_str(r#"{"type":"urn:x","detail":"d","subproblems":{}}"#),
        missing("subproblems")
    );
    assert_eq!(
        Error::from_str(r#"{"type":"urn:x","detail":"d","subproblems":[7]}"#),
        missing("subproblems")
    );
    assert_eq!(
        Error::from_str(r#"{"type":"urn:x","detail":"d","subproblems":[{"type":"urn:y"}]}"#),
        missing("detail")
    );
    assert_eq!(
        Error::from_str(
            r#"{"type":"urn:x","detail":"d","subproblems":[{"type":"urn:y","detail":"e","identifier":"a"}]}"#
        ),
        missing("identifier")
    );
    assert_eq!(
        Error::from_str(
            r#"{"type":"urn:x","detail":"d","subproblems":[{"type":"urn:y","detail":"e","identifier":{"type":"ip","value":"a"}}]}"#
        ),
        Err(DecodeError::UnknownVariant)
    );
}

#[test]
fn problem_document_round_trip() {
    let full = ProblemDocument {
        type_: ErrorType::Dns,
        detail: "no such name".to_string(),
        identifier: Some(Identifier { type_: IdentifierType::Dns, value: "b.example".to_string() }),
    };
    let minimal = ProblemDocument {
        type_: ErrorType::Other("about:blank".to_string()),
        detail: "".to_string(),
        identifier: None,
    };
    assert_eq!(
        minimal.to_string().unwrap(),
        r#"{"detail":"","type":"about:blank"}"#
    );
    for p in [full, minimal] {
        let v = p.to_value();
        assert_eq!(ProblemDocument::from_value(&v), Ok(p.clone()));
        assert_eq!(ProblemDocument::from_str(&p.to_string().unwrap()), Ok(p));
    }
}
