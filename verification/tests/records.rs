use acme_types::v2::{
    Account, AccountOrders, AccountStatus, AccountUpdate, Authorization, AuthorizationStatus,
    AuthorizationUpdate, Challenge, ChallengeStatus, ChallengeType, Directory,
    DirectoryMetadata, Error, ErrorType, Identifier, IdentifierType, JsonWebSignature,
    NewAccount, NewAuthorization, NewOrder, Order, OrderFinalize, OrderStatus,
};
use acme_types::wire::{from_text, to_text, DecodeError, Wire};
use serde_json::Value;

fn s(text: &str) -> String {
    text.to_string()
}

fn mismatch(field: &str) -> DecodeError {
    DecodeError::SchemaMismatch { field: field.to_string() }
}

fn dns(name: &str) -> Identifier {
    Identifier { type_: IdentifierType::Dns, value: s(name) }
}

fn signature() -> JsonWebSignature {
    JsonWebSignature { protected: s("cHJv"), payload: s("cGF5"), signature: s("c2ln") }
}

fn full_order() -> Order {
    Order {
        status: OrderStatus::Valid,
        expires: s("2030-01-01T00:00:00Z"),
        identifiers: vec![dns("a.example"), dns("*.b.example")],
        not_before: Some(s("2029-01-01T00:00:00Z")),
        not_after: Some(s("2029-12-31T00:00:00Z")),
        error: Some(s("none")),
        authorizations: Some(vec![s("https://ca.example/authz/1"), s("https://ca.example/authz/2")]),
        finalize: s("https://ca.example/order/1/finalize"),
        certificate: s("https://ca.example/cert/1"),
    }
}

fn minimal_order() -> Order {
    Order {
        status: OrderStatus::Pending,
        expires: s("e"),
        identifiers: vec![],
        not_before: None,
        not_after: None,
        error: None,
        authorizations: None,
        finalize: s("f"),
        certificate: s("c"),
    }
}

fn full_challenge() -> Challenge {
    Challenge {
        url: s("https://ca.example/chall/1"),
        type_: ChallengeType::Http01,
        status: ChallengeStatus::Invalid,
        token: Some(s("tok")),
        validated: Some(s("2029-06-01T00:00:00Z")),
        error: Some(Error {
            type_: ErrorType::Connection,
            detail: s("refused"),
            sub_problems: None,
        }),
    }
}

fn minimal_challenge() -> Challenge {
    Challenge {
        url: s("u"),
        type_: ChallengeType::Dns01,
        status: ChallengeStatus::Pending,
        token: None,
        validated: None,
        error: None,
    }
}

fn full_authorization() -> Authorization {
    Authorization {
        identifier: dns("b.example"),
        status: AuthorizationStatus::Valid,
        expires: Some(s("2030-01-01T00:00:00Z")),
        challenges: vec![full_challenge(), minimal_challenge()],
        wildcard: Some(true),
    }
}

fn minimal_authorization() -> Authorization {
    Authorization {
        identifier: dns("b.example"),
        status: AuthorizationStatus::Pending,
        expires: None,
        challenges: vec![minimal_challenge()],
        wildcard: None,
    }
}

fn round_trip<T: Wire + Clone + PartialEq + std::fmt::Debug>(value: T) {
    let tree = value.to_value();
    assert_eq!(T::from_value(&tree), Ok(value.clone()));
    let text = to_text(&value).unwrap();
    assert_eq!(text, serde_json::to_string(&tree).unwrap());
    assert_eq!(from_text::<T>(&text), Ok(value));
}

#[test]
fn identifier_round_trip() {
    let id = dns("example.org");
    let text = id.to_string().unwrap();
    assert_eq!(text, r#"{"type":"dns","value":"example.org"}"#);
    assert_eq!(Identifier::from_str(&text), Ok(id.clone()));
    assert_eq!(NewAuthorization::from_str(&text), Ok(id.clone()));
    round_trip(id);
    round_trip(dns(""));
}

#[test]
fn identifier_failures() {
    assert_eq!(Identifier::from_str(r#"{"value":"a"}"#), Err(mismatch("type")));
    assert_eq!(Identifier::from_str(r#"{"type":"dns"}"#), Err(mismatch("value")));
    assert_eq!(Identifier::from_str(r#"{}"#), Err(mismatch("type")));
    assert_eq!(Identifier::from_str(r#"{"type":"dns","value":7}"#), Err(mismatch("value")));
    assert_eq!(Identifier::from_str(r#"{"type":["dns"],"value":"a"}"#), Err(mismatch("type")));
    assert_eq!(
        Identifier::from_str(r#"{"type":"ip","value":"a"}"#),
        Err(DecodeError::UnknownVariant)
    );
    assert_eq!(
        Identifier::from_str(r#"{"type":"ip","value":7}"#),
        Err(DecodeError::UnknownVariant)
    );
}

#[test]
fn a_document_of_the_wrong_shape_is_a_mismatch_without_a_name() {
    assert_eq!(Identifier::from_str("[]"), Err(mismatch("")));
    assert_eq!(Identifier::from_str("null"), Err(mismatch("")));
    assert_eq!(Identifier::from_str("\"dns\""), Err(mismatch("")));
    assert_eq!(Identifier::from_str("7"), Err(mismatch("")));
    assert_eq!(NewAccount::from_str("7"), Err(mismatch("")));
    assert_eq!(DirectoryMetadata::from_value(&Value::Array(vec![])), Err(mismatch("")));
}

#[test]
fn a_text_that_is_no_json_is_a_mismatch_without_a_name() {
    assert_eq!(Identifier::from_str(""), Err(mismatch("")));
    assert_eq!(Identifier::from_str("{"), Err(mismatch("")));
    assert_eq!(Identifier::from_str(r#"{"type":"dns","value":"a"} x"#), Err(mismatch("")));
    assert_eq!(Identifier::from_str(r#"{type:"dns"}"#), Err(mismatch("")));
    assert_eq!(Order::from_str("not json"), Err(mismatch("")));
}

#[test]
fn unknown_members_are_ignored() {
    assert_eq!(
        Identifier::from_str(r#"{"type":"dns","value":"a","future":{"x":[1,2.5,null]},"n":7}"#),
        Ok(dns("a"))
    );
    assert_eq!(
        AccountOrders::from_str(r#"{"orders":[],"next":"https://ca.example/orders?cursor=2"}"#),
        Ok(AccountOrders { orders: vec![] })
    );
}

#[test]
fn directory_round_trip() {
    let full = Directory {
        new_nonce: s("https://ca.example/nonce"),
        new_account: s("https://ca.example/acct"),
        new_order: s("https://ca.example/order"),
        new_authorization: Some(s("https://ca.example/authz")),
        revoke_certificate: s("https://ca.example/revoke"),
        key_change: s("https://ca.example/key"),
        metadata: Some(DirectoryMetadata {
            terms_of_service: Some(s("https://ca.example/tos")),
            website: Some(s("https://ca.example")),
            caa_identities: Some(vec![s("ca.example")]),
            external_account_required: Some(false),
        }),
    };
    let minimal = Directory {
        new_nonce: s("n"),
        new_account: s("a"),
        new_order: s("o"),
        new_authorization: None,
        revoke_certificate: s("r"),
        key_change: s("k"),
        metadata: None,
    };
    assert_eq!(
        minimal.to_string().unwrap(),
        r#"{"keyChange":"k","newAccount":"a","newNonce":"n","newOrder":"o","revokeCert":"r"}"#
    );
    assert_eq!(
        Directory::from_str(
            r#"{"newNonce":"n","newAccount":"a","newOrder":"o","revokeCert":"r","keyChange":"k"}"#
        ),
        Ok(minimal.clone())
    );
    let encoded = full.to_value();
    assert_eq!(encoded.get("newAuthz"), Some(&Value::String(s("https://ca.example/authz"))));
    assert_eq!(
        encoded.get("meta").and_then(|m| m.get("externalAccountRequired")),
        Some(&Value::Bool(false))
    );
    round_trip(full);
    round_trip(minimal);
}

#[test]
fn directory_metadata_as_text() {
    let m = DirectoryMetadata {
        terms_of_service: Some(s("https://ca.example/tos")),
        website: None,
        caa_identities: Some(vec![s("ca.example"), s("ca2.example")]),
        external_account_required: Some(true),
    };
    let text = m.to_string().unwrap();
    assert_eq!(
        text,
        r#"{"caaIdentities":["ca.example","ca2.example"],"externalAccountRequired":true,"termsOfService":"https://ca.example/tos"}"#
    );
    assert_eq!(DirectoryMetadata::from_str(&text), Ok(m));
    assert_eq!(
        DirectoryMetadata::from_str(r#"{"website":["w"]}"#),
        Err(mismatch("website"))
    );
}

#[test]
fn directory_failures() {
    assert_eq!(
        Directory::from_str(r#"{"newNonce":"n","newAccount":"a","newOrder":"o","revokeCert":"r"}"#),
        Err(mismatch("keyChange"))
    );
    assert_eq!(
        Directory::from_str(r#"{"newAccount":"a","newOrder":"o","revokeCert":"r","keyChange":"k"}"#),
        Err(mismatch("newNonce"))
    );
    assert_eq!(
        Directory::from_str(
            r#"{"newNonce":"n","newAccount":"a","newOrder":"o","revokeCert":"r","keyChange":"k","meta":[]}"#
        ),
        Err(mismatch("meta"))
    );
    assert_eq!(
        Directory::from_str(
            r#"{"newNonce":"n","newAccount":"a","newOrder":"o","revokeCert":"r","keyChange":"k","meta":{"caaIdentities":"ca.example"}}"#
        ),
        Err(mismatch("caaIdentities"))
    );
    assert_eq!(
        Directory::from_str(
            r#"{"newNonce":"n","newAccount":"a","newOrder":"o","newAuthz":false,"revokeCert":"r","keyChange":"k"}"#
        ),
        Err(mismatch("newAuthz"))
    );
}

#[test]
fn directory_metadata_members_are_independent() {
    for bits in 0..16 {
        let m = DirectoryMetadata {
            terms_of_service: if bits & 1 != 0 { Some(s("t")) } else { None },
            website: if bits & 2 != 0 { Some(s("w")) } else { None },
            caa_identities: if bits & 4 != 0 { Some(vec![s("c"), s("d")]) } else { None },
            external_account_required: if bits & 8 != 0 { Some(true) } else { None },
        };
        let v = m.to_value();
        assert_eq!(v.get("termsOfService").is_some(), bits & 1 != 0);
        assert_eq!(v.get("website").is_some(), bits & 2 != 0);
        assert_eq!(v.get("caaIdentities").is_some(), bits & 4 != 0);
        assert_eq!(v.get("externalAccountRequired").is_some(), bits & 8 != 0);
        assert_eq!(v.as_object().unwrap().len(), (bits as u32).count_ones() as usize);
        round_trip(m);
    }
}

#[test]
fn account_records_round_trip() {
    round_trip(NewAccount {
        contact: Some(s("mailto:admin@example.org")),
        terms_of_service_agreed: Some(true),
        only_return_existing: Some(false),
        external_account_binding: Some(signature()),
    });
    round_trip(NewAccount {
        contact: None,
        terms_of_service_agreed: None,
        only_return_existing: None,
        external_account_binding: None,
    });
    round_trip(AccountUpdate {
        contact: Some(vec![s("mailto:a@example.org"), s("mailto:b@example.org")]),
        status: Some(AccountStatus::Deactivated),
        terms_of_service_agreed: Some(true),
    });
    round_trip(AccountUpdate { contact: None, status: None, terms_of_service_agreed: None });
    round_trip(Account {
        status: AccountStatus::Valid,
        contact: Some(vec![s("mailto:a@example.org")]),
        terms_of_service_agreed: Some(true),
        external_account_binding: Some(signature()),
        orders: s("https://ca.example/acct/1/orders"),
    });
    round_trip(Account {
        status: AccountStatus::Revoked,
        contact: None,
        terms_of_service_agreed: None,
        external_account_binding: None,
        orders: s(""),
    });
    round_trip(AccountOrders { orders: vec![s("https://ca.example/order/1"), s("o2")] });
    round_trip(AccountOrders { orders: vec![] });
}

#[test]
fn account_wire_names() {
    let a = NewAccount {
        contact: Some(s("mailto:admin@example.org")),
        terms_of_service_agreed: Some(true),
        only_return_existing: Some(true),
        external_account_binding: None,
    };
    assert_eq!(
        a.to_string().unwrap(),
        r#"{"contact":"mailto:admin@example.org","onlyReturnExisting":true,"termsOfServiceAgreed":true}"#
    );
    let empty = NewAccount {
        contact: None,
        terms_of_service_agreed: None,
        only_return_existing: None,
        external_account_binding: None,
    };
    assert_eq!(empty.to_string().unwrap(), "{}");
    assert_eq!(NewAccount::from_str("{}"), Ok(empty));
    assert_eq!(
        AccountUpdate { contact: None, status: Some(AccountStatus::Deactivated), terms_of_service_agreed: None }
            .to_string()
            .unwrap(),
        r#"{"status":"deactivated"}"#
    );
}

#[test]
fn only_return_existing_leaves_the_other_members_alone() {
    let base = NewAccount {
        contact: Some(s("mailto:admin@example.org")),
        terms_of_service_agreed: Some(true),
        only_return_existing: None,
        external_account_binding: Some(signature()),
    };
    let mut flagged = base.clone();
    flagged.only_return_existing = Some(true);
    let a = base.to_value();
    let mut b = flagged.to_value();
    assert_eq!(b.get("onlyReturnExisting"), Some(&Value::Bool(true)));
    b.as_object_mut().unwrap().remove("onlyReturnExisting");
    assert_eq!(a, b);
}

#[test]
fn account_failures() {
    assert_eq!(Account::from_str(r#"{"orders":"o"}"#), Err(mismatch("status")));
    assert_eq!(Account::from_str(r#"{"status":"valid"}"#), Err(mismatch("orders")));
    assert_eq!(
        Account::from_str(r#"{"status":"pending","orders":"o"}"#),
        Err(DecodeError::UnknownVariant)
    );
    assert_eq!(
        Account::from_str(r#"{"status":"valid","contact":"mailto:a@example.org","orders":"o"}"#),
        Err(mismatch("contact"))
    );
    assert_eq!(
        Account::from_str(r#"{"status":"valid","contact":["a",1],"orders":"o"}"#),
        Err(mismatch("contact"))
    );
    assert_eq!(
        Account::from_str(r#"{"status":"valid","termsOfServiceAgreed":"yes","orders":"o"}"#),
        Err(mismatch("termsOfServiceAgreed"))
    );
    assert_eq!(
        Account::from_str(
            r#"{"status":"valid","externalAccountBinding":{"protected":"p","payload":"q"},"orders":"o"}"#
        ),
        Err(mismatch("signature"))
    );
    assert_eq!(
        Account::from_str(r#"{"status":"valid","externalAccountBinding":"jws","orders":"o"}"#),
        Err(mismatch("externalAccountBinding"))
    );
    assert_eq!(AccountOrders::from_str(r#"{}"#), Err(mismatch("orders")));
    assert_eq!(AccountOrders::from_str(r#"{"orders":null}"#), Err(mismatch("orders")));
    assert_eq!(
        AccountUpdate::from_str(r#"{"status":"gone"}"#),
        Err(DecodeError::UnknownVariant)
    );
}

#[test]
fn order_records_round_trip() {
    round_trip(full_order());
    round_trip(minimal_order());
    round_trip(NewOrder {
        identifiers: vec![dns("a.example")],
        not_before: Some(s("2029-01-01T00:00:00Z")),
        not_after: Some(s("2029-12-31T00:00:00Z")),
    });
    round_trip(NewOrder { identifiers: vec![], not_before: None, not_after: None });
    round_trip(OrderFinalize { certificate_signing_request: s("MIIC") });
    round_trip(OrderFinalize { certificate_signing_request: s("") });
}

#[test]
fn order_wire_form() {
    assert_eq!(
        minimal_order().to_string().unwrap(),
        r#"{"authorizations":null,"certificate":"c","error":null,"expires":"e","finalize":"f","identifiers":[],"status":"pending"}"#
    );
    assert_eq!(
        OrderFinalize { certificate_signing_request: s("MIIC") }.to_string().unwrap(),
        r#"{"csr":"MIIC"}"#
    );
    assert_eq!(
        NewOrder { identifiers: vec![dns("a")], not_before: Some(s("b")), not_after: None }
            .to_string()
            .unwrap(),
        r#"{"identifiers":[{"type":"dns","value":"a"}],"notBefore":"b"}"#
    );
    let v = full_order().to_value();
    assert_eq!(v.get("notBefore"), Some(&Value::String(s("2029-01-01T00:00:00Z"))));
    assert_eq!(v.get("notAfter"), Some(&Value::String(s("2029-12-31T00:00:00Z"))));
    assert_eq!(v.get("error"), Some(&Value::String(s("none"))));
    assert_eq!(v.get("status"), Some(&Value::String(s("valid"))));
    assert_eq!(v.as_object().unwrap().len(), 9);
}

#[test]
fn an_order_always_writes_its_nullable_members() {
    let v = minimal_order().to_value();
    assert_eq!(v.get("authorizations"), Some(&Value::Null));
    assert_eq!(v.get("error"), Some(&Value::Null));
    assert!(v.get("notBefore").is_none());
    assert!(v.get("notAfter").is_none());
    let text = minimal_order().to_string().unwrap();
    assert!(text.contains("\"authorizations\":null"));
    assert!(text.contains("\"error\":null"));
}

#[test]
fn an_authorization_leaves_absent_members_out() {
    let v = minimal_authorization().to_value();
    assert!(v.get("wildcard").is_none());
    assert!(v.get("expires").is_none());
    assert!(!v.as_object().unwrap().contains_key("wildcard"));
    let text = minimal_authorization().to_string().unwrap();
    assert!(!text.contains("wildcard"));
    assert!(!text.contains("null"));
    let v = full_authorization().to_value();
    assert_eq!(v.get("wildcard"), Some(&Value::Bool(true)));
}

#[test]
fn order_decoding_accepts_absent_and_null_alike() {
    let absent = r#"{"status":"pending","expires":"e","identifiers":[],"finalize":"f","certificate":"c"}"#;
    let null = r#"{"status":"pending","expires":"e","identifiers":[],"notBefore":null,"notAfter":null,"error":null,"authorizations":null,"finalize":"f","certificate":"c"}"#;
    assert_eq!(Order::from_str(absent), Ok(minimal_order()));
    assert_eq!(Order::from_str(null), Ok(minimal_order()));
}

#[test]
fn order_failures() {
    assert_eq!(
        Order::from_str(r#"{"expires":"e","identifiers":[],"finalize":"f","certificate":"c"}"#),
        Err(mismatch("status"))
    );
    assert_eq!(
        Order::from_str(r#"{"status":"pending","identifiers":[],"finalize":"f","certificate":"c"}"#),
        Err(mismatch("expires"))
    );
    assert_eq!(
        Order::from_str(r#"{"status":"pending","expires":"e","finalize":"f","certificate":"c"}"#),
        Err(mismatch("identifiers"))
    );
    assert_eq!(
        Order::from_str(
            r#"{"status":"pending","expires":"e","identifiers":"a.example","finalize":"f","certificate":"c"}"#
        ),
        Err(mismatch("identifiers"))
    );
    assert_eq!(
        Order::from_str(
            r#"{"status":"pending","expires":"e","identifiers":[{"type":"dns","value":"a"},{"type":"dns"}],"finalize":"f","certificate":"c"}"#
        ),
        Err(mismatch("value"))
    );
    assert_eq!(
        Order::from_str(
            r#"{"status":"pending","expires":"e","identifiers":[{"type":"dns","value":"a"},"b"],"finalize":"f","certificate":"c"}"#
        ),
        Err(mismatch("identifiers"))
    );
    assert_eq!(
        Order::from_str(r#"{"status":"pending","expires":"e","identifiers":[],"certificate":"c"}"#),
        Err(mismatch("finalize"))
    );
    assert_eq!(
        Order::from_str(r#"{"status":"pending","expires":"e","identifiers":[],"finalize":"f"}"#),
        Err(mismatch("certificate"))
    );
    assert_eq!(
        Order::from_str(
            r#"{"status":"pending","expires":"e","identifiers":[],"authorizations":["a",2],"finalize":"f","certificate":"c"}"#
        ),
        Err(mismatch("authorizations"))
    );
    assert_eq!(
        Order::from_str(
            r#"{"status":"pending","expires":"e","identifiers":[],"error":{"type":"urn:x"},"finalize":"f","certificate":"c"}"#
        ),
        Err(mismatch("error"))
    );
    assert_eq!(
        Order::from_str(
            r#"{"status":"done","expires":"e","identifiers":[],"finalize":"f","certificate":"c"}"#
        ),
        Err(DecodeError::UnknownVariant)
    );
    assert_eq!(NewOrder::from_str(r#"{}"#), Err(mismatch("identifiers")));
    assert_eq!(OrderFinalize::from_str(r#"{"CSR":"x"}"#), Err(mismatch("csr")));
}

#[test]
fn the_first_offending_member_is_the_one_named() {
    assert_eq!(Order::from_str(r#"{}"#), Err(mismatch("status")));
    assert_eq!(
        Order::from_str(r#"{"status":"nope","expires":7}"#),
        Err(DecodeError::UnknownVariant)
    );
    assert_eq!(Order::from_str(r#"{"status":"valid","expires":7}"#), Err(mismatch("expires")));
}

#[test]
fn authorization_records_round_trip() {
    round_trip(full_authorization());
    round_trip(minimal_authorization());
    round_trip(full_challenge());
    round_trip(minimal_challenge());
    round_trip(AuthorizationUpdate { status: AuthorizationStatus::Deactivated });
}

#[test]
fn authorization_wire_form() {
    assert_eq!(
        minimal_authorization().to_string().unwrap(),
        r#"{"challenges":[{"status":"pending","type":"dns-01","url":"u"}],"identifier":{"type":"dns","value":"b.example"},"status":"pending"}"#
    );
    assert_eq!(
        AuthorizationUpdate { status: AuthorizationStatus::Deactivated }.to_string().unwrap(),
        r#"{"status":"deactivated"}"#
    );
    let v = full_challenge().to_value();
    assert_eq!(v.get("type"), Some(&Value::String(s("http-01"))));
    assert_eq!(v.get("token"), Some(&Value::String(s("tok"))));
    assert_eq!(
        v.get("error").and_then(|e| e.get("type")),
        Some(&Value::String(s("urn:ietf:params:acme:error:connection")))
    );
}

#[test]
fn authorization_failures() {
    assert_eq!(
        Authorization::from_str(
            r#"{"identifier":{"type":"dns","value":"a"},"status":"pending","challenges":[]}"#
        ),
        Err(DecodeError::InvalidValue)
    );
    assert_eq!(
        Authorization::from_str(r#"{"identifier":{"type":"dns","value":"a"},"status":"pending"}"#),
        Err(mismatch("challenges"))
    );
    assert_eq!(
        Authorization::from_str(r#"{"status":"pending","challenges":[]}"#),
        Err(mismatch("identifier"))
    );
    assert_eq!(
        Authorization::from_str(r#"{"identifier":"a","status":"pending","challenges":[]}"#),
        Err(mismatch("identifier"))
    );
    assert_eq!(
        Authorization::from_str(
            r#"{"identifier":{"type":"dns","value":"a"},"status":"pending","challenges":[{"url":"u","type":"http-01"}]}"#
        ),
        Err(mismatch("status"))
    );
    assert_eq!(
        Authorization::from_str(
            r#"{"identifier":{"type":"dns","value":"a"},"status":"pending","challenges":[{"url":"u","type":"ftp-01","status":"valid"}]}"#
        ),
        Err(DecodeError::UnknownVariant)
    );
    assert_eq!(
        Authorization::from_str(
            r#"{"identifier":{"type":"dns","value":"a"},"status":"pending","challenges":[{"url":"u","type":"http-01","status":"valid"}],"wildcard":"true"}"#
        ),
        Err(mismatch("wildcard"))
    );
    assert_eq!(
        AuthorizationUpdate::from_str(r#"{"status":null}"#),
        Err(mismatch("status"))
    );
    assert_eq!(
        Challenge::from_str(r#"{"url":"u","type":"http-01","status":"valid","error":{"detail":"d"}}"#),
        Err(mismatch("type"))
    );
}

#[test]
fn encoding_an_empty_authorization_is_not_decodable() {
    let empty = Authorization {
        identifier: dns("a"),
        status: AuthorizationStatus::Pending,
        expires: None,
        challenges: vec![],
        wildcard: None,
    };
    let v = empty.to_value();
    assert_eq!(v.get("challenges"), Some(&Value::Array(vec![])));
    assert_eq!(Authorization::from_value(&v), Err(DecodeError::InvalidValue));
}

#[test]
fn a_value_that_is_not_canonical_decodes_to_the_canonical_one() {
    let e = Error {
        type_: ErrorType::Other(s("urn:ietf:params:acme:error:badNonce")),
        detail: s("d"),
        sub_problems: None,
    };
    let decoded = Error::from_value(&e.to_value()).unwrap();
    assert_eq!(decoded.type_, ErrorType::BadNonce);
    assert_eq!(decoded.to_value(), e.to_value());
}

#[test]
fn duplicate_members_in_a_text_read_as_the_last() {
    assert_eq!(
        Identifier::from_str(r#"{"type":"dns","value":"a","value":"b"}"#),
        Ok(dns("b"))
    );
}
