use okta_factors::{
    lookup, CallFactorProfile, Factor, FactorChallenge, FactorKind, FactorProvider, FactorStatus,
    Field, ParseError, PushFactorProfile, QuestionFactorProfile, SmsFactorProfile,
    TokenFactorProfile, Value, WebAuthnFactorProfile, WebFactorProfile,
};

fn text(s: &str) -> Value {
    Value::Text(s.to_string())
}

fn record(fields: Vec<(&str, Value)>) -> Value {
    Value::Record(fields.into_iter().map(|(name, value)| (name.to_string(), value)).collect())
}

fn push_profile() -> Value {
    record(vec![
        ("credentialId", text("jane@example.com")),
        ("deviceType", text("SmartPhone_IPhone")),
        ("name", text("iPhone 12")),
        ("platform", text("IOS")),
        ("version", text("15.1")),
    ])
}

fn webauthn_profile() -> Value {
    record(vec![
        ("credentialId", text("cred-9")),
        ("authenticatorName", text("YubiKey 5")),
    ])
}

fn factor_record(kind: &str, id: &str, provider: &str, profile: Value) -> Value {
    record(vec![
        ("factorType", text(kind)),
        ("id", text(id)),
        ("provider", text(provider)),
        ("profile", profile),
    ])
}

fn with_field(base: Value, name: &str, value: Value) -> Value {
    match base {
        Value::Record(mut fields) => {
            fields.push((name.to_string(), value));
            Value::Record(fields)
        }
        other => other,
    }
}

fn without_field(base: Value, name: &str) -> Value {
    match base {
        Value::Record(fields) => {
            Value::Record(fields.into_iter().filter(|(n, _)| n != name).collect())
        }
        other => other,
    }
}

fn malformed(field: Field) -> ParseError {
    ParseError::MalformedProfile { field }
}

#[test]
fn minimal_push_payload_parses_to_push() {
    let parsed = Factor::parse(&factor_record("push", "opf1", "OKTA", push_profile()));
    match parsed {
        Ok(Factor::Push { id, provider, status, profile, links }) => {
            assert_eq!(id, "opf1");
            assert_eq!(provider, FactorProvider::Okta);
            assert_eq!(status, None);
            assert_eq!(links, None);
            assert_eq!(profile.credential_id(), "jane@example.com");
            assert_eq!(profile.device_type(), "SmartPhone_IPhone");
            assert_eq!(profile.name(), "iPhone 12");
            assert_eq!(profile.platform(), "IOS");
            assert_eq!(profile.version(), "15.1");
        }
        other => panic!("not a push factor: {:?}", other),
    }
}

#[test]
fn minimal_sms_payload_parses_to_sms() {
    let profile = record(vec![("phoneNumber", text("+1-555-0100"))]);
    let parsed = Factor::parse(&factor_record("sms", "sms1", "OKTA", profile));
    match parsed {
        Ok(Factor::Sms { id, provider, status, profile, links }) => {
            assert_eq!(id, "sms1");
            assert_eq!(provider, FactorProvider::Okta);
            assert_eq!(status, None);
            assert_eq!(links, None);
            assert_eq!(profile.phone_number(), "+1-555-0100");
        }
        other => panic!("not an sms factor: {:?}", other),
    }
}

#[test]
fn minimal_totp_payload_parses_to_totp() {
    let profile = record(vec![("credentialId", text("jane@example.com"))]);
    let parsed = Factor::parse(&factor_record("token:software:totp", "ost1", "GOOGLE", profile));
    match parsed {
        Ok(Factor::Totp { id, provider, status, profile, links }) => {
            assert_eq!(id, "ost1");
            assert_eq!(provider, FactorProvider::Google);
            assert_eq!(status, None);
            assert_eq!(links, None);
            assert_eq!(profile.credential_id(), "jane@example.com");
        }
        other => panic!("not a totp factor: {:?}", other),
    }
}

#[test]
fn minimal_webauthn_payload_parses_to_webauthn() {
    let parsed = Factor::parse(&factor_record("webauthn", "fwf1", "FIDO", webauthn_profile()));
    match parsed {
        Ok(Factor::WebAuthn { id, provider, status, profile, links, embedded }) => {
            assert_eq!(id, "fwf1");
            assert_eq!(provider, FactorProvider::Fido);
            assert_eq!(status, None);
            assert_eq!(links, None);
            assert_eq!(embedded, None);
            assert_eq!(profile.credential_id(), "cred-9");
            assert_eq!(profile.authenticator_name(), "YubiKey 5");
        }
        other => panic!("not a webauthn factor: {:?}", other),
    }
}

#[test]
fn parsed_factor_reports_kind_and_id() {
    let push = Factor::parse(&factor_record("push", "a", "OKTA", push_profile())).unwrap();
    assert_eq!(push.kind(), FactorKind::Push);
    assert_eq!(push.id(), "a");
    let key = Factor::parse(&factor_record("webauthn", "b", "FIDO", webauthn_profile())).unwrap();
    assert_eq!(key.kind(), FactorKind::WebAuthn);
    assert_eq!(key.id(), "b");
}

#[test]
fn unknown_factor_type_is_rejected() {
    let profile = record(vec![("phoneNumber", text("+1-555-0100"))]);
    let parsed = Factor::parse(&factor_record("call", "clf1", "OKTA", profile));
    assert_eq!(parsed, Err(ParseError::UnrecognizedFactorType));
}

#[test]
fn unknown_factor_type_wins_over_every_other_fault() {
    let broken = record(vec![
        ("factorType", text("question")),
        ("provider", text("NOBODY")),
        ("status", Value::Bool(true)),
        ("_links", text("none")),
    ]);
    assert_eq!(Factor::parse(&broken), Err(ParseError::UnrecognizedFactorType));
}

#[test]
fn factor_type_must_be_spelled_exactly() {
    for spelling in ["PUSH", "Push", "push ", "", "totp", "token:software:TOTP", "WebAuthn"] {
        let parsed = Factor::parse(&factor_record(spelling, "x", "OKTA", push_profile()));
        assert_eq!(parsed, Err(ParseError::UnrecognizedFactorType), "{:?}", spelling);
    }
}

#[test]
fn missing_or_ill_typed_factor_type_is_rejected() {
    let missing = without_field(factor_record("push", "x", "OKTA", push_profile()), "factorType");
    assert_eq!(Factor::parse(&missing), Err(ParseError::UnrecognizedFactorType));
    let number = record(vec![
        ("factorType", Value::Number("7".to_string())),
        ("id", text("x")),
        ("provider", text("OKTA")),
        ("profile", push_profile()),
    ]);
    assert_eq!(Factor::parse(&number), Err(ParseError::UnrecognizedFactorType));
    assert_eq!(Factor::parse(&Value::Null), Err(ParseError::UnrecognizedFactorType));
    assert_eq!(Factor::parse(&Value::List(vec![])), Err(ParseError::UnrecognizedFactorType));
    assert_eq!(Factor::parse(&text("push")), Err(ParseError::UnrecognizedFactorType));
}

#[test]
fn unknown_provider_is_rejected() {
    for token in ["DUO", "OKTA ", "", "GOOGLE_AUTH"] {
        let parsed = Factor::parse(&factor_record("push", "x", token, push_profile()));
        assert_eq!(parsed, Err(ParseError::UnrecognizedProvider), "{:?}", token);
    }
    let missing = without_field(factor_record("push", "x", "OKTA", push_profile()), "provider");
    assert_eq!(Factor::parse(&missing), Err(ParseError::UnrecognizedProvider));
    let null = record(vec![
        ("factorType", text("push")),
        ("id", text("x")),
        ("provider", Value::Null),
        ("profile", push_profile()),
    ]);
    assert_eq!(Factor::parse(&null), Err(ParseError::UnrecognizedProvider));
}

#[test]
fn provider_is_recognized_in_any_case() {
    for (token, expected) in [
        ("OKTA", FactorProvider::Okta),
        ("okta", FactorProvider::Okta),
        ("Okta", FactorProvider::Okta),
        ("GOOGLE", FactorProvider::Google),
        ("google", FactorProvider::Google),
        ("gOoGlE", FactorProvider::Google),
        ("FIDO", FactorProvider::Fido),
        ("Fido", FactorProvider::Fido),
    ] {
        assert_eq!(FactorProvider::from_token(token), Some(expected), "{:?}", token);
    }
    assert_eq!(FactorProvider::from_token("OKTB"), None);
    assert_eq!(FactorProvider::from_token("FIDO2"), None);
    assert_eq!(FactorProvider::from_token("\u{212a}OKTA"), None);
}

#[test]
fn kind_tokens_are_read() {
    assert_eq!(FactorKind::from_token("push"), Some(FactorKind::Push));
    assert_eq!(FactorKind::from_token("sms"), Some(FactorKind::Sms));
    assert_eq!(FactorKind::from_token("token:software:totp"), Some(FactorKind::Totp));
    assert_eq!(FactorKind::from_token("webauthn"), Some(FactorKind::WebAuthn));
    assert_eq!(FactorKind::from_token("call"), None);
    assert_eq!(FactorKind::from_token("token"), None);
}

#[test]
fn status_tokens_are_read() {
    for (token, expected) in [
        ("NOT_SETUP", FactorStatus::NotSetup),
        ("PENDING_ACTIVATION", FactorStatus::PendingActivation),
        ("ENROLLED", FactorStatus::Enrolled),
        ("ACTIVE", FactorStatus::Active),
        ("INACTIVE", FactorStatus::Inactive),
        ("EXPIRED", FactorStatus::Expired),
    ] {
        assert_eq!(FactorStatus::from_token(token), Some(expected));
        let payload =
            with_field(factor_record("push", "x", "OKTA", push_profile()), "status", text(token));
        match Factor::parse(&payload) {
            Ok(Factor::Push { status, .. }) => assert_eq!(status, Some(expected)),
            other => panic!("not a push factor: {:?}", other),
        }
    }
    assert_eq!(FactorStatus::from_token("active"), None);
    assert_eq!(FactorStatus::from_token("NOTSETUP"), None);
    assert_eq!(FactorStatus::from_token(""), None);
}

#[test]
fn absent_or_null_status_is_no_status() {
    let null =
        with_field(factor_record("sms", "x", "OKTA", record(vec![("phoneNumber", text("1"))])),
            "status", Value::Null);
    match Factor::parse(&null) {
        Ok(Factor::Sms { status, .. }) => assert_eq!(status, None),
        other => panic!("not an sms factor: {:?}", other),
    }
}

#[test]
fn malformed_status_is_rejected() {
    for bad in [text("SUSPENDED"), text("active"), Value::Bool(true), record(vec![])] {
        let payload =
            with_field(factor_record("push", "x", "OKTA", push_profile()), "status", bad);
        assert_eq!(Factor::parse(&payload), Err(malformed(Field::Status)));
    }
}

#[test]
fn missing_empty_or_ill_typed_id_is_rejected() {
    let missing = without_field(factor_record("push", "x", "OKTA", push_profile()), "id");
    assert_eq!(Factor::parse(&missing), Err(malformed(Field::Id)));
    let empty = factor_record("push", "", "OKTA", push_profile());
    assert_eq!(Factor::parse(&empty), Err(malformed(Field::Id)));
    let number = record(vec![
        ("factorType", text("push")),
        ("id", Value::Number("12".to_string())),
        ("provider", text("OKTA")),
        ("profile", push_profile()),
    ]);
    assert_eq!(Factor::parse(&number), Err(malformed(Field::Id)));
}

#[test]
fn webauthn_without_authenticator_name_is_rejected() {
    let profile = record(vec![("credentialId", text("cred-9"))]);
    let parsed = Factor::parse(&factor_record("webauthn", "fwf1", "FIDO", profile));
    assert_eq!(parsed, Err(malformed(Field::AuthenticatorName)));
    assert!(matches!(parsed, Err(ParseError::MalformedProfile { .. })));
}

#[test]
fn profile_of_the_wrong_shape_is_rejected() {
    let sms_shape = record(vec![("phoneNumber", text("+1-555-0100"))]);
    assert_eq!(
        Factor::parse(&factor_record("push", "x", "OKTA", sms_shape)),
        Err(malformed(Field::CredentialId))
    );
    assert_eq!(
        Factor::parse(&factor_record("sms", "x", "OKTA", push_profile())),
        Err(malformed(Field::PhoneNumber))
    );
    assert_eq!(
        Factor::parse(&factor_record("token:software:totp", "x", "OKTA", record(vec![]))),
        Err(malformed(Field::CredentialId))
    );
    assert_eq!(
        Factor::parse(&factor_record("webauthn", "x", "FIDO", record(vec![]))),
        Err(malformed(Field::CredentialId))
    );
}

#[test]
fn missing_or_non_record_profile_is_rejected() {
    let missing = without_field(factor_record("push", "x", "OKTA", push_profile()), "profile");
    assert_eq!(Factor::parse(&missing), Err(malformed(Field::Profile)));
    for bad in [Value::Null, text("profile"), Value::List(vec![push_profile()])] {
        assert_eq!(
            Factor::parse(&factor_record("push", "x", "OKTA", bad)),
            Err(malformed(Field::Profile))
        );
    }
}

#[test]
fn profile_field_that_is_no_string_is_rejected() {
    let profile = record(vec![
        ("credentialId", text("c")),
        ("deviceType", text("d")),
        ("name", Value::Number("12".to_string())),
        ("platform", text("p")),
        ("version", Value::Null),
    ]);
    assert_eq!(
        Factor::parse(&factor_record("push", "x", "OKTA", profile)),
        Err(malformed(Field::Name))
    );
    let profile = record(vec![
        ("credentialId", text("c")),
        ("deviceType", text("d")),
        ("name", text("n")),
        ("platform", text("p")),
        ("version", Value::Null),
    ]);
    assert_eq!(
        Factor::parse(&factor_record("push", "x", "OKTA", profile)),
        Err(malformed(Field::Version))
    );
}

#[test]
fn faults_are_reported_in_a_fixed_order() {
    let bad_profile = record(vec![]);
    let all_bad = record(vec![
        ("factorType", text("webauthn")),
        ("id", text("")),
        ("provider", text("NOBODY")),
        ("status", text("SUSPENDED")),
        ("profile", bad_profile),
        ("_links", text("none")),
        ("_embedded", record(vec![])),
    ]);
    assert_eq!(Factor::parse(&all_bad), Err(ParseError::UnrecognizedProvider));
    let Value::Record(mut fields) = all_bad else { unreachable!() };
    fields[2].1 = text("FIDO");
    assert_eq!(Factor::parse(&Value::Record(fields.clone())), Err(malformed(Field::Id)));
    fields[1].1 = text("fwf1");
    assert_eq!(Factor::parse(&Value::Record(fields.clone())), Err(malformed(Field::Status)));
    fields[3].1 = text("ACTIVE");
    assert_eq!(Factor::parse(&Value::Record(fields.clone())), Err(malformed(Field::Links)));
    fields[5].1 = record(vec![]);
    assert_eq!(Factor::parse(&Value::Record(fields.clone())), Err(malformed(Field::CredentialId)));
    fields[4].1 = webauthn_profile();
    assert_eq!(Factor::parse(&Value::Record(fields.clone())), Err(ParseError::MalformedChallenge));
    fields[6].1 = record(vec![("challenge", text("abc"))]);
    let parsed = Factor::parse(&Value::Record(fields)).unwrap();
    match parsed {
        Factor::WebAuthn { id, provider, status, links, embedded, .. } => {
            assert_eq!(id, "fwf1");
            assert_eq!(provider, FactorProvider::Fido);
            assert_eq!(status, Some(FactorStatus::Active));
            assert_eq!(links, Some(vec![]));
            assert_eq!(embedded, Some(FactorChallenge { challenge: "abc".to_string() }));
        }
        other => panic!("not a webauthn factor: {:?}", other),
    }
}

#[test]
fn links_are_carried_as_they_were_read() {
    let verify = record(vec![
        ("href", text("https://example.okta.com/api/v1/authn/factors/opf1/verify")),
        ("hints", record(vec![("allow", Value::List(vec![text("POST")]))])),
    ]);
    let poll = Value::List(vec![
        record(vec![("href", text("https://example.okta.com/poll")), ("ttl", Value::Number("30".to_string()))]),
        Value::Bool(false),
    ]);
    let links = record(vec![("verify", verify.clone()), ("poll", poll.clone())]);
    let payload = with_field(factor_record("push", "opf1", "OKTA", push_profile()), "_links", links);
    match Factor::parse(&payload) {
        Ok(Factor::Push { links: Some(entries), .. }) => {
            assert_eq!(
                entries,
                vec![("verify".to_string(), verify.clone()), ("poll".to_string(), poll.clone())]
            );
            assert_eq!(lookup(&entries, "verify"), Some(&verify));
            assert_eq!(lookup(&entries, "poll"), Some(&poll));
            assert_eq!(lookup(&entries, "next"), None);
        }
        other => panic!("no links: {:?}", other),
    }
}

#[test]
fn absent_or_null_links_are_no_links() {
    for kind in ["push", "sms", "token:software:totp", "webauthn"] {
        let profile = record(vec![
            ("credentialId", text("c")),
            ("deviceType", text("d")),
            ("name", text("n")),
            ("platform", text("p")),
            ("version", text("v")),
            ("phoneNumber", text("1")),
            ("authenticatorName", text("a")),
        ]);
        let absent = factor_record(kind, "x", "OKTA", profile);
        let null = with_field(absent.clone(), "_links", Value::Null);
        for payload in [absent, null] {
            let links = match Factor::parse(&payload).unwrap() {
                Factor::Push { links, .. } => links,
                Factor::Sms { links, .. } => links,
                Factor::Totp { links, .. } => links,
                Factor::WebAuthn { links, .. } => links,
            };
            assert_eq!(links, None);
        }
    }
}

#[test]
fn links_that_are_no_record_are_rejected() {
    for bad in [text("verify"), Value::List(vec![]), Value::Bool(true)] {
        let payload = with_field(factor_record("push", "x", "OKTA", push_profile()), "_links", bad);
        assert_eq!(Factor::parse(&payload), Err(malformed(Field::Links)));
    }
}

#[test]
fn embedded_challenge_is_read() {
    let payload = with_field(
        factor_record("webauthn", "fwf1", "FIDO", webauthn_profile()),
        "_embedded",
        record(vec![("challenge", text("K0aZ-nonce"))]),
    );
    match Factor::parse(&payload) {
        Ok(Factor::WebAuthn { embedded, .. }) => {
            assert_eq!(embedded, Some(FactorChallenge { challenge: "K0aZ-nonce".to_string() }));
        }
        other => panic!("not a webauthn factor: {:?}", other),
    }
}

#[test]
fn null_embedded_is_no_challenge() {
    let payload = with_field(
        factor_record("webauthn", "fwf1", "FIDO", webauthn_profile()),
        "_embedded",
        Value::Null,
    );
    match Factor::parse(&payload) {
        Ok(Factor::WebAuthn { embedded, .. }) => assert_eq!(embedded, None),
        other => panic!("not a webauthn factor: {:?}", other),
    }
}

#[test]
fn embedded_without_challenge_is_rejected() {
    for bad in [
        record(vec![]),
        record(vec![("challenge", Value::Null)]),
        record(vec![("challenge", Value::Number("1".to_string()))]),
        record(vec![("nonce", text("abc"))]),
        text("abc"),
        Value::List(vec![]),
    ] {
        let payload = with_field(
            factor_record("webauthn", "fwf1", "FIDO", webauthn_profile()),
            "_embedded",
            bad,
        );
        assert_eq!(Factor::parse(&payload), Err(ParseError::MalformedChallenge));
    }
}

#[test]
fn embedded_is_not_looked_at_for_other_kinds() {
    let payload = with_field(
        factor_record("push", "opf1", "OKTA", push_profile()),
        "_embedded",
        text("not a challenge"),
    );
    assert!(matches!(Factor::parse(&payload), Ok(Factor::Push { .. })));
}

#[test]
fn unknown_fields_are_passed_over() {
    let payload = with_field(
        with_field(factor_record("push", "opf1", "OKTA", push_profile()), "created", text("2020")),
        "vendorName",
        text("OKTA"),
    );
    assert!(matches!(Factor::parse(&payload), Ok(Factor::Push { .. })));
}

#[test]
fn first_of_two_fields_with_one_name_counts() {
    let payload = record(vec![
        ("factorType", text("sms")),
        ("factorType", text("call")),
        ("id", text("first")),
        ("id", text("second")),
        ("provider", text("OKTA")),
        ("profile", record(vec![("phoneNumber", text("1")), ("phoneNumber", text("2"))])),
    ]);
    match Factor::parse(&payload) {
        Ok(Factor::Sms { id, profile, .. }) => {
            assert_eq!(id, "first");
            assert_eq!(profile.phone_number(), "1");
        }
        other => panic!("not an sms factor: {:?}", other),
    }
}

#[test]
fn each_error_names_the_field_at_fault() {
    assert_eq!(ParseError::UnrecognizedFactorType.field(), Field::FactorType);
    assert_eq!(ParseError::UnrecognizedProvider.field(), Field::Provider);
    assert_eq!(malformed(Field::Name).field(), Field::Name);
    assert_eq!(malformed(Field::Id).field(), Field::Id);
    assert_eq!(ParseError::MalformedChallenge.field(), Field::Embedded);
}

#[test]
fn fields_have_their_wire_names() {
    let expected = [
        (Field::FactorType, "factorType"),
        (Field::Id, "id"),
        (Field::Provider, "provider"),
        (Field::Status, "status"),
        (Field::Profile, "profile"),
        (Field::Links, "_links"),
        (Field::Embedded, "_embedded"),
        (Field::Challenge, "challenge"),
        (Field::CredentialId, "credentialId"),
        (Field::DeviceType, "deviceType"),
        (Field::Name, "name"),
        (Field::Platform, "platform"),
        (Field::Version, "version"),
        (Field::PhoneNumber, "phoneNumber"),
        (Field::PhoneExtension, "phoneExtension"),
        (Field::AuthenticatorName, "authenticatorName"),
        (Field::Question, "question"),
        (Field::QuestionText, "questionText"),
        (Field::Answer, "answer"),
    ];
    for (field, name) in expected {
        assert_eq!(field.name(), name);
    }
    for (i, (a, _)) in expected.iter().enumerate() {
        for (b, _) in &expected[i + 1..] {
            assert_ne!(a.name(), b.name());
        }
    }
}

#[test]
fn profiles_parse_on_their_own() {
    let push = PushFactorProfile::parse(&push_profile()).unwrap();
    assert_eq!(push.name(), "iPhone 12");
    let sms = SmsFactorProfile::parse(&record(vec![("phoneNumber", text("+49 30 1234"))])).unwrap();
    assert_eq!(sms.phone_number(), "+49 30 1234");
    let token = TokenFactorProfile::parse(&record(vec![("credentialId", text("c1"))])).unwrap();
    assert_eq!(token.credential_id(), "c1");
    let web = WebFactorProfile::parse(&record(vec![("credentialId", text("c2"))])).unwrap();
    assert_eq!(web.credential_id(), "c2");
    let key = WebAuthnFactorProfile::parse(&webauthn_profile()).unwrap();
    assert_eq!(key.credential_id(), "cred-9");
    assert_eq!(key.authenticator_name(), "YubiKey 5");
    assert_eq!(PushFactorProfile::parse(&Value::Null), Err(malformed(Field::Profile)));
    assert_eq!(
        WebFactorProfile::parse(&record(vec![("credentialId", Value::Bool(true))])),
        Err(malformed(Field::CredentialId))
    );
}

#[test]
fn call_profile_has_an_optional_extension() {
    let plain = CallFactorProfile::parse(&record(vec![("phoneNumber", text("555"))])).unwrap();
    assert_eq!(plain.phone_number(), "555");
    assert_eq!(plain.phone_extension(), None);
    let null = CallFactorProfile::parse(&record(vec![
        ("phoneNumber", text("555")),
        ("phoneExtension", Value::Null),
    ]))
    .unwrap();
    assert_eq!(null.phone_extension(), None);
    let full = CallFactorProfile::parse(&record(vec![
        ("phoneNumber", text("555")),
        ("phoneExtension", text("12")),
    ]))
    .unwrap();
    assert_eq!(full.phone_extension(), Some("12"));
    assert_eq!(
        CallFactorProfile::parse(&record(vec![
            ("phoneNumber", text("555")),
            ("phoneExtension", Value::Number("12".to_string())),
        ])),
        Err(malformed(Field::PhoneExtension))
    );
    assert_eq!(
        CallFactorProfile::parse(&record(vec![("phoneExtension", text("12"))])),
        Err(malformed(Field::PhoneNumber))
    );
}

#[test]
fn question_profile_has_an_optional_answer() {
    let asked = QuestionFactorProfile::parse(&record(vec![
        ("question", text("favorite_art_piece")),
        ("questionText", text("What is your favorite piece of art?")),
    ]))
    .unwrap();
    assert_eq!(asked.question(), "favorite_art_piece");
    assert_eq!(asked.question_text(), "What is your favorite piece of art?");
    assert_eq!(asked.answer(), None);
    let answered = QuestionFactorProfile::parse(&record(vec![
        ("question", text("q")),
        ("questionText", text("Q?")),
        ("answer", text("The Scream")),
    ]))
    .unwrap();
    assert_eq!(answered.answer(), Some("The Scream"));
    assert_eq!(
        QuestionFactorProfile::parse(&record(vec![("question", text("q"))])),
        Err(malformed(Field::QuestionText))
    );
    assert_eq!(
        QuestionFactorProfile::parse(&record(vec![
            ("question", text("q")),
            ("questionText", text("Q?")),
            ("answer", Value::List(vec![])),
        ])),
        Err(malformed(Field::Answer))
    );
}
