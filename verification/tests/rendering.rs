use okta_factors::{Factor, Value};

fn text(s: &str) -> Value {
    Value::Text(s.to_string())
}

fn record(fields: Vec<(&str, Value)>) -> Value {
    Value::Record(fields.into_iter().map(|(name, value)| (name.to_string(), value)).collect())
}

fn factor(kind: &str, provider: &str, profile: Vec<(&str, Value)>) -> Factor {
    let payload = record(vec![
        ("factorType", text(kind)),
        ("id", text("f1")),
        ("provider", text(provider)),
        ("profile", record(profile)),
    ]);
    Factor::parse(&payload).unwrap()
}

fn push_named(name: &str) -> Factor {
    factor(
        "push",
        "OKTA",
        vec![
            ("credentialId", text("jane@example.com")),
            ("deviceType", text("SmartPhone_IPhone")),
            ("name", text(name)),
            ("platform", text("IOS")),
            ("version", text("15.1")),
        ],
    )
}

#[test]
fn totp_from_google_renders_as_software_totp() {
    let totp = factor("token:software:totp", "GOOGLE", vec![("credentialId", text("c"))]);
    assert_eq!(totp.to_string(), "Software TOTP");
}

#[test]
fn totp_from_okta_renders_as_okta_verify_totp() {
    let totp = factor("token:software:totp", "OKTA", vec![("credentialId", text("c"))]);
    assert_eq!(totp.to_string(), "Okta Verify TOTP");
}

#[test]
fn totp_from_any_other_provider_renders_as_okta_verify_totp() {
    let totp = factor("token:software:totp", "FIDO", vec![("credentialId", text("c"))]);
    assert_eq!(totp.to_string(), "Okta Verify TOTP");
}

#[test]
fn totp_attributed_to_google_in_lower_case_renders_as_software_totp() {
    let totp = factor("token:software:totp", "google", vec![("credentialId", text("c"))]);
    assert_eq!(totp.to_string(), "Software TOTP");
}

#[test]
fn push_renders_with_the_device_name() {
    assert_eq!(push_named("iPhone 12").to_string(), "Okta Verify Push to iPhone 12");
}

#[test]
fn push_from_google_is_still_named_after_the_device() {
    let push = factor(
        "push",
        "GOOGLE",
        vec![
            ("credentialId", text("c")),
            ("deviceType", text("d")),
            ("name", text("Pixel 8")),
            ("platform", text("ANDROID")),
            ("version", text("14")),
        ],
    );
    assert_eq!(push.to_string(), "Okta Verify Push to Pixel 8");
}

#[test]
fn sms_renders_with_the_phone_number() {
    let sms = factor("sms", "OKTA", vec![("phoneNumber", text("+1-555-0100"))]);
    assert_eq!(sms.to_string(), "Okta SMS to +1-555-0100");
}

#[test]
fn webauthn_renders_with_the_authenticator_name() {
    let key = factor(
        "webauthn",
        "FIDO",
        vec![("credentialId", text("c")), ("authenticatorName", text("YubiKey 5"))],
    );
    assert_eq!(key.to_string(), "WebAuthn with YubiKey 5");
}

#[test]
fn names_are_substituted_verbatim() {
    assert_eq!(push_named("").to_string(), "Okta Verify Push to ");
    assert_eq!(push_named("  Zo\u{eb}'s \"phone\" {}\n").to_string(),
        "Okta Verify Push to   Zo\u{eb}'s \"phone\" {}\n");
    let long = "x".repeat(5000);
    assert_eq!(push_named(&long).to_string(), format!("Okta Verify Push to {}", long));
}

#[test]
fn rendering_twice_gives_the_same_line() {
    let factors = [
        push_named("iPhone 12"),
        factor("sms", "OKTA", vec![("phoneNumber", text("+1-555-0100"))]),
        factor("token:software:totp", "GOOGLE", vec![("credentialId", text("c"))]),
        factor("token:software:totp", "OKTA", vec![("credentialId", text("c"))]),
        factor(
            "webauthn",
            "FIDO",
            vec![("credentialId", text("c")), ("authenticatorName", text("YubiKey 5"))],
        ),
    ];
    for f in &factors {
        assert_eq!(f.to_string(), f.to_string());
        assert_eq!(f.clone().to_string(), f.to_string());
    }
}
