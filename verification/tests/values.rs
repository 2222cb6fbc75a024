use okta_factors::text::{same_text, same_text_ignoring_case};
use okta_factors::{lookup, FactorVerification, Value};

fn text(s: &str) -> Value {
    Value::Text(s.to_string())
}

fn sample() -> Value {
    Value::Record(vec![
        ("name".to_string(), text("first")),
        ("flag".to_string(), Value::Bool(true)),
        ("count".to_string(), Value::Number("-12.5e3".to_string())),
        ("none".to_string(), Value::Null),
        (
            "items".to_string(),
            Value::List(vec![
                Value::Null,
                text("x"),
                Value::List(vec![Value::Bool(false)]),
                Value::Record(vec![("deep".to_string(), Value::List(vec![text("y")]))]),
            ]),
        ),
        ("name".to_string(), text("second")),
    ])
}

#[test]
fn get_finds_the_first_field_of_that_name() {
    let v = sample();
    assert_eq!(v.get("name"), Some(&text("first")));
    assert_eq!(v.get("flag"), Some(&Value::Bool(true)));
    assert_eq!(v.get("none"), Some(&Value::Null));
    assert_eq!(v.get("missing"), None);
    assert_eq!(v.get("Name"), None);
    assert_eq!(v.get(""), None);
}

#[test]
fn get_finds_nothing_in_what_is_no_record() {
    assert_eq!(Value::Null.get("name"), None);
    assert_eq!(text("name").get("name"), None);
    assert_eq!(Value::List(vec![sample()]).get("name"), None);
    assert_eq!(Value::Record(vec![]).get("name"), None);
}

#[test]
fn lookup_finds_entries_by_name() {
    let entries = vec![
        ("verify".to_string(), text("v")),
        ("".to_string(), text("empty")),
        ("poll".to_string(), text("p")),
        ("verify".to_string(), text("shadowed")),
    ];
    assert_eq!(lookup(&entries, "verify"), Some(&text("v")));
    assert_eq!(lookup(&entries, "poll"), Some(&text("p")));
    assert_eq!(lookup(&entries, ""), Some(&text("empty")));
    assert_eq!(lookup(&entries, "pol"), None);
    assert_eq!(lookup(&vec![], "verify"), None);
}

#[test]
fn as_text_gives_strings_only() {
    assert_eq!(text("abc").as_text(), Some(&"abc".to_string()));
    assert_eq!(text("").as_text(), Some(&String::new()));
    assert_eq!(Value::Number("1".to_string()).as_text(), None);
    assert_eq!(Value::Null.as_text(), None);
    assert_eq!(Value::Bool(true).as_text(), None);
    assert_eq!(Value::List(vec![text("abc")]).as_text(), None);
    assert_eq!(sample().as_text(), None);
}

#[test]
fn clone_copies_a_value_in_depth() {
    let v = sample();
    let copy = v.clone();
    assert_eq!(copy, v);
    assert_eq!(copy, sample());
    assert_eq!(Value::Null.clone(), Value::Null);
    assert_eq!(Value::List(vec![]).clone(), Value::List(vec![]));
    assert_ne!(v, Value::Record(vec![]));
}

#[test]
fn same_text_compares_character_by_character() {
    assert!(same_text("", ""));
    assert!(same_text("push", "push"));
    assert!(same_text("Zo\u{eb} \u{1f4f1}", "Zo\u{eb} \u{1f4f1}"));
    assert!(!same_text("push", "Push"));
    assert!(!same_text("push", "pus"));
    assert!(!same_text("push", "pusH"));
    assert!(!same_text("", " "));
    assert!(!same_text("e\u{301}", "\u{e9}"));
}

#[test]
fn same_text_ignoring_case_folds_the_letters_a_to_z_only() {
    assert!(same_text_ignoring_case("", ""));
    assert!(same_text_ignoring_case("google", "GOOGLE"));
    assert!(same_text_ignoring_case("GoOgLe", "gOoGlE"));
    assert!(same_text_ignoring_case("a-z_0", "A-Z_0"));
    assert!(!same_text_ignoring_case("google", "googl"));
    assert!(!same_text_ignoring_case("google", "g00gle"));
    assert!(!same_text_ignoring_case("[", "{"));
    assert!(!same_text_ignoring_case("@", "`"));
    assert!(!same_text_ignoring_case("\u{e9}", "\u{c9}"));
    assert!(!same_text_ignoring_case("k", "\u{212a}"));
    assert!(same_text_ignoring_case("\u{e9}t\u{e9}", "\u{e9}T\u{e9}"));
}

#[test]
fn verification_holds_its_codes() {
    let one = FactorVerification::new("123456".to_string(), None);
    assert_eq!(one.pass_code(), "123456");
    assert_eq!(one.next_pass_code(), None);
    let two = FactorVerification::new("123456".to_string(), Some("654321".to_string()));
    assert_eq!(two.pass_code(), "123456");
    assert_eq!(two.next_pass_code(), Some("654321"));
    assert_ne!(one, two);
    assert_eq!(two.clone(), two);
}
