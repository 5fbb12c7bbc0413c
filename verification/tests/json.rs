use mcp_calculator::json::{Json, Number};

fn text(s: &str) -> Json {
    Json::Text(s.to_string())
}

fn object(members: Vec<(&str, Json)>) -> Json {
    Json::Object(members.into_iter().map(|(k, v)| (k.to_string(), v)).collect())
}

fn sample() -> Json {
    object(vec![
        ("name", text("add")),
        (
            "arguments",
            object(vec![
                ("a", Json::Number(Number::PosInt(5))),
                ("b", Json::Number(Number::Float(3.5f64.to_bits()))),
            ]),
        ),
        ("list", Json::Array(vec![Json::Null, Json::Bool(true), text("x")])),
        ("name", text("second")),
    ])
}

#[test]
fn get_finds_the_member_of_that_name() {
    let value = sample();
    assert_eq!(value.get("name"), Some(&text("add")));
    assert_eq!(
        value.get("list"),
        Some(&Json::Array(vec![Json::Null, Json::Bool(true), text("x")]))
    );
    assert_eq!(
        value.get("arguments").and_then(|a| a.get("b")),
        Some(&Json::Number(Number::Float(3.5f64.to_bits())))
    );
}

#[test]
fn get_takes_the_first_of_two_members_of_one_name() {
    let value = object(vec![("k", text("first")), ("k", text("second"))]);
    assert_eq!(value.get("k"), Some(&text("first")));
}

#[test]
fn get_finds_nothing_under_an_unknown_name() {
    let value = sample();
    assert_eq!(value.get("missing"), None);
    assert_eq!(value.get("Name"), None);
    assert_eq!(value.get(""), None);
    assert_eq!(object(vec![]).get("name"), None);
}

#[test]
fn get_finds_nothing_in_what_is_no_object() {
    assert_eq!(Json::Null.get("a"), None);
    assert_eq!(Json::Bool(true).get("a"), None);
    assert_eq!(Json::Number(Number::PosInt(1)).get("a"), None);
    assert_eq!(text("a").get("a"), None);
    assert_eq!(Json::Array(vec![object(vec![("a", Json::Null)])]).get("a"), None);
}

#[test]
fn get_matches_names_that_are_not_ascii() {
    let value = object(vec![("\u{221a}", text("root")), ("\u{d7}", text("times"))]);
    assert_eq!(value.get("\u{d7}"), Some(&text("times")));
}

#[test]
fn duplicate_copies_the_whole_tree() {
    let value = sample();
    let copy = value.duplicate();
    assert_eq!(copy, value);
    assert_eq!(copy, sample());
    for leaf in [
        Json::Null,
        Json::Bool(false),
        Json::Number(Number::NegInt(-3)),
        text(""),
        Json::Array(vec![]),
        object(vec![]),
    ] {
        assert_eq!(leaf.duplicate(), leaf);
    }
}

#[test]
fn constructors_build_the_variants() {
    assert_eq!(Json::text("abc"), text("abc"));
    assert_eq!(Json::array(vec![Json::Null]), Json::Array(vec![Json::Null]));
    assert_eq!(
        Json::object(vec![Json::named("k", Json::Bool(true))]),
        Json::Object(vec![("k".to_string(), Json::Bool(true))])
    );
    assert_eq!(Json::named("key", Json::Null), ("key".to_string(), Json::Null));
}

#[test]
fn integers_are_negative_by_their_sign() {
    assert!(!Number::PosInt(0).is_negative());
    assert!(!Number::PosInt(u64::MAX).is_negative());
    assert!(Number::NegInt(-1).is_negative());
    assert!(Number::NegInt(i64::MIN).is_negative());
    assert!(!Number::NegInt(0).is_negative());
    assert!(!Number::NegInt(7).is_negative());
}

#[test]
fn doubles_are_negative_as_they_compare_below_zero() {
    let samples: Vec<f64> = vec![
        0.0,
        -0.0,
        1.0,
        -1.0,
        -4.0,
        0.25,
        -0.25,
        f64::MIN_POSITIVE,
        -f64::MIN_POSITIVE,
        5e-324,
        -5e-324,
        f64::MAX,
        f64::MIN,
        f64::INFINITY,
        f64::NEG_INFINITY,
        f64::NAN,
        -f64::NAN,
        1e300,
        -1e-300,
    ];
    for x in samples {
        assert_eq!(Number::Float(x.to_bits()).is_negative(), x < 0.0, "{}", x);
    }
}

#[test]
fn doubles_are_negative_at_the_edges_of_the_bit_patterns() {
    let patterns: Vec<u64> = vec![
        0x0000_0000_0000_0000,
        0x0000_0000_0000_0001,
        0x7FEF_FFFF_FFFF_FFFF,
        0x7FF0_0000_0000_0000,
        0x7FF0_0000_0000_0001,
        0x7FFF_FFFF_FFFF_FFFF,
        0x8000_0000_0000_0000,
        0x8000_0000_0000_0001,
        0xFFEF_FFFF_FFFF_FFFF,
        0xFFF0_0000_0000_0000,
        0xFFF0_0000_0000_0001,
        0xFFF8_0000_0000_0000,
        0xFFFF_FFFF_FFFF_FFFF,
    ];
    for bits in patterns {
        assert_eq!(
            Number::Float(bits).is_negative(),
            f64::from_bits(bits) < 0.0,
            "{:#x}",
            bits
        );
    }
}

#[test]
fn integers_are_negative_as_their_doubles_are() {
    for i in [i64::MIN, -9_007_199_254_740_993, -2, -1, 0, 1, i64::MAX] {
        assert_eq!(Number::NegInt(i).is_negative(), (i as f64) < 0.0);
    }
    for u in [0u64, 1, 9_007_199_254_740_993, u64::MAX] {
        assert_eq!(Number::PosInt(u).is_negative(), (u as f64) < 0.0);
    }
}
