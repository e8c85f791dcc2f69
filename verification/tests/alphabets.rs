use mathpixapi::alphabets::{AlphabetFlag, AlphabetsAllowed};
use mathpixapi::error::TextOptionsError;
use mathpixapi::json::render;
use mathpixapi::text::TextOptions;

fn unset() -> AlphabetsAllowed {
    AlphabetsAllowed {
        en: AlphabetFlag::Unset,
        hi: AlphabetFlag::Unset,
        zh: AlphabetFlag::Unset,
        ja: AlphabetFlag::Unset,
        ko: AlphabetFlag::Unset,
        ru: AlphabetFlag::Unset,
        th: AlphabetFlag::Unset,
    }
}

#[test]
fn options_alphabets_allow() {
    let mut alphabets = AlphabetsAllowed::default();
    alphabets
        .allow(vec!["en".to_string(), "ru".to_string()])
        .unwrap();
    let expected = AlphabetsAllowed {
        en: AlphabetFlag::Allowed,
        ru: AlphabetFlag::Allowed,
        ..unset()
    };
    assert_eq!(alphabets, expected)
}

#[test]
fn text_alphabets_allow() {
    let mut alphabets = AlphabetsAllowed::default();
    alphabets
        .allow(vec!["en".to_string(), "ru".to_string()])
        .unwrap();
    let expected = AlphabetsAllowed {
        en: AlphabetFlag::Allowed,
        ru: AlphabetFlag::Allowed,
        ..unset()
    };
    assert_eq!(alphabets, expected)
}

#[test]
fn options_alphabets_disallow() {
    let mut alphabets = AlphabetsAllowed::default();
    alphabets
        .disallow(vec!["en".to_string(), "ru".to_string()])
        .unwrap();
    let expected = AlphabetsAllowed {
        en: AlphabetFlag::Disallowed,
        ru: AlphabetFlag::Disallowed,
        ..unset()
    };
    assert_eq!(alphabets, expected);
}

#[test]
fn text_alphabets_disallow() {
    let mut alphabets = AlphabetsAllowed::default();
    alphabets
        .disallow(vec!["en".to_string(), "ru".to_string()])
        .unwrap();
    let expected = AlphabetsAllowed {
        en: AlphabetFlag::Disallowed,
        ru: AlphabetFlag::Disallowed,
        ..unset()
    };
    assert_eq!(alphabets, expected);
}

#[test]
fn options_alphabets_disallow_and_allow() {
    let mut alphabets = AlphabetsAllowed::default();
    alphabets
        .disallow(vec!["en".to_string(), "ru".to_string()])
        .unwrap();
    alphabets
        .allow(vec!["en".to_string(), "hi".to_string()])
        .unwrap();
    let expected = AlphabetsAllowed {
        en: AlphabetFlag::Allowed,
        ru: AlphabetFlag::Disallowed,
        hi: AlphabetFlag::Allowed,
        ..unset()
    };
    assert_eq!(alphabets, expected)
}

#[test]
fn text_alphabets_disallow_and_allow() {
    let mut alphabets = AlphabetsAllowed::default();
    alphabets
        .disallow(vec!["en".to_string(), "ru".to_string()])
        .unwrap();
    alphabets
        .allow(vec!["en".to_string(), "hi".to_string()])
        .unwrap();
    let expected = AlphabetsAllowed {
        en: AlphabetFlag::Allowed,
        ru: AlphabetFlag::Disallowed,
        hi: AlphabetFlag::Allowed,
        ..unset()
    };
    assert_eq!(alphabets, expected)
}

#[test]
fn options_serialize_alphabets() {
    let mut alphabets = AlphabetsAllowed::default();
    alphabets
        .disallow(vec!["en".to_string(), "ru".to_string()])
        .unwrap();
    alphabets
        .allow(vec!["en".to_string(), "hi".to_string()])
        .unwrap();
    let serialized: serde_json::Value = serde_json::from_str(&render(&alphabets.to_json())).unwrap();
    let expected: serde_json::Value = serde_json::from_str(
        r#"{
            "en": true,
            "ru": false,
            "hi": true,
            "ja": null,
            "ko": null,
            "th": null,
            "zh": null
        }"#,
    )
    .unwrap();
    assert_eq!(expected, serialized);
}

#[test]
fn text_serialize_alphabets() {
    let mut alphabets = AlphabetsAllowed::default();
    alphabets
        .disallow(vec!["en".to_string(), "ru".to_string()])
        .unwrap();
    alphabets
        .allow(vec!["en".to_string(), "hi".to_string()])
        .unwrap();
    let serialized: serde_json::Value = serde_json::from_str(&render(&alphabets.to_json())).unwrap();
    let expected: serde_json::Value = serde_json::from_str(
        r#"{
            "en": true,
            "ru": false,
            "hi": true,
            "ja": null,
            "ko": null,
            "th": null,
            "zh": null
        }"#,
    )
    .unwrap();
    assert_eq!(expected, serialized);
}

#[test]
fn alphabets_unknown_code_rejected() {
    let mut alphabets = AlphabetsAllowed::default();
    let before = alphabets;
    let r = alphabets.allow(vec!["en".to_string(), "xx".to_string()]);
    let msg = r.unwrap_err();
    assert!(msg.starts_with("UnknownAlphabet: xx"));
    assert_eq!(alphabets, before);
}

#[test]
fn alphabets_conflict_rejected() {
    let mut opts = TextOptions::default();
    opts.set_alphabets_allowed(vec!["ru".to_string()]).unwrap();
    let before = opts.clone();
    let r = opts.set_alphabets_allowed(vec!["en".to_string(), "noen".to_string()]);
    assert!(matches!(r, Err(TextOptionsError::LogicalFallacy(_))));
    assert_eq!(opts, before);

    let r = opts.set_alphabets_allowed(vec!["!hi".to_string(), "hi".to_string()]);
    assert!(matches!(r, Err(TextOptionsError::LogicalFallacy(_))));
    assert_eq!(opts, before);
}

#[test]
fn alphabets_all_disallowed_rejected() {
    let mut alphabets = AlphabetsAllowed::default();
    let codes: Vec<String> = vec!["en", "hi", "zh", "ja", "ko", "ru", "th"]
        .into_iter()
        .map(|s| s.to_string())
        .collect();
    let before = alphabets;
    let r = alphabets.disallow(codes);
    let msg = r.unwrap_err();
    assert!(msg.starts_with("NoAlphabetsAllowed"));
    assert_eq!(alphabets, before);
}

#[test]
fn alphabets_all_disallowed_rejected_sequentially() {
    let mut alphabets = AlphabetsAllowed::default();
    for code in ["en", "hi", "zh", "ja", "ko", "ru"] {
        alphabets.disallow(vec![code.to_string()]).unwrap();
    }
    let before = alphabets;
    let r = alphabets.disallow(vec!["th".to_string()]);
    assert!(r.is_err());
    assert_eq!(alphabets, before);
    alphabets.allow(vec!["th".to_string()]).unwrap();
    assert_eq!(alphabets.th, AlphabetFlag::Allowed);
}

#[test]
fn alphabets_allow_twice_is_once() {
    let mut once = AlphabetsAllowed::default();
    once.allow(vec!["en".to_string(), "ru".to_string()]).unwrap();
    let mut twice = once;
    twice.allow(vec!["en".to_string(), "ru".to_string()]).unwrap();
    assert_eq!(once, twice);
}

#[test]
fn set_alphabets_allowed_all_token() {
    let mut opts = TextOptions::default();
    opts.set_alphabets_allowed(vec!["all".to_string()]).unwrap();
    let expected = AlphabetsAllowed {
        en: AlphabetFlag::Allowed,
        hi: AlphabetFlag::Allowed,
        zh: AlphabetFlag::Allowed,
        ja: AlphabetFlag::Allowed,
        ko: AlphabetFlag::Allowed,
        ru: AlphabetFlag::Allowed,
        th: AlphabetFlag::Allowed,
    };
    assert_eq!(opts.alphabets_allowed, Some(expected));
}
