use mathpixapi::error::{BadOptionError, TextOptionsError};
use mathpixapi::fraction::{BoundedFraction, BoundedFractionError};
use mathpixapi::json::{render, JsonValue};
use mathpixapi::pdf::PDFPath;
use mathpixapi::text::TextOptions;

#[test]
fn bounded_fraction_round_trip() {
    let zero = BoundedFraction::construct(0).unwrap();
    assert_eq!(zero.millionths(), 0);
    assert_eq!(render(&zero.to_json()), "0.0".to_string());

    let one = BoundedFraction::construct(1000000).unwrap();
    assert_eq!(one.millionths(), 1000000);
    assert_eq!(render(&one.to_json()), "1.0".to_string());

    let f = BoundedFraction::construct(420000).unwrap();
    assert_eq!(f.millionths(), 420000);
    assert_eq!(render(&f.to_json()), "0.42".to_string());

    let f = BoundedFraction::construct(750000).unwrap();
    assert_eq!(render(&f.to_json()), "0.75".to_string());

    let f = BoundedFraction::construct(990000).unwrap();
    assert_eq!(render(&f.to_json()), "0.99".to_string());

    let f = BoundedFraction::construct(123456).unwrap();
    assert_eq!(render(&f.to_json()), "0.123456".to_string());
}

#[test]
fn bounded_fraction_out_of_range() {
    assert_eq!(
        BoundedFraction::construct(1000001),
        Err(BoundedFractionError::OutOfBounds(1000001))
    );
    assert_eq!(
        BoundedFraction::construct(u64::MAX),
        Err(BoundedFractionError::OutOfBounds(u64::MAX))
    );
}

#[test]
fn confidence_threshold_out_of_range_leaves_options_unchanged() {
    let mut options = TextOptions::default();
    options.confidence_threshold(250000).unwrap();
    let before = options.clone();
    let r = options.confidence_threshold(1000001);
    assert_eq!(
        r,
        Err(TextOptionsError::BadOption(
            BadOptionError::ConfidenceThreshold(BoundedFractionError::OutOfBounds(1000001))
        ))
    );
    assert_eq!(options, before);
}

#[test]
fn setter_twice_same_value_is_once() {
    let mut once = TextOptions::default();
    once.include_line_data(true);
    once.confidence_threshold(750000).unwrap();
    let mut twice = once.clone();
    twice.include_line_data(true);
    twice.confidence_threshold(750000).unwrap();
    assert_eq!(once, twice);

    let mut once_data = TextOptions::default();
    once_data
        .add_data_options_from_strings(vec![
            "include_svg".to_string(),
            "noinclude_tsv".to_string(),
        ])
        .unwrap();
    let mut twice_data = once_data.clone();
    twice_data
        .add_data_options_from_strings(vec![
            "include_svg".to_string(),
            "noinclude_tsv".to_string(),
        ])
        .unwrap();
    assert_eq!(once_data, twice_data);

    let mut once_alpha = TextOptions::default();
    once_alpha
        .set_alphabets_allowed(vec!["en".to_string(), "noru".to_string()])
        .unwrap();
    let mut twice_alpha = once_alpha.clone();
    twice_alpha
        .set_alphabets_allowed(vec!["en".to_string(), "noru".to_string()])
        .unwrap();
    assert_eq!(once_alpha, twice_alpha);
}

#[test]
fn pdf_path_checks_extension() {
    let ok = PDFPath::new("papers/report.pdf".to_string()).unwrap();
    assert_eq!(ok.pdf_path, "papers/report.pdf".to_string());

    let upper = PDFPath::new("report.PDF".to_string()).unwrap();
    assert_eq!(upper.pdf_path, "report.PDF".to_string());

    let missing = PDFPath::new("report".to_string());
    assert_eq!(
        missing,
        Err("Extension not found of no file passed".to_string())
    );

    let wrong = PDFPath::new("report.txt".to_string());
    assert_eq!(
        wrong,
        Err("Unsupported filetype. Must be a PDF file.".to_string())
    );
}

#[test]
fn render_numbers() {
    assert_eq!(render(&JsonValue::UInt(0)), "0".to_string());
    assert_eq!(render(&JsonValue::UInt(666)), "666".to_string());
    assert_eq!(render(&JsonValue::UInt(u64::MAX)), u64::MAX.to_string());
    assert_eq!(render(&JsonValue::Frac(130000)), "0.13".to_string());
    assert_eq!(render(&JsonValue::Frac(1)), "0.000001".to_string());
}

#[test]
fn render_empty_containers() {
    assert_eq!(render(&JsonValue::Arr(Vec::new())), "[]".to_string());
    assert_eq!(render(&JsonValue::Obj(Vec::new())), "{}".to_string());
    assert_eq!(render(&JsonValue::Null), "null".to_string());
    assert_eq!(render(&JsonValue::Bool(true)), "true".to_string());
    assert_eq!(render(&JsonValue::Bool(false)), "false".to_string());
}

#[test]
fn unreasonable_alphabets_via_combined_call() {
    let mut options = TextOptions::default();
    let before = options.clone();
    let r = options.set_alphabets_allowed(vec![
        "noen".to_string(),
        "nohi".to_string(),
        "nozh".to_string(),
        "noja".to_string(),
        "noko".to_string(),
        "noru".to_string(),
        "noth".to_string(),
    ]);
    assert!(matches!(r, Err(TextOptionsError::UnreasonableOptions(_))));
    assert_eq!(options, before);
}

#[test]
fn unknown_alphabet_via_combined_call() {
    let mut options = TextOptions::default();
    let before = options.clone();
    let r = options.set_alphabets_allowed(vec!["en".to_string(), "tlh".to_string()]);
    match r {
        Err(TextOptionsError::BadOption(BadOptionError::AlphabetAllowed(t))) => {
            assert_eq!(t, "tlh".to_string())
        }
        _ => panic!("expected an unknown-alphabet rejection"),
    }
    assert_eq!(options, before);
}
