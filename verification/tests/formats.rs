use mathpixapi::error::{BadOptionError, TextOptionsError};
use mathpixapi::json::{render, JsonValue};
use mathpixapi::latex::{LaTeXFormats, Ocr};
use mathpixapi::strokes::StrokesFormats;
use mathpixapi::text::{TextFormats, TextOptions};

fn parsed(s: &str) -> serde_json::Value {
    serde_json::from_str(s).unwrap()
}

#[test]
fn formats_add_empty() {
    let mut text_opts = TextOptions::default();

    let empty_formats_strs: Vec<String> = vec![];
    text_opts.add_formats_from_strings(empty_formats_strs).unwrap();

    assert_eq!(text_opts.formats, Option::None);

    let empty_formats: Vec<TextFormats> = vec![];
    text_opts.add_formats(empty_formats);

    assert_eq!(text_opts.formats, Option::None);

    let serialized = render(&text_opts.to_json());
    assert_eq!(serialized, render(&TextOptions::default().to_json()));
}

#[test]
fn formats_from_strings() {
    let mut options = TextOptions::default();
    options
        .add_formats_from_strings(
            vec!["text", "data", "html", "latex_styled"]
                .into_iter()
                .map(|s| s.to_string())
                .collect(),
        )
        .unwrap();
    assert_eq!(
        options.formats,
        Some(vec![
            TextFormats::Text,
            TextFormats::Data,
            TextFormats::Html,
            TextFormats::LaTeXStyled,
        ])
    );

    assert!(options
        .add_formats_from_strings(vec!["error".to_string()])
        .is_err())
}

#[test]
fn add_format() {
    let mut options = TextOptions::default();
    options
        .add_formats_from_strings(
            vec!["text", "data", "html", "latex_styled"]
                .into_iter()
                .map(|s| s.to_string())
                .collect(),
        )
        .unwrap();
    assert_eq!(
        options.formats,
        Some(vec![
            TextFormats::Text,
            TextFormats::Data,
            TextFormats::Html,
            TextFormats::LaTeXStyled,
        ])
    );
}

#[test]
fn formats_round_trip_and_bogus_tag() {
    let mut options = TextOptions::default();
    options
        .add_formats_from_strings(vec!["text".to_string(), "data".to_string()])
        .unwrap();
    let arr: serde_json::Value = parsed(&render(
        &mathpixapi::json::JsonValue::Obj(options.json_fields()),
    ));
    let formats = arr.get("formats").unwrap().as_array().unwrap();
    let mut names: Vec<String> = formats
        .iter()
        .map(|v| v.as_str().unwrap().to_string())
        .collect();
    names.sort();
    assert_eq!(names, vec!["data".to_string(), "text".to_string()]);

    let before = options.clone();
    let r = options.add_formats_from_strings(vec!["bogus".to_string()]);
    match r {
        Err(TextOptionsError::BadOption(BadOptionError::TextFormat(t))) => {
            assert_eq!(t, "bogus".to_string())
        }
        _ => panic!("expected a bad-format rejection"),
    }
    assert_eq!(options, before);
}

#[test]
fn formats_added_twice_are_once() {
    let mut once = TextOptions::default();
    once.add_formats(vec![TextFormats::Text, TextFormats::Data]);
    let mut twice = once.clone();
    twice.add_formats(vec![TextFormats::Text, TextFormats::Data]);
    assert_eq!(once, twice);
}

#[test]
fn options_serialize_text_formats() {
    let text_formats: Vec<TextFormats> = vec![
        TextFormats::Text,
        TextFormats::Html,
        TextFormats::Data,
        TextFormats::LaTeXStyled,
    ];
    let items: Vec<JsonValue> = text_formats.iter().map(|f| f.to_json()).collect();
    let serialized = parsed(&render(&JsonValue::Arr(items)));
    let expected = parsed(r#"["text", "html", "data", "latex_styled"]"#);
    assert_eq!(serialized, expected);
}

#[test]
fn text_serialize_text_formats() {
    let text_formats: Vec<TextFormats> = vec![
        TextFormats::Text,
        TextFormats::Html,
        TextFormats::Data,
        TextFormats::LaTeXStyled,
    ];
    let items: Vec<JsonValue> = text_formats.iter().map(|f| f.to_json()).collect();
    let serialized = parsed(&render(&JsonValue::Arr(items)));
    let expected = parsed(r#"["text", "html", "data", "latex_styled"]"#);
    assert_eq!(serialized, expected);
}

#[test]
fn options_to_string_text_formats() {
    let text_formats: Vec<TextFormats> = vec![
        TextFormats::Text,
        TextFormats::Html,
        TextFormats::Data,
        TextFormats::LaTeXStyled,
    ];
    let text_formats_text: Vec<String> = text_formats.iter().map(|x| x.to_string()).collect();
    let expected = vec![
        "text".to_string(),
        "html".to_string(),
        "data".to_string(),
        "latex_styled".to_string(),
    ];
    assert_eq!(text_formats_text, expected);
}

#[test]
fn options_serialize_strokes_formats() {
    let strokes_formats: Vec<StrokesFormats> = vec![
        StrokesFormats::Text,
        StrokesFormats::Html,
        StrokesFormats::Data,
    ];
    let items: Vec<JsonValue> = strokes_formats
        .iter()
        .map(|f| JsonValue::Str(f.as_str().to_string()))
        .collect();
    let serialized = parsed(&render(&JsonValue::Arr(items)));
    let expected = parsed(r#"["text", "html", "data"]"#);
    assert_eq!(serialized, expected);
}

#[test]
fn mod_serialize_strokes_formats() {
    let strokes_formats: Vec<StrokesFormats> = vec![
        StrokesFormats::Text,
        StrokesFormats::Html,
        StrokesFormats::Data,
    ];
    let items: Vec<JsonValue> = strokes_formats
        .iter()
        .map(|f| JsonValue::Str(f.as_str().to_string()))
        .collect();
    let serialized = parsed(&render(&JsonValue::Arr(items)));
    let expected = parsed(r#"["text", "html", "data"]"#);
    assert_eq!(serialized, expected);
}

#[test]
fn options_serialize_latexformats() {
    let latexformats = vec![
        LaTeXFormats::AsciiMath,
        LaTeXFormats::LaTeXList,
        LaTeXFormats::LaTeXNormal,
        LaTeXFormats::LaTeXSimplified,
        LaTeXFormats::LaTeXStyled,
        LaTeXFormats::MathML,
        LaTeXFormats::Text,
        LaTeXFormats::TextDisplay,
        LaTeXFormats::Wolfram,
    ];
    let items: Vec<JsonValue> = latexformats
        .iter()
        .map(|f| JsonValue::Str(f.as_str().to_string()))
        .collect();
    let serialized = parsed(&render(&JsonValue::Arr(items)));
    let expected = parsed(
        r#"[
            "asciimath",
            "latex_list",
            "latex_normal",
            "latex_simplified",
            "latex_styled",
            "mathml",
            "text",
            "text_display",
            "wolfram"
        ]"#,
    );
    assert_eq!(serialized, expected);
}

#[test]
fn latex_serialize_latexformats() {
    let latexformats = vec![
        LaTeXFormats::AsciiMath,
        LaTeXFormats::LaTeXList,
        LaTeXFormats::LaTeXNormal,
        LaTeXFormats::LaTeXSimplified,
        LaTeXFormats::LaTeXStyled,
        LaTeXFormats::MathML,
        LaTeXFormats::Text,
        LaTeXFormats::TextDisplay,
        LaTeXFormats::Wolfram,
    ];
    let items: Vec<JsonValue> = latexformats
        .iter()
        .map(|f| JsonValue::Str(f.as_str().to_string()))
        .collect();
    let serialized = parsed(&render(&JsonValue::Arr(items)));
    let expected = parsed(
        r#"[
            "asciimath",
            "latex_list",
            "latex_normal",
            "latex_simplified",
            "latex_styled",
            "mathml",
            "text",
            "text_display",
            "wolfram"
        ]"#,
    );
    assert_eq!(serialized, expected);
}

#[test]
fn options_serialize_ocr() {
    let ocr = vec![Ocr::Math, Ocr::Text];
    let items: Vec<JsonValue> = ocr
        .iter()
        .map(|o| JsonValue::Str(o.as_str().to_string()))
        .collect();
    let serialized = parsed(&render(&JsonValue::Arr(items)));
    let expected = parsed(r#"["math", "text"]"#);
    assert_eq!(serialized, expected);
}

#[test]
fn latex_serialize_ocr() {
    let ocr = vec![Ocr::Math, Ocr::Text];
    let items: Vec<JsonValue> = ocr
        .iter()
        .map(|o| JsonValue::Str(o.as_str().to_string()))
        .collect();
    let serialized = parsed(&render(&JsonValue::Arr(items)));
    let expected = parsed(r#"["math", "text"]"#);
    assert_eq!(serialized, expected);
}

#[test]
fn data_options_unknown_token_rejected() {
    let mut options = TextOptions::default();
    options
        .add_data_options_from_strings(vec![
            "include_asciimath".to_string(),
            "noinclude_latex".to_string(),
        ])
        .unwrap();
    let d = options.data_options.unwrap();
    assert_eq!(d.include_asciimath, Some(true));
    assert_eq!(d.include_latex, Some(false));

    let mut options = TextOptions::default();
    let before = options.clone();
    let r = options.add_data_options_from_strings(vec!["include_everything".to_string()]);
    match r {
        Err(TextOptionsError::BadOption(BadOptionError::DataOption(t))) => {
            assert_eq!(t, "include_everything".to_string())
        }
        _ => panic!("expected a bad-data-option rejection"),
    }
    assert_eq!(options, before);
}
