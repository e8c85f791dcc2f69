use mathpixapi::alphabets::AlphabetsAllowed;
use mathpixapi::endpoint::MathpixEndpoint;
use mathpixapi::fraction::BoundedFraction;
use mathpixapi::json::{render, JsonValue};
use mathpixapi::latex::{FormatOptions, LaTeX, LaTeXFormats, LaTeXOptions, Ocr, Region, Transforms};
use mathpixapi::pdf::{PDFSrc, PDF};
use mathpixapi::request::Body;
use mathpixapi::shared::DataOptions;
use mathpixapi::source::{Base64Image, ImageSrc};
use mathpixapi::strokes::{Strokes, StrokesOptions};
use mathpixapi::text::{Text, TextFormats, TextOptions};

const TEST_IMAGE_PAYLOAD: &str = "/9j/4AAQSkZJRgABAQAAAQABAAD/2wBDAAMCAgICAgMCAgIDAwMDBAYEBAQEBAgGBgUGCQgKCgkICQkKDA8MCgsOCwkJDRENDg8QEBEQCgwSExIQEw8QEBD/wAALCAACAAIBAREA/8QAFAABAAAAAAAAAAAAAAAAAAAACP/EABwQAAEFAQEBAAAAAAAAAAAAAAIBAwQFBgcIAP/aAAgBAQAAPwBfeevPXAt7wLmm63XD+f6PSaPH01tcXFtmYUydZTpEJp1+TIfdbJx55xwzM3DJSIiUlVVVV+//2Q==";

fn parsed(s: &str) -> serde_json::Value {
    serde_json::from_str(s).unwrap()
}

fn frac(millionths: u64) -> BoundedFraction {
    BoundedFraction::construct(millionths).unwrap()
}

#[test]
fn options_serialize_format_options() {
    let format_options = FormatOptions {
        transforms: Some(vec![Transforms::RmSpaces, Transforms::RmFonts]),
        displaymath_delims: Some(vec!["\\[".to_string(), "\\]".to_string()]),
        math_delims: None,
    };
    let serialized = parsed(&render(&format_options.to_json()));
    let expected = parsed(
        r#"{
            "transforms": ["rm_spaces", "rm_fonts"],
            "displaymath_delims": ["\\[", "\\]"],
            "math_delims": null
        }"#,
    );
    assert_eq!(serialized, expected);
}

#[test]
fn latex_serialize_format_options() {
    let mut format_options = FormatOptions::new();
    format_options.set_displaymath_delims("\\[".to_string(), "\\]".to_string());
    let format_options = FormatOptions {
        transforms: Some(vec![Transforms::RmSpaces, Transforms::RmFonts]),
        ..format_options
    };
    let serialized = parsed(&render(&format_options.to_json()));
    let expected = parsed(
        r#"{
            "transforms": ["rm_spaces", "rm_fonts"],
            "displaymath_delims": ["\\[", "\\]"],
            "math_delims": null
        }"#,
    );
    assert_eq!(serialized, expected);
}

#[test]
fn options_serialize_region() {
    let region = Region {
        top_left_x: Some(42),
        top_left_y: None,
        width: Some(40),
        height: Some(50),
    };
    let serialized = parsed(&render(&region.to_json()));
    let expected = parsed(
        r#"{
            "top_left_x": 42,
            "top_left_y": null,
            "width": 40,
            "height": 50
        }"#,
    );
    assert_eq!(serialized, expected);
}

#[test]
fn latex_serialize_region() {
    let region = Region {
        top_left_x: Some(42),
        top_left_y: None,
        width: Some(40),
        height: Some(50),
    };
    let serialized = parsed(&render(&region.to_json()));
    let expected = parsed(
        r#"{
            "top_left_x": 42,
            "top_left_y": null,
            "width": 40,
            "height": 50
        }"#,
    );
    assert_eq!(serialized, expected);
}

fn sample_latex_body() -> LaTeX {
    let url = "https://www.duckduckgo.com/".to_string();
    let src = ImageSrc::Url(url);
    let formats = vec![
        LaTeXFormats::AsciiMath,
        LaTeXFormats::LaTeXNormal,
        LaTeXFormats::LaTeXStyled,
        LaTeXFormats::Text,
        LaTeXFormats::Wolfram,
    ];
    let ocr = Some(vec![Ocr::Math, Ocr::Text]);
    let format_options = Some(FormatOptions {
        transforms: Some(vec![Transforms::RmNewlines, Transforms::RmStyleSyms]),
        displaymath_delims: None,
        math_delims: Some(vec!["\\(".to_string(), "\\)".to_string()]),
    });
    let region = Some(Region {
        top_left_x: None,
        top_left_y: Some(40),
        width: Some(42),
        height: Some(666),
    });

    let latex_body_opts = LaTeXOptions {
        ocr,
        format_options,
        skip_recrop: Some(false),
        confidence_threshold: Some(frac(1000000)),
        beam_size: Some(4),
        n_best: Some(3),
        region,
        callback: None,
        metadata: None,
        include_detected_alphabets: Some(true),
        auto_rotate_confidence_threshold: Some(frac(500000)),
    };

    LaTeX {
        src,
        formats,
        options: latex_body_opts,
    }
}

const EXPECTED_LATEX_BODY: &str = r#"{
    "src": "https://www.duckduckgo.com/",
    "formats": ["asciimath", "latex_normal", "latex_styled", "text", "wolfram"],
    "ocr": ["math", "text"],
    "format_options": {
        "transforms": ["rm_newlines", "rm_style_syms"],
        "displaymath_delims": null,
        "math_delims": ["\\(", "\\)"]
    },
    "skip_recrop": false,
    "confidence_threshold": 1.0,
    "beam_size": 4,
    "n_best": 3,
    "region": {
        "top_left_x": null,
        "top_left_y": 40,
        "width": 42,
        "height": 666
    },
    "callback": null,
    "metadata": null,
    "include_detected_alphabets": true,
    "auto_rotate_confidence_threshold": 0.5
}"#;

#[test]
fn serialize_latex() {
    let latex_body = sample_latex_body();
    let serialized = parsed(&render(&latex_body.to_request_body(&Vec::new())));
    let expected = parsed(EXPECTED_LATEX_BODY);
    assert_eq!(serialized, expected);
}

#[test]
fn serialize_post_latex() {
    let latex_body = sample_latex_body();
    let serialized = parsed(&render(&latex_body.to_request_body(&Vec::new())));
    let expected = parsed(EXPECTED_LATEX_BODY);
    assert_eq!(serialized, expected);
}

#[test]
fn serialize_latexbody() {
    let latex_body = sample_latex_body();
    let serialized = parsed(&render(&latex_body.to_request_body(&Vec::new())));
    let expected = parsed(EXPECTED_LATEX_BODY);
    assert_eq!(serialized, expected);
}

#[test]
fn serialize_pdf() {
    let pdf_body = PDF::new(PDFSrc::Url("https://www.duckduckgo.com/".to_string()));
    let serilized = parsed(&render(&pdf_body.to_request_body(&Vec::new())));
    let expected = parsed(r#"{ "url": "https://www.duckduckgo.com/" }"#);
    assert_eq!(serilized, expected);
}

#[test]
fn pdf_serialize_postpdf() {
    let pdf_body = PDF::new(PDFSrc::Url("https://www.duckduckgo.com/".to_string()));
    let serilized = parsed(&render(&pdf_body.to_request_body(&Vec::new())));
    let expected = parsed(r#"{ "url": "https://www.duckduckgo.com/" }"#);
    assert_eq!(serilized, expected);
}

#[test]
fn serialize_pdfbody() {
    let pdf_body = PDF::new(PDFSrc::Url("https://www.duckduckgo.com/".to_string()));
    let serilized = parsed(&render(&pdf_body.to_request_body(&Vec::new())));
    let expected = parsed(r#"{ "url": "https://www.duckduckgo.com/" }"#);
    assert_eq!(serilized, expected);
}

#[test]
fn mod_serialize_data_options() {
    let data_options = DataOptions {
        include_asciimath: Some(true),
        include_latex: Some(false),
        include_mathml: None,
        include_svg: None,
        include_table_html: None,
        include_tsv: None,
    };
    let serialized = parsed(&render(&data_options.to_json()));
    let acctual = parsed(
        r#"{
            "include_asciimath": true,
            "include_latex": false,
            "include_mathml": null,
            "include_svg": null,
            "include_table_html": null,
            "include_tsv": null
        }"#,
    );
    assert_eq!(serialized, acctual);
}

fn sample_text_body() -> Text {
    let image =
        Base64Image::from_path("./test/assets/test_encode_base64.jpg".to_string()).unwrap();
    let mut alphabets_allowed = AlphabetsAllowed::default();
    alphabets_allowed
        .allow(vec!["ru".to_string(), "en".to_string()])
        .unwrap();
    let data_options = DataOptions {
        include_asciimath: Some(true),
        include_latex: Some(false),
        include_mathml: None,
        include_svg: None,
        include_table_html: None,
        include_tsv: None,
    };
    let src = ImageSrc::Image(image);

    let text_opts = TextOptions {
        metadata: None,
        formats: Some(vec![TextFormats::Text, TextFormats::Data]),
        alphabets_allowed: Some(alphabets_allowed),
        auto_rotate_confidence_threshold: Some(frac(1000000)),
        confidence_threshold: Some(frac(1000000)),
        confidence_rate_threshold: Some(frac(1000000)),
        data_options: Some(data_options),
        include_detected_alphabets: Some(true),
        include_geometry_data: Some(false),
        include_inchi: Some(true),
        include_line_data: Some(false),
        include_smiles: Some(true),
        include_word_data: Some(false),
        rm_fonts: Some(true),
        rm_spaces: Some(false),
        numbers_default_to_math: None,
    };

    Text {
        src: Some(src),
        options: text_opts,
    }
}

fn expected_text_body() -> serde_json::Value {
    let expected_template = r#"{
        "src": "DATA_URI",
        "metadata": null,
        "formats": ["text", "data"],
        "alphabets_allowed": {
            "en": true,
            "ru": true,
            "hi": null,
            "zh": null,
            "ja": null,
            "ko": null,
            "th": null
        },
        "auto_rotate_confidence_threshold": 1.0,
        "confidence_threshold": 1.0,
        "confidence_rate_threshold": 1.0,
        "data_options": {
            "include_asciimath": true,
            "include_latex": false,
            "include_mathml": null,
            "include_svg": null,
            "include_table_html": null,
            "include_tsv": null
        },
        "include_detected_alphabets": true,
        "include_geometry_data": false,
        "include_inchi": true,
        "include_line_data": false,
        "include_smiles": true,
        "include_word_data": false,
        "rm_fonts": true,
        "rm_spaces": false,
        "numbers_default_to_math": null
    }"#;
    let data_uri = format!("data:image/jpeg;base64,{}", TEST_IMAGE_PAYLOAD);
    parsed(&expected_template.replace("DATA_URI", &data_uri))
}

#[test]
fn serialize_text() {
    let text = sample_text_body();
    let bytes = base64::decode(TEST_IMAGE_PAYLOAD).unwrap();
    let serialized = parsed(&render(&text.to_request_body(&bytes)));
    assert_eq!(serialized, expected_text_body());
}

#[test]
fn text_serialize_textbody() {
    let text = sample_text_body();
    let bytes = base64::decode(TEST_IMAGE_PAYLOAD).unwrap();
    let serialized = parsed(&render(&text.to_request_body(&bytes)));
    assert_eq!(serialized, expected_text_body());
}

#[test]
fn options_serialize_textbody() {
    let text = sample_text_body();
    let bytes = base64::decode(TEST_IMAGE_PAYLOAD).unwrap();
    let serialized = parsed(&render(&text.to_request_body(&bytes)));
    assert_eq!(serialized, expected_text_body());
}

#[test]
fn serialize_body() {
    let text = sample_text_body();
    let body = Body::Text(text);
    let bytes = base64::decode(TEST_IMAGE_PAYLOAD).unwrap();
    let serialized = parsed(&render(&body.to_request_body(&bytes)));
    assert_eq!(serialized, expected_text_body());
}

#[test]
fn serialize_strokes_body() {
    let strokes_doc = JsonValue::Arr(vec![
        JsonValue::UInt(10),
        JsonValue::UInt(20),
        JsonValue::UInt(30),
    ]);
    let strokes = Strokes::new(Some(StrokesOptions::default()), strokes_doc);
    let serialized = parsed(&render(&strokes.to_request_body(&Vec::new())));
    let expected = parsed(
        r#"{
            "src": [10, 20, 30],
            "metadata": null,
            "formats": null,
            "data_options": null
        }"#,
    );
    assert_eq!(serialized, expected);
}

#[test]
fn render_escapes_quotes_and_backslashes() {
    let j = JsonValue::Str("a\"b\\c".to_string());
    assert_eq!(render(&j), "\"a\\\"b\\\\c\"".to_string());
}
