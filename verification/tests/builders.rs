use mathpixapi::alphabets::AlphabetsAllowed;
use mathpixapi::fraction::BoundedFraction;
use mathpixapi::latex::{FormatOptions, LaTeXOptions, Ocr, Region, Transforms};
use mathpixapi::shared::{CallBack, DataOptions, MetaData};
use mathpixapi::text::{TextFormats, TextOptions};

fn frac(millionths: u64) -> BoundedFraction {
    BoundedFraction::construct(millionths).unwrap()
}

#[test]
fn builder_data_options() {
    let data_options = DataOptions::default()
        .include_asciimath(true)
        .include_latex(true)
        .include_mathml(true)
        .include_svg(false)
        .include_table_html(false)
        .include_tsv(false);
    let expected = DataOptions {
        include_asciimath: Some(true),
        include_latex: Some(true),
        include_mathml: Some(true),
        include_svg: Some(false),
        include_table_html: Some(false),
        include_tsv: Some(false),
    };
    assert_eq!(data_options, expected);
}

#[test]
fn builder_latex_body_options() {
    let format_options = FormatOptions {
        transforms: Some(vec![Transforms::RmFonts, Transforms::RmNewlines]),
        math_delims: Some(vec!["\\(".to_string(), "\\)".to_string()]),
        displaymath_delims: None,
    };

    let callback = CallBack {
        post: Some("https://duckduckgo.com/".to_string()),
        headers: None,
        reply: Some("Here is your reply".to_string()),
    };

    let region = Region {
        top_left_x: Some(0),
        top_left_y: Some(0),
        width: Some(42),
        height: Some(42),
    };

    let latex_options = LaTeXOptions::default()
        .ocr(vec![Ocr::Math, Ocr::Text])
        .format_options(format_options.clone())
        .skip_recrop(true)
        .confidence_threshold(frac(420000))
        .beam_size(6)
        .n_best(4)
        .callback(callback.clone())
        .metadata(MetaData {})
        .include_detected_alphabets(true)
        .auto_rotate_confidence_threshold(frac(420000))
        .region(region.clone());
    let expected = LaTeXOptions {
        ocr: Some(vec![Ocr::Math, Ocr::Text]),
        format_options: Some(format_options),
        skip_recrop: Some(true),
        confidence_threshold: Some(frac(420000)),
        beam_size: Some(6),
        callback: Some(callback),
        auto_rotate_confidence_threshold: Some(frac(420000)),
        include_detected_alphabets: Some(true),
        metadata: Some(MetaData {}),
        n_best: Some(4),
        region: Some(region),
    };
    assert_eq!(latex_options, expected);
}

#[test]
fn builder_formats_text_options() {
    let mut text_body_options = TextOptions::default();
    text_body_options.add_format(TextFormats::Data);
    text_body_options.add_formats(vec![TextFormats::LaTeXStyled, TextFormats::Html]);
    let mut expected = TextOptions::default();
    expected.formats = Some(vec![
        TextFormats::Data,
        TextFormats::LaTeXStyled,
        TextFormats::Html,
    ]);
    assert_eq!(text_body_options, expected);
}

#[test]
fn builder_text_body_options() {
    let mut alphabets_allowed = AlphabetsAllowed::default();
    alphabets_allowed
        .disallow(vec!["en".to_string(), "ru".to_string()])
        .unwrap();
    alphabets_allowed
        .allow(vec!["en".to_string(), "hi".to_string()])
        .unwrap();

    let data_options = DataOptions::default()
        .include_asciimath(true)
        .include_latex(true)
        .include_mathml(true)
        .include_svg(false)
        .include_table_html(false)
        .include_tsv(false);

    let formats = vec![TextFormats::Text, TextFormats::LaTeXStyled];

    let mut text_body_options = TextOptions::default();
    text_body_options.alphabets_allowed = Some(alphabets_allowed);
    text_body_options.confidence_rate_threshold(420000).unwrap();
    text_body_options.confidence_threshold(660000).unwrap();
    text_body_options.auto_rotate_confidence_threshold(130000).unwrap();
    text_body_options.set_data_options(data_options);
    text_body_options.add_formats(formats.clone());
    text_body_options.include_detected_alphabets(true);
    text_body_options.numbers_default_to_math(false);
    text_body_options.rm_fonts(true);
    text_body_options.rm_spaces(false);
    text_body_options.include_line_data(false);
    text_body_options.include_geometry_data(false);
    text_body_options.include_inchi(false);
    text_body_options.include_smiles(false);
    text_body_options.include_word_data(false);

    let expected = TextOptions {
        metadata: None,
        formats: Some(formats),
        data_options: Some(data_options),
        alphabets_allowed: Some(alphabets_allowed),
        include_detected_alphabets: Some(true),
        confidence_rate_threshold: Some(frac(420000)),
        confidence_threshold: Some(frac(660000)),
        include_line_data: Some(false),
        include_geometry_data: Some(false),
        include_inchi: Some(false),
        include_smiles: Some(false),
        include_word_data: Some(false),
        auto_rotate_confidence_threshold: Some(frac(130000)),
        numbers_default_to_math: Some(false),
        rm_fonts: Some(true),
        rm_spaces: Some(false),
    };
    assert_eq!(text_body_options, expected)
}

#[test]
fn builder_formats_text_body_options() {
    let mut text_body_options = TextOptions::default();
    text_body_options.add_format(TextFormats::Data);
    text_body_options.add_formats(vec![TextFormats::LaTeXStyled, TextFormats::Html]);
    let mut expected = TextOptions::default();
    expected.formats = Some(vec![
        TextFormats::Data,
        TextFormats::LaTeXStyled,
        TextFormats::Html,
    ]);
    assert_eq!(text_body_options, expected);
}

#[test]
fn builder_data_options_text_body_options() {
    let mut text_body_options = TextOptions::default();
    text_body_options
        .add_data_options_from_strings(vec![
            "include_asciimath".to_string(),
            "include_latex".to_string(),
            "include_mathml".to_string(),
            "include_svg".to_string(),
            "include_table_html".to_string(),
            "include_tsv".to_string(),
        ])
        .unwrap();
    let mut expected = TextOptions::default();
    expected.data_options = Some(DataOptions {
        include_asciimath: Some(true),
        include_latex: Some(true),
        include_mathml: Some(true),
        include_svg: Some(true),
        include_table_html: Some(true),
        include_tsv: Some(true),
    });
    assert_eq!(text_body_options, expected);
}
