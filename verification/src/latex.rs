//! The configuration record of the latex endpoint: the older,
//! equation-centred operation, with its own format vocabulary, optional
//! image region, and format transforms.

use crate::endpoint::MathpixEndpoint;
use crate::fraction::BoundedFraction;
use crate::json::{
    lemma_arr_view_pointwise, lemma_obj_view_pointwise, obj_view, opt_bool_json, opt_bool_model,
    opt_u8_json, opt_u8_model, opt_u32_json, opt_u32_model, JVal, JsonValue,
};
use crate::shared::{CallBack, MetaData};
use crate::source::ImageSrc;
use crate::text::{opt_fraction_json, opt_fraction_model, opt_metadata_json, opt_metadata_model};
use vstd::prelude::*;
use vstd::string::StringExecFns;

verus! {

/// An output format of the latex endpoint.
#[derive(Debug, Clone, Copy, PartialEq, Eq, Structural)]
pub enum LaTeXFormats {
    /// Text mode output, with math inside delimiters, inline by default
    Text,
    /// Same as text, except block mode math when in doubt
    TextDisplay,
    /// Direct LaTeX representation of the input
    LaTeXNormal,
    /// Modified output to improve the visual appearance
    LaTeXStyled,
    /// Modified output for symbolic processing
    LaTeXSimplified,
    /// Output split into a list of simplified strings
    LaTeXList,
    /// The MathML for the recognized math
    MathML,
    /// The AsciiMath for the recognized math
    AsciiMath,
    /// A string compatible with the Wolfram Alpha engine
    Wolfram,
}

impl LaTeXFormats {
    /// The wire name of the format.
    pub open spec fn spec_str(self) -> Seq<char> {
        match self {
            LaTeXFormats::Text => "text"@,
            LaTeXFormats::TextDisplay => "text_display"@,
            LaTeXFormats::LaTeXNormal => "latex_normal"@,
            LaTeXFormats::LaTeXStyled => "latex_styled"@,
            LaTeXFormats::LaTeXSimplified => "latex_simplified"@,
            LaTeXFormats::LaTeXList => "latex_list"@,
            LaTeXFormats::MathML => "mathml"@,
            LaTeXFormats::AsciiMath => "asciimath"@,
            LaTeXFormats::Wolfram => "wolfram"@,
        }
    }

    /// Renders the wire name of the format.
    pub fn as_str(&self) -> (r: &'static str)
        ensures
            r@ == self.spec_str(),
    {
        match self {
            LaTeXFormats::Text => "text",
            LaTeXFormats::TextDisplay => "text_display",
            LaTeXFormats::LaTeXNormal => "latex_normal",
            LaTeXFormats::LaTeXStyled => "latex_styled",
            LaTeXFormats::LaTeXSimplified => "latex_simplified",
            LaTeXFormats::LaTeXList => "latex_list",
            LaTeXFormats::MathML => "mathml",
            LaTeXFormats::AsciiMath => "asciimath",
            LaTeXFormats::Wolfram => "wolfram",
        }
    }
}

/// Whether math, text, or both are processed.
#[derive(Debug, Clone, Copy, PartialEq, Eq, Structural)]
pub enum Ocr {
    /// Process math from the input
    Math,
    /// Process text from the image
    Text,
}

impl Ocr {
    /// The wire name of the processing mode.
    pub open spec fn spec_str(self) -> Seq<char> {
        match self {
            Ocr::Math => "math"@,
            Ocr::Text => "text"@,
        }
    }

    /// Renders the wire name of the processing mode.
    pub fn as_str(&self) -> (r: &'static str)
        ensures
            r@ == self.spec_str(),
    {
        match self {
            Ocr::Math => "math",
            Ocr::Text => "text",
        }
    }
}

/// A transformation applied to the recognized output.
#[derive(Debug, Clone, Copy, PartialEq, Eq, Structural)]
pub enum Transforms {
    /// Omit superfluous spaces
    RmSpaces,
    /// Use spaces instead of newlines between text lines in paragraphs
    RmNewlines,
    /// Omit font commands
    RmFonts,
    /// Replace styled commands with unstyled versions
    RmStyleSyms,
    /// Omit text to the left or right of math
    RmText,
    /// Convert long division to a fraction
    LongFrac,
}

impl Transforms {
    /// The wire name of the transformation.
    pub open spec fn spec_str(self) -> Seq<char> {
        match self {
            Transforms::RmSpaces => "rm_spaces"@,
            Transforms::RmNewlines => "rm_newlines"@,
            Transforms::RmFonts => "rm_fonts"@,
            Transforms::RmStyleSyms => "rm_style_syms"@,
            Transforms::RmText => "rm_text"@,
            Transforms::LongFrac => "long_frac"@,
        }
    }

    /// Renders the wire name of the transformation.
    pub fn as_str(&self) -> (r: &'static str)
        ensures
            r@ == self.spec_str(),
    {
        match self {
            Transforms::RmSpaces => "rm_spaces",
            Transforms::RmNewlines => "rm_newlines",
            Transforms::RmFonts => "rm_fonts",
            Transforms::RmStyleSyms => "rm_style_syms",
            Transforms::RmText => "rm_text",
            Transforms::LongFrac => "long_frac",
        }
    }
}

/// The models of a transform list's elements.
pub open spec fn transforms_arr_model(s: Seq<Transforms>) -> Seq<JVal> {
    Seq::new(s.len(), |i: int| JVal::Str(s[i].spec_str()))
}

/// The serialized form of the optional transform list.
pub open spec fn opt_transforms_model(t: Option<Vec<Transforms>>) -> JVal {
    match t {
        None => JVal::Null,
        Some(v) => JVal::Arr(transforms_arr_model(v@)),
    }
}

/// Serializes the optional transform list.
pub fn opt_transforms_json(t: &Option<Vec<Transforms>>) -> (r: JsonValue)
    ensures
        r@ == opt_transforms_model(*t),
{
    match t {
        None => JsonValue::Null,
        Some(v) => {
            let mut items: Vec<JsonValue> = Vec::new();
            let mut i: usize = 0;
            while i < v.len()
                invariant
                    i <= v.len(),
                    items@.len() == i,
                    forall|k: int| 0 <= k < i ==> items@[k]@ == JVal::Str(v@[k].spec_str()),
                decreases v.len() - i,
            {
                items.push(JsonValue::Str(v[i].as_str().to_owned()));
                i += 1;
            }
            let r = JsonValue::Arr(items);
            proof {
                lemma_arr_view_pointwise(r->Arr_0@);
                assert(r@->Arr_0 =~~= transforms_arr_model(v@));
            }
            r
        },
    }
}

/// The models of a string list's elements.
pub open spec fn strings_arr_model(s: Seq<Seq<char>>) -> Seq<JVal> {
    Seq::new(s.len(), |i: int| JVal::Str(s[i]))
}

/// The serialized form of an optional string list.
pub open spec fn opt_strings_model(t: Option<Seq<Seq<char>>>) -> JVal {
    match t {
        None => JVal::Null,
        Some(v) => JVal::Arr(strings_arr_model(v)),
    }
}

/// Serializes an optional string list.
pub fn opt_strings_json(t: &Option<Vec<String>>) -> (r: JsonValue)
    ensures
        r@ == opt_strings_model(t.deep_view()),
{
    match t {
        None => JsonValue::Null,
        Some(v) => {
            let mut items: Vec<JsonValue> = Vec::new();
            let mut i: usize = 0;
            while i < v.len()
                invariant
                    i <= v.len(),
                    items@.len() == i,
                    forall|k: int| 0 <= k < i ==> items@[k]@ == JVal::Str(v@[k]@),
                decreases v.len() - i,
            {
                items.push(JsonValue::Str(v[i].clone()));
                i += 1;
            }
            let r = JsonValue::Arr(items);
            proof {
                lemma_arr_view_pointwise(r->Arr_0@);
                assert(r@->Arr_0 =~~= strings_arr_model(v.deep_view()));
            }
            r
        },
    }
}

/// Options for specific output formats: transformations and the delimiter
/// pairs for inline and block math.
#[derive(Debug, Clone, PartialEq)]
pub struct FormatOptions {
    /// Array of transformation names
    pub transforms: Option<Vec<Transforms>>,
    /// [begin, end] delimiters for math mode
    pub math_delims: Option<Vec<String>>,
    /// [begin, end] delimiters for displaymath mode
    pub displaymath_delims: Option<Vec<String>>,
}

impl FormatOptions {
    /// Each delimiter pair, when present, holds exactly a begin and an end
    /// string.
    pub open spec fn delims_wf(self) -> bool {
        &&& match self.math_delims {
            Some(v) => v@.len() == 2,
            None => true,
        }
        &&& match self.displaymath_delims {
            Some(v) => v@.len() == 2,
            None => true,
        }
    }

    /// A fresh record with every field unset.
    pub fn new() -> (r: FormatOptions)
        ensures
            r == (FormatOptions { transforms: None, math_delims: None, displaymath_delims: None }),
            r.delims_wf(),
    {
        FormatOptions { transforms: None, math_delims: None, displaymath_delims: None }
    }

    /// Sets the math-mode delimiter pair; taking the begin and end strings
    /// separately keeps the pair at exactly two entries.
    pub fn set_math_delims(&mut self, begin: String, end: String)
        ensures
            final(self).math_delims is Some,
            final(self).math_delims->0@.len() == 2,
            final(self).math_delims->0@[0] == begin,
            final(self).math_delims->0@[1] == end,
            final(self).transforms == old(self).transforms,
            final(self).displaymath_delims == old(self).displaymath_delims,
            old(self).delims_wf() ==> final(self).delims_wf(),
    {
        let mut v: Vec<String> = Vec::new();
        v.push(begin);
        v.push(end);
        self.math_delims = Some(v);
    }

    /// Sets the displaymath-mode delimiter pair under the same rule as the
    /// math-mode pair.
    pub fn set_displaymath_delims(&mut self, begin: String, end: String)
        ensures
            final(self).displaymath_delims is Some,
            final(self).displaymath_delims->0@.len() == 2,
            final(self).displaymath_delims->0@[0] == begin,
            final(self).displaymath_delims->0@[1] == end,
            final(self).transforms == old(self).transforms,
            final(self).math_delims == old(self).math_delims,
            old(self).delims_wf() ==> final(self).delims_wf(),
    {
        let mut v: Vec<String> = Vec::new();
        v.push(begin);
        v.push(end);
        self.displaymath_delims = Some(v);
    }

    /// The serialized form: the three fields in a fixed key order.
    pub open spec fn json_model(self) -> JVal {
        JVal::Obj(
            seq![
                ("transforms"@, opt_transforms_model(self.transforms)),
                ("math_delims"@, opt_strings_model(self.math_delims.deep_view())),
                ("displaymath_delims"@, opt_strings_model(self.displaymath_delims.deep_view())),
            ],
        )
    }

    /// Serializes the record as a JSON object.
    pub fn to_json(&self) -> (r: JsonValue)
        ensures
            r@ == self.json_model(),
    {
        let mut fields: Vec<(String, JsonValue)> = Vec::new();
        fields.push(("transforms".to_owned(), opt_transforms_json(&self.transforms)));
        fields.push(("math_delims".to_owned(), opt_strings_json(&self.math_delims)));
        fields.push(("displaymath_delims".to_owned(), opt_strings_json(&self.displaymath_delims)));
        let r = JsonValue::Obj(fields);
        proof {
            lemma_obj_view_pointwise(r->Obj_0@);
            assert(r@->Obj_0 =~~= self.json_model()->Obj_0);
        }
        r
    }
}

/// The image area to consider, in pixel coordinates. Any subset of the
/// four fields may be present; there is no cross-field rule.
#[derive(Debug, Clone, Copy, PartialEq, Eq, Structural)]
pub struct Region {
    pub top_left_x: Option<u32>,
    pub top_left_y: Option<u32>,
    pub width: Option<u32>,
    pub height: Option<u32>,
}

impl Region {
    /// The serialized form: the four coordinates in a fixed key order.
    pub open spec fn json_model(self) -> JVal {
        JVal::Obj(
            seq![
                ("top_left_x"@, opt_u32_model(self.top_left_x)),
                ("top_left_y"@, opt_u32_model(self.top_left_y)),
                ("width"@, opt_u32_model(self.width)),
                ("height"@, opt_u32_model(self.height)),
            ],
        )
    }

    /// Serializes the region as a JSON object.
    pub fn to_json(&self) -> (r: JsonValue)
        ensures
            r@ == self.json_model(),
    {
        let mut fields: Vec<(String, JsonValue)> = Vec::new();
        fields.push(("top_left_x".to_owned(), opt_u32_json(&self.top_left_x)));
        fields.push(("top_left_y".to_owned(), opt_u32_json(&self.top_left_y)));
        fields.push(("width".to_owned(), opt_u32_json(&self.width)));
        fields.push(("height".to_owned(), opt_u32_json(&self.height)));
        let r = JsonValue::Obj(fields);
        proof {
            lemma_obj_view_pointwise(r->Obj_0@);
            assert(r@->Obj_0 =~~= self.json_model()->Obj_0);
        }
        r
    }
}

/// The validated configuration record of the latex endpoint. Every field
/// starts unset; each builder returns a fresh record with one field
/// stored, so calls chain and a value never holds a half-applied update.
#[derive(Debug, Clone, PartialEq)]
pub struct LaTeXOptions {
    /// Process only math, or both math and text
    pub ocr: Option<Vec<Ocr>>,
    /// Options for specific output formats
    pub format_options: Option<FormatOptions>,
    /// Force the algorithm to consider the whole image
    pub skip_recrop: Option<bool>,
    /// Threshold for triggering confidence errors
    pub confidence_threshold: Option<BoundedFraction>,
    /// Number of results to consider during recognition (1 through 5)
    pub beam_size: Option<u8>,
    /// Number of highest-confidence results to return
    pub n_best: Option<u8>,
    /// The image area to consider
    pub region: Option<Region>,
    /// Callback request object
    pub callback: Option<CallBack>,
    /// Key value object
    pub metadata: Option<MetaData>,
    /// Return detected alphabets
    pub include_detected_alphabets: Option<bool>,
    /// Threshold for auto rotating the image to the correct orientation
    pub auto_rotate_confidence_threshold: Option<BoundedFraction>,
}

impl LaTeXOptions {
    /// Every field unset: what the service's own defaults leave in force.
    pub open spec fn spec_default() -> LaTeXOptions {
        LaTeXOptions {
            ocr: None,
            format_options: None,
            skip_recrop: None,
            confidence_threshold: None,
            beam_size: None,
            n_best: None,
            region: None,
            callback: None,
            metadata: None,
            include_detected_alphabets: None,
            auto_rotate_confidence_threshold: None,
        }
    }

    /// A fresh record with every field unset.
    pub fn new() -> (r: LaTeXOptions)
        ensures
            r == Self::spec_default(),
    {
        LaTeXOptions {
            ocr: None,
            format_options: None,
            skip_recrop: None,
            confidence_threshold: None,
            beam_size: None,
            n_best: None,
            region: None,
            callback: None,
            metadata: None,
            include_detected_alphabets: None,
            auto_rotate_confidence_threshold: None,
        }
    }

    /// Stores the processing modes.
    pub fn ocr(self, val: Vec<Ocr>) -> (r: Self)
        ensures
            r == (LaTeXOptions { ocr: Some(val), ..self }),
    {
        LaTeXOptions { ocr: Some(val), ..self }
    }

    /// Stores the format options.
    pub fn format_options(self, val: FormatOptions) -> (r: Self)
        ensures
            r == (LaTeXOptions { format_options: Some(val), ..self }),
    {
        LaTeXOptions { format_options: Some(val), ..self }
    }

    /// Sets whether the whole image is considered.
    pub fn skip_recrop(self, val: bool) -> (r: Self)
        ensures
            r == (LaTeXOptions { skip_recrop: Some(val), ..self }),
    {
        LaTeXOptions { skip_recrop: Some(val), ..self }
    }

    /// Stores the confidence threshold, already validated to [0, 1].
    pub fn confidence_threshold(self, val: BoundedFraction) -> (r: Self)
        ensures
            r == (LaTeXOptions { confidence_threshold: Some(val), ..self }),
    {
        LaTeXOptions { confidence_threshold: Some(val), ..self }
    }

    /// Stores the beam size.
    pub fn beam_size(self, val: u8) -> (r: Self)
        ensures
            r == (LaTeXOptions { beam_size: Some(val), ..self }),
    {
        LaTeXOptions { beam_size: Some(val), ..self }
    }

    /// Stores how many highest-confidence results to return.
    pub fn n_best(self, val: u8) -> (r: Self)
        ensures
            r == (LaTeXOptions { n_best: Some(val), ..self }),
    {
        LaTeXOptions { n_best: Some(val), ..self }
    }

    /// Stores the image region.
    pub fn region(self, val: Region) -> (r: Self)
        ensures
            r == (LaTeXOptions { region: Some(val), ..self }),
    {
        LaTeXOptions { region: Some(val), ..self }
    }

    /// Stores the callback descriptor.
    pub fn callback(self, val: CallBack) -> (r: Self)
        ensures
            r == (LaTeXOptions { callback: Some(val), ..self }),
    {
        LaTeXOptions { callback: Some(val), ..self }
    }

    /// Stores the metadata record.
    pub fn metadata(self, val: MetaData) -> (r: Self)
        ensures
            r == (LaTeXOptions { metadata: Some(val), ..self }),
    {
        LaTeXOptions { metadata: Some(val), ..self }
    }

    /// Sets whether detected alphabets are returned.
    pub fn include_detected_alphabets(self, val: bool) -> (r: Self)
        ensures
            r == (LaTeXOptions { include_detected_alphabets: Some(val), ..self }),
    {
        LaTeXOptions { include_detected_alphabets: Some(val), ..self }
    }

    /// Stores the auto-rotation confidence threshold, already validated to
    /// [0, 1].
    pub fn auto_rotate_confidence_threshold(self, val: BoundedFraction) -> (r: Self)
        ensures
            r == (LaTeXOptions { auto_rotate_confidence_threshold: Some(val), ..self }),
    {
        LaTeXOptions { auto_rotate_confidence_threshold: Some(val), ..self }
    }

    /// The serialized fields of the record, in a fixed key order.
    pub open spec fn fields_model(self) -> Seq<(Seq<char>, JVal)> {
        seq![
            ("ocr"@, opt_ocr_model(self.ocr)),
            ("format_options"@, opt_format_options_model(self.format_options)),
            ("skip_recrop"@, opt_bool_model(self.skip_recrop)),
            ("confidence_threshold"@, opt_fraction_model(self.confidence_threshold)),
            ("beam_size"@, opt_u8_model(self.beam_size)),
            ("n_best"@, opt_u8_model(self.n_best)),
            ("region"@, opt_region_model(self.region)),
            ("callback"@, opt_callback_model(self.callback)),
            ("metadata"@, opt_metadata_model(self.metadata)),
            ("include_detected_alphabets"@, opt_bool_model(self.include_detected_alphabets)),
            (
                "auto_rotate_confidence_threshold"@,
                opt_fraction_model(self.auto_rotate_confidence_threshold),
            ),
        ]
    }

    /// Serializes the fields of the record, for embedding in a request
    /// body.
    pub fn json_fields(&self) -> (r: Vec<(String, JsonValue)>)
        ensures
            obj_view(r@) == self.fields_model(),
    {
        let mut fields: Vec<(String, JsonValue)> = Vec::new();
        fields.push(("ocr".to_owned(), opt_ocr_json(&self.ocr)));
        fields.push(("format_options".to_owned(), opt_format_options_json(&self.format_options)));
        fields.push(("skip_recrop".to_owned(), opt_bool_json(&self.skip_recrop)));
        fields.push((
            "confidence_threshold".to_owned(),
            opt_fraction_json(&self.confidence_threshold),
        ));
        fields.push(("beam_size".to_owned(), opt_u8_json(&self.beam_size)));
        fields.push(("n_best".to_owned(), opt_u8_json(&self.n_best)));
        fields.push(("region".to_owned(), opt_region_json(&self.region)));
        fields.push(("callback".to_owned(), opt_callback_json(&self.callback)));
        fields.push(("metadata".to_owned(), opt_metadata_json(&self.metadata)));
        fields.push((
            "include_detected_alphabets".to_owned(),
            opt_bool_json(&self.include_detected_alphabets),
        ));
        fields.push((
            "auto_rotate_confidence_threshold".to_owned(),
            opt_fraction_json(&self.auto_rotate_confidence_threshold),
        ));
        proof {
            lemma_obj_view_pointwise(fields@);
            assert(obj_view(fields@) =~~= self.fields_model());
        }
        fields
    }
}

impl Default for LaTeXOptions {
    /// A fresh record with every field unset.
    fn default() -> (r: Self)
        ensures
            r == Self::spec_default(),
    {
        Self::new()
    }
}

/// The serialized form of the optional processing modes.
pub open spec fn opt_ocr_model(t: Option<Vec<Ocr>>) -> JVal {
    match t {
        None => JVal::Null,
        Some(v) => JVal::Arr(Seq::new(v@.len(), |i: int| JVal::Str(v@[i].spec_str()))),
    }
}

/// Serializes the optional processing modes.
pub fn opt_ocr_json(t: &Option<Vec<Ocr>>) -> (r: JsonValue)
    ensures
        r@ == opt_ocr_model(*t),
{
    match t {
        None => JsonValue::Null,
        Some(v) => {
            let mut items: Vec<JsonValue> = Vec::new();
            let mut i: usize = 0;
            while i < v.len()
                invariant
                    i <= v.len(),
                    items@.len() == i,
                    forall|k: int| 0 <= k < i ==> items@[k]@ == JVal::Str(v@[k].spec_str()),
                decreases v.len() - i,
            {
                items.push(JsonValue::Str(v[i].as_str().to_owned()));
                i += 1;
            }
            let r = JsonValue::Arr(items);
            proof {
                lemma_arr_view_pointwise(r->Arr_0@);
                assert(r@->Arr_0 =~~= opt_ocr_model(*t)->Arr_0);
            }
            r
        },
    }
}

/// The serialized form of the optional format options.
pub open spec fn opt_format_options_model(t: Option<FormatOptions>) -> JVal {
    match t {
        None => JVal::Null,
        Some(f) => f.json_model(),
    }
}

/// Serializes the optional format options.
pub fn opt_format_options_json(t: &Option<FormatOptions>) -> (r: JsonValue)
    ensures
        r@ == opt_format_options_model(*t),
{
    match t {
        None => JsonValue::Null,
        Some(f) => f.to_json(),
    }
}

/// The serialized form of the optional region.
pub open spec fn opt_region_model(t: Option<Region>) -> JVal {
    match t {
        None => JVal::Null,
        Some(x) => x.json_model(),
    }
}

/// Serializes the optional region.
pub fn opt_region_json(t: &Option<Region>) -> (r: JsonValue)
    ensures
        r@ == opt_region_model(*t),
{
    match t {
        None => JsonValue::Null,
        Some(x) => x.to_json(),
    }
}

/// The serialized form of the optional callback descriptor.
pub open spec fn opt_callback_model(t: Option<CallBack>) -> JVal {
    match t {
        None => JVal::Null,
        Some(x) => x.json_model(),
    }
}

/// Serializes the optional callback descriptor.
pub fn opt_callback_json(t: &Option<CallBack>) -> (r: JsonValue)
    ensures
        r@ == opt_callback_model(*t),
{
    match t {
        None => JsonValue::Null,
        Some(x) => x.to_json(),
    }
}

/// A request to the latex endpoint: the image source, the requested output
/// formats, and the validated configuration record.
#[derive(Debug, Clone, PartialEq)]
pub struct LaTeX {
    /// Image data, or public URL where the image is located
    pub src: ImageSrc,
    /// String postprocessing formats
    pub formats: Vec<LaTeXFormats>,
    /// Configuration options for the latex endpoint
    pub options: LaTeXOptions,
}

impl LaTeX {
    /// Builds a latex request from a source, formats, and optional
    /// configuration; an absent configuration means the service's own
    /// defaults.
    pub fn new(options: Option<LaTeXOptions>, src: ImageSrc, formats: Vec<LaTeXFormats>) -> (r:
        LaTeX)
        ensures
            r.src == src,
            r.formats == formats,
            r.options == match options {
                Some(o) => o,
                None => LaTeXOptions::spec_default(),
            },
    {
        let opts = match options {
            Some(o) => o,
            None => LaTeXOptions::new(),
        };
        LaTeX { src, formats, options: opts }
    }
}

/// The models of a latex format list's elements.
pub open spec fn latex_formats_arr_model(s: Seq<LaTeXFormats>) -> Seq<JVal> {
    Seq::new(s.len(), |i: int| JVal::Str(s[i].spec_str()))
}

impl MathpixEndpoint for LaTeX {
    /// The latex endpoint's path suffix.
    open spec fn spec_url_path(&self) -> Seq<char> {
        "latex"@
    }

    /// The body: the serialized source under `src`, the format list under
    /// `formats`, and the configuration record's fields flattened into the
    /// same object.
    open spec fn spec_body(&self, src_bytes: Seq<u8>) -> JVal {
        JVal::Obj(
            seq![
                ("src"@, self.src.json_model(src_bytes)),
                ("formats"@, JVal::Arr(latex_formats_arr_model(self.formats@))),
            ] + self.options.fields_model(),
        )
    }

    fn url_path(&self) -> (r: String) {
        "latex".to_owned()
    }

    fn to_request_body(&self, src_bytes: &Vec<u8>) -> (r: JsonValue) {
        let mut fields: Vec<(String, JsonValue)> = Vec::new();
        fields.push(("src".to_owned(), self.src.to_json(src_bytes)));
        let mut items: Vec<JsonValue> = Vec::new();
        let mut i: usize = 0;
        while i < self.formats.len()
            invariant
                i <= self.formats.len(),
                items@.len() == i,
                forall|k: int| 0 <= k < i ==> items@[k]@ == JVal::Str(self.formats@[k].spec_str()),
            decreases self.formats.len() - i,
        {
            items.push(JsonValue::Str(self.formats[i].as_str().to_owned()));
            i += 1;
        }
        let farr = JsonValue::Arr(items);
        proof {
            lemma_arr_view_pointwise(farr->Arr_0@);
            assert(farr@->Arr_0 =~~= latex_formats_arr_model(self.formats@));
        }
        fields.push(("formats".to_owned(), farr));
        let mut rest = self.options.json_fields();
        proof {
            lemma_obj_view_pointwise(rest@);
        }
        fields.append(&mut rest);
        let r = JsonValue::Obj(fields);
        proof {
            lemma_obj_view_pointwise(r->Obj_0@);
            assert(r@->Obj_0 =~~= self.spec_body(src_bytes@)->Obj_0);
        }
        r
    }
}

} // verus!
