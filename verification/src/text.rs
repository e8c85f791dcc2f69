//! The configuration record of the text endpoint and its validating
//! setters.
//!
//! Every field starts unset and serializes as null until a setter stores a
//! validated value. Setters that can reject input are all-or-nothing: a
//! rejected call returns its error and leaves the record exactly as it was.

use crate::alphabets::{
    all_alpha_known, alpha_token_of, apply_alpha_tokens, find_conflict, find_unknown_alpha,
    parse_alpha_token, scan_conflict, AlphaToken, Alphabet, AlphabetFlag, AlphabetsAllowed,
};
use crate::error::{BadOptionError, LogicalFallacyError, TextOptionsError, UnreasonableOptionsError};
use crate::fraction::{BoundedFraction, BoundedFractionError};
use crate::json::{
    lemma_arr_view_pointwise, lemma_obj_view_pointwise, obj_view, opt_bool_json, opt_bool_model,
    JVal, JsonValue,
};
use crate::endpoint::MathpixEndpoint;
use crate::shared::{DataOptions, MetaData};
use crate::source::ImageSrc;
use crate::strutil::str_eq;
use vstd::prelude::*;
use vstd::string::StringExecFns;

verus! {

/// An output format of the text endpoint.
#[derive(Debug, Clone, Copy, PartialEq, Eq, Hash, Structural)]
pub enum TextFormats {
    /// Mathpix markdown formatted text
    Text,
    /// HTML rendered from `text`
    Html,
    /// Data extracted from `html` as the data options specify
    Data,
    /// Styled LaTeX, returned when the whole image reduces to one equation
    LaTeXStyled,
}

impl TextFormats {
    /// The wire name of the format.
    pub open spec fn spec_str(self) -> Seq<char> {
        match self {
            TextFormats::Text => "text"@,
            TextFormats::Html => "html"@,
            TextFormats::Data => "data"@,
            TextFormats::LaTeXStyled => "latex_styled"@,
        }
    }

    /// Renders the wire name of the format.
    pub fn as_str(&self) -> (r: &'static str)
        ensures
            r@ == self.spec_str(),
    {
        match self {
            TextFormats::Text => "text",
            TextFormats::Html => "html",
            TextFormats::Data => "data",
            TextFormats::LaTeXStyled => "latex_styled",
        }
    }

    /// The wire name of the format, as an owned string.
    pub fn to_string(&self) -> (r: String)
        ensures
            r@ == self.spec_str(),
    {
        self.as_str().to_owned()
    }

    /// Serializes the format as a JSON string.
    pub fn to_json(&self) -> (r: JsonValue)
        ensures
            r@ == JVal::Str(self.spec_str()),
    {
        JsonValue::Str(self.to_string())
    }
}

/// The format a wire name stands for, if any.
pub open spec fn text_format_of(s: Seq<char>) -> Option<TextFormats> {
    if s == "text"@ {
        Some(TextFormats::Text)
    } else if s == "data"@ {
        Some(TextFormats::Data)
    } else if s == "html"@ {
        Some(TextFormats::Html)
    } else if s == "latex_styled"@ {
        Some(TextFormats::LaTeXStyled)
    } else {
        None
    }
}

/// Parses the wire name of a format.
pub fn parse_text_format(s: &String) -> (r: Option<TextFormats>)
    ensures
        r == text_format_of(s@),
{
    if str_eq(s, "text") {
        Some(TextFormats::Text)
    } else if str_eq(s, "data") {
        Some(TextFormats::Data)
    } else if str_eq(s, "html") {
        Some(TextFormats::Html)
    } else if str_eq(s, "latex_styled") {
        Some(TextFormats::LaTeXStyled)
    } else {
        None
    }
}

/// The validated configuration record of the text endpoint. Every field
/// of the payload is always present: an unset field serializes as an
/// explicit null, which the service reads as "use your own default".
#[derive(Debug, Clone, PartialEq)]
pub struct TextOptions {
    /// Key value object
    pub metadata: Option<MetaData>,
    /// Output formats, kept in insertion order without duplicates; absent
    /// (not empty) when none has been added
    pub formats: Option<Vec<TextFormats>>,
    /// Outputs for the `data` and `html` return fields
    pub data_options: Option<DataOptions>,
    /// Return detected alphabets
    pub include_detected_alphabets: Option<bool>,
    /// Which alphabets may appear in the output
    pub alphabets_allowed: Option<AlphabetsAllowed>,
    /// Threshold for triggering confidence errors
    pub confidence_threshold: Option<BoundedFraction>,
    /// Threshold for triggering confidence errors at the symbol level
    pub confidence_rate_threshold: Option<BoundedFraction>,
    /// Return information segmented line by line
    pub include_line_data: Option<bool>,
    /// Return information segmented word by word
    pub include_word_data: Option<bool>,
    /// Enable chemistry diagram OCR
    pub include_smiles: Option<bool>,
    /// Include InChI data as XML attributes inside `<smiles>` elements
    pub include_inchi: Option<bool>,
    /// Enable data extraction for geometry diagrams
    pub include_geometry_data: Option<bool>,
    /// Threshold for auto rotating the image to the correct orientation
    pub auto_rotate_confidence_threshold: Option<BoundedFraction>,
    /// Remove extra white space from equations
    pub rm_spaces: Option<bool>,
    /// Remove font commands from equations
    pub rm_fonts: Option<bool>,
    /// Treat numbers as math
    pub numbers_default_to_math: Option<bool>,
}

/// The formats already stored, as a sequence; empty when the field is
/// absent.
pub open spec fn formats_seq(o: TextOptions) -> Seq<TextFormats> {
    match o.formats {
        Some(v) => v@,
        None => Seq::empty(),
    }
}

/// The sequence with one format inserted: appended at the end unless
/// already present.
pub open spec fn spec_insert_format(s: Seq<TextFormats>, f: TextFormats) -> Seq<TextFormats> {
    if s.contains(f) {
        s
    } else {
        s.push(f)
    }
}

/// The sequence with each listed format inserted, in list order.
pub open spec fn spec_add_formats(s: Seq<TextFormats>, l: Seq<TextFormats>) -> Seq<TextFormats>
    decreases l.len(),
{
    if l.len() == 0 {
        s
    } else {
        spec_insert_format(spec_add_formats(s, l.drop_last()), l.last())
    }
}

/// No format occurs twice.
pub open spec fn formats_nodup(s: Seq<TextFormats>) -> bool {
    forall|i: int, j: int| 0 <= i < j < s.len() ==> s[i] != s[j]
}

impl TextOptions {
    /// Every field unset: what the service's own defaults leave in force.
    pub open spec fn spec_default() -> TextOptions {
        TextOptions {
            metadata: None,
            formats: None,
            data_options: None,
            include_detected_alphabets: None,
            alphabets_allowed: None,
            confidence_threshold: None,
            confidence_rate_threshold: None,
            include_line_data: None,
            include_word_data: None,
            include_smiles: None,
            include_inchi: None,
            include_geometry_data: None,
            auto_rotate_confidence_threshold: None,
            rm_spaces: None,
            rm_fonts: None,
            numbers_default_to_math: None,
        }
    }

    /// The stored formats are nonempty and duplicate-free whenever present.
    pub open spec fn formats_wf(self) -> bool {
        match self.formats {
            Some(v) => v@.len() > 0 && formats_nodup(v@),
            None => true,
        }
    }

    /// A fresh record with every field unset.
    pub fn new() -> (r: TextOptions)
        ensures
            r == Self::spec_default(),
    {
        TextOptions {
            metadata: None,
            formats: None,
            data_options: None,
            include_detected_alphabets: None,
            alphabets_allowed: None,
            confidence_threshold: None,
            confidence_rate_threshold: None,
            include_line_data: None,
            include_word_data: None,
            include_smiles: None,
            include_inchi: None,
            include_geometry_data: None,
            auto_rotate_confidence_threshold: None,
            rm_spaces: None,
            rm_fonts: None,
            numbers_default_to_math: None,
        }
    }

    /// Stores the (empty) metadata record.
    pub fn set_metadata(&mut self)
        ensures
            *final(self) == (TextOptions { metadata: Some(MetaData {  }), ..*old(self) }),
    {
        self.metadata = Some(MetaData {  });
    }

    /// Stores the data-output options record.
    pub fn set_data_options(&mut self, data_options: DataOptions)
        ensures
            *final(self) == (TextOptions { data_options: Some(data_options), ..*old(self) }),
    {
        self.data_options = Some(data_options);
    }

    /// Sets whether detected alphabets are returned.
    pub fn include_detected_alphabets(&mut self, val: bool)
        ensures
            *final(self) == (TextOptions {
                include_detected_alphabets: Some(val),
                ..*old(self)
            }),
    {
        self.include_detected_alphabets = Some(val);
    }

    /// Sets whether line-by-line data is returned.
    pub fn include_line_data(&mut self, val: bool)
        ensures
            *final(self) == (TextOptions { include_line_data: Some(val), ..*old(self) }),
    {
        self.include_line_data = Some(val);
    }

    /// Sets whether word-by-word data is returned.
    pub fn include_word_data(&mut self, val: bool)
        ensures
            *final(self) == (TextOptions { include_word_data: Some(val), ..*old(self) }),
    {
        self.include_word_data = Some(val);
    }

    /// Sets whether chemistry diagram OCR is enabled.
    pub fn include_smiles(&mut self, val: bool)
        ensures
            *final(self) == (TextOptions { include_smiles: Some(val), ..*old(self) }),
    {
        self.include_smiles = Some(val);
    }

    /// Sets whether InChI data is included.
    pub fn include_inchi(&mut self, val: bool)
        ensures
            *final(self) == (TextOptions { include_inchi: Some(val), ..*old(self) }),
    {
        self.include_inchi = Some(val);
    }

    /// Sets whether geometry-diagram data is extracted.
    pub fn include_geometry_data(&mut self, val: bool)
        ensures
            *final(self) == (TextOptions { include_geometry_data: Some(val), ..*old(self) }),
    {
        self.include_geometry_data = Some(val);
    }

    /// Sets whether extra white space is removed from equations.
    pub fn rm_spaces(&mut self, val: bool)
        ensures
            *final(self) == (TextOptions { rm_spaces: Some(val), ..*old(self) }),
    {
        self.rm_spaces = Some(val);
    }

    /// Sets whether font commands are removed from equations.
    pub fn rm_fonts(&mut self, val: bool)
        ensures
            *final(self) == (TextOptions { rm_fonts: Some(val), ..*old(self) }),
    {
        self.rm_fonts = Some(val);
    }

    /// Sets whether numbers are always treated as math.
    pub fn numbers_default_to_math(&mut self, val: bool)
        ensures
            *final(self) == (TextOptions { numbers_default_to_math: Some(val), ..*old(self) }),
    {
        self.numbers_default_to_math = Some(val);
    }

    /// Validates and stores the confidence threshold, given in millionths
    /// of one. A value above one is rejected with the offending value and
    /// nothing changes; every value in [0, 1] is accepted.
    pub fn confidence_threshold(&mut self, millionths: u64) -> (r: Result<(), TextOptionsError>)
        ensures
            match r {
                Ok(_) => {
                    &&& millionths <= crate::fraction::FRACTION_DENOMINATOR
                    &&& *final(self) == (TextOptions {
                        confidence_threshold: Some(
                            BoundedFraction::spec_construct(millionths)->Ok_0,
                        ),
                        ..*old(self)
                    })
                },
                Err(e) => {
                    &&& *final(self) == *old(self)
                    &&& millionths > crate::fraction::FRACTION_DENOMINATOR
                    &&& e == TextOptionsError::BadOption(
                        BadOptionError::ConfidenceThreshold(
                            BoundedFractionError::OutOfBounds(millionths),
                        ),
                    )
                },
            },
    {
        match BoundedFraction::construct(millionths) {
            Ok(f) => {
                self.confidence_threshold = Some(f);
                Ok(())
            },
            Err(e) => Err(TextOptionsError::BadOption(BadOptionError::ConfidenceThreshold(e))),
        }
    }

    /// Validates and stores the symbol-level confidence threshold, given in
    /// millionths of one, under the same rule as the confidence threshold.
    pub fn confidence_rate_threshold(&mut self, millionths: u64) -> (r: Result<
        (),
        TextOptionsError,
    >)
        ensures
            match r {
                Ok(_) => {
                    &&& millionths <= crate::fraction::FRACTION_DENOMINATOR
                    &&& *final(self) == (TextOptions {
                        confidence_rate_threshold: Some(
                            BoundedFraction::spec_construct(millionths)->Ok_0,
                        ),
                        ..*old(self)
                    })
                },
                Err(e) => {
                    &&& *final(self) == *old(self)
                    &&& millionths > crate::fraction::FRACTION_DENOMINATOR
                    &&& e == TextOptionsError::BadOption(
                        BadOptionError::ConfidenceThreshold(
                            BoundedFractionError::OutOfBounds(millionths),
                        ),
                    )
                },
            },
    {
        match BoundedFraction::construct(millionths) {
            Ok(f) => {
                self.confidence_rate_threshold = Some(f);
                Ok(())
            },
            Err(e) => Err(TextOptionsError::BadOption(BadOptionError::ConfidenceThreshold(e))),
        }
    }

    /// Validates and stores the auto-rotation confidence threshold, given
    /// in millionths of one, under the same rule as the confidence
    /// threshold.
    pub fn auto_rotate_confidence_threshold(&mut self, millionths: u64) -> (r: Result<
        (),
        TextOptionsError,
    >)
        ensures
            match r {
                Ok(_) => {
                    &&& millionths <= crate::fraction::FRACTION_DENOMINATOR
                    &&& *final(self) == (TextOptions {
                        auto_rotate_confidence_threshold: Some(
                            BoundedFraction::spec_construct(millionths)->Ok_0,
                        ),
                        ..*old(self)
                    })
                },
                Err(e) => {
                    &&& *final(self) == *old(self)
                    &&& millionths > crate::fraction::FRACTION_DENOMINATOR
                    &&& e == TextOptionsError::BadOption(
                        BadOptionError::ConfidenceThreshold(
                            BoundedFractionError::OutOfBounds(millionths),
                        ),
                    )
                },
            },
    {
        match BoundedFraction::construct(millionths) {
            Ok(f) => {
                self.auto_rotate_confidence_threshold = Some(f);
                Ok(())
            },
            Err(e) => Err(TextOptionsError::BadOption(BadOptionError::ConfidenceThreshold(e))),
        }
    }

    /// Adds one output format, keeping insertion order and ignoring a
    /// duplicate.
    pub fn add_format(&mut self, format: TextFormats)
        ensures
            *final(self) == (TextOptions { formats: final(self).formats, ..*old(self) }),
            final(self).formats is Some,
            final(self).formats->0@ == spec_insert_format(formats_seq(*old(self)), format),
            old(self).formats_wf() ==> final(self).formats_wf(),
    {
        let ghost before = formats_seq(*self);
        match &mut self.formats {
            Some(v) => {
                let mut present = false;
                let mut i: usize = 0;
                while i < v.len()
                    invariant
                        i <= v.len(),
                        present <==> exists|k: int| 0 <= k < i && v@[k] == format,
                    decreases v.len() - i,
                {
                    if v[i] == format {
                        present = true;
                    }
                    i += 1;
                }
                if !present {
                    v.push(format);
                }
            },
            None => {
                let mut v: Vec<TextFormats> = Vec::new();
                v.push(format);
                self.formats = Some(v);
                proof {
                    assert(before =~= Seq::<TextFormats>::empty());
                    assert(self.formats->0@ =~= before.push(format));
                }
            },
        }
    }

    /// Adds each listed format in order, dropping duplicates. An empty
    /// result leaves the field absent rather than present-and-empty.
    pub fn add_formats(&mut self, formats: Vec<TextFormats>)
        ensures
            *final(self) == (TextOptions { formats: final(self).formats, ..*old(self) }),
            ({
                let after = spec_add_formats(formats_seq(*old(self)), formats@);
                if after.len() == 0 {
                    final(self).formats is None
                } else {
                    final(self).formats is Some && final(self).formats->0@ == after
                }
            }),
            old(self).formats_wf() ==> final(self).formats_wf(),
    {
        let ghost start = formats_seq(*self);
        let ghost fs = formats@;
        let mut i: usize = 0;
        while i < formats.len()
            invariant
                i <= formats.len(),
                fs == formats@,
                formats_seq(*self) == spec_add_formats(start, fs.take(i as int)),
                *self == (TextOptions { formats: self.formats, ..*old(self) }),
                old(self).formats_wf() ==> self.formats_wf(),
            decreases formats.len() - i,
        {
            self.add_format(formats[i]);
            proof {
                assert(fs.take(i + 1).drop_last() =~= fs.take(i as int));
                assert(fs.take(i + 1).last() == fs[i as int]);
            }
            i += 1;
        }
        proof {
            assert(fs.take(formats.len() as int) =~= fs);
        }
        let clear = match &self.formats {
            Some(v) => v.len() == 0,
            None => false,
        };
        if clear {
            self.formats = None;
        }
    }

    /// The serialized fields of the record, in a fixed key order; each
    /// unset field maps to null.
    pub open spec fn fields_model(self) -> Seq<(Seq<char>, JVal)> {
        seq![
            ("metadata"@, opt_metadata_model(self.metadata)),
            ("formats"@, opt_formats_model(self.formats)),
            ("data_options"@, opt_data_options_model(self.data_options)),
            ("include_detected_alphabets"@, opt_bool_model(self.include_detected_alphabets)),
            ("alphabets_allowed"@, opt_alphabets_model(self.alphabets_allowed)),
            ("confidence_threshold"@, opt_fraction_model(self.confidence_threshold)),
            ("confidence_rate_threshold"@, opt_fraction_model(self.confidence_rate_threshold)),
            ("include_line_data"@, opt_bool_model(self.include_line_data)),
            ("include_word_data"@, opt_bool_model(self.include_word_data)),
            ("include_smiles"@, opt_bool_model(self.include_smiles)),
            ("include_inchi"@, opt_bool_model(self.include_inchi)),
            ("include_geometry_data"@, opt_bool_model(self.include_geometry_data)),
            (
                "auto_rotate_confidence_threshold"@,
                opt_fraction_model(self.auto_rotate_confidence_threshold),
            ),
            ("rm_spaces"@, opt_bool_model(self.rm_spaces)),
            ("rm_fonts"@, opt_bool_model(self.rm_fonts)),
            ("numbers_default_to_math"@, opt_bool_model(self.numbers_default_to_math)),
        ]
    }

    /// The serialized form of the record on its own: its fields as one
    /// JSON object.
    pub open spec fn json_model(self) -> JVal {
        JVal::Obj(self.fields_model())
    }

    /// Serializes the fields of the record, for embedding in a request
    /// body.
    pub fn json_fields(&self) -> (r: Vec<(String, JsonValue)>)
        ensures
            obj_view(r@) == self.fields_model(),
    {
        let mut fields: Vec<(String, JsonValue)> = Vec::new();
        fields.push(("metadata".to_owned(), opt_metadata_json(&self.metadata)));
        fields.push(("formats".to_owned(), opt_formats_json(&self.formats)));
        fields.push(("data_options".to_owned(), opt_data_options_json(&self.data_options)));
        fields.push((
            "include_detected_alphabets".to_owned(),
            opt_bool_json(&self.include_detected_alphabets),
        ));
        fields.push(("alphabets_allowed".to_owned(), opt_alphabets_json(&self.alphabets_allowed)));
        fields.push((
            "confidence_threshold".to_owned(),
            opt_fraction_json(&self.confidence_threshold),
        ));
        fields.push((
            "confidence_rate_threshold".to_owned(),
            opt_fraction_json(&self.confidence_rate_threshold),
        ));
        fields.push(("include_line_data".to_owned(), opt_bool_json(&self.include_line_data)));
        fields.push(("include_word_data".to_owned(), opt_bool_json(&self.include_word_data)));
        fields.push(("include_smiles".to_owned(), opt_bool_json(&self.include_smiles)));
        fields.push(("include_inchi".to_owned(), opt_bool_json(&self.include_inchi)));
        fields.push((
            "include_geometry_data".to_owned(),
            opt_bool_json(&self.include_geometry_data),
        ));
        fields.push((
            "auto_rotate_confidence_threshold".to_owned(),
            opt_fraction_json(&self.auto_rotate_confidence_threshold),
        ));
        fields.push(("rm_spaces".to_owned(), opt_bool_json(&self.rm_spaces)));
        fields.push(("rm_fonts".to_owned(), opt_bool_json(&self.rm_fonts)));
        fields.push((
            "numbers_default_to_math".to_owned(),
            opt_bool_json(&self.numbers_default_to_math),
        ));
        proof {
            lemma_obj_view_pointwise(fields@);
            assert(obj_view(fields@) =~~= self.fields_model());
        }
        fields
    }

    /// Serializes the record as a JSON object.
    pub fn to_json(&self) -> (r: JsonValue)
        ensures
            r@ == self.json_model(),
    {
        JsonValue::Obj(self.json_fields())
    }
}

impl Default for TextOptions {
    /// A fresh record with every field unset.
    fn default() -> (r: Self)
        ensures
            r == Self::spec_default(),
    {
        Self::new()
    }
}

/// The serialized form of the optional metadata record.
pub open spec fn opt_metadata_model(m: Option<MetaData>) -> JVal {
    match m {
        None => JVal::Null,
        Some(md) => md.json_model(),
    }
}

/// Serializes the optional metadata record.
pub fn opt_metadata_json(m: &Option<MetaData>) -> (r: JsonValue)
    ensures
        r@ == opt_metadata_model(*m),
{
    match m {
        None => JsonValue::Null,
        Some(md) => md.to_json(),
    }
}

/// The serialized form of the optional data-output options.
pub open spec fn opt_data_options_model(d: Option<DataOptions>) -> JVal {
    match d {
        None => JVal::Null,
        Some(x) => x.json_model(),
    }
}

/// Serializes the optional data-output options.
pub fn opt_data_options_json(d: &Option<DataOptions>) -> (r: JsonValue)
    ensures
        r@ == opt_data_options_model(*d),
{
    match d {
        None => JsonValue::Null,
        Some(x) => x.to_json(),
    }
}

/// The serialized form of the optional alphabet flags.
pub open spec fn opt_alphabets_model(a: Option<AlphabetsAllowed>) -> JVal {
    match a {
        None => JVal::Null,
        Some(x) => x.json_model(),
    }
}

/// Serializes the optional alphabet flags.
pub fn opt_alphabets_json(a: &Option<AlphabetsAllowed>) -> (r: JsonValue)
    ensures
        r@ == opt_alphabets_model(*a),
{
    match a {
        None => JsonValue::Null,
        Some(x) => x.to_json(),
    }
}

/// The serialized form of an optional bounded fraction.
pub open spec fn opt_fraction_model(f: Option<BoundedFraction>) -> JVal {
    match f {
        None => JVal::Null,
        Some(x) => x.json_model(),
    }
}

/// Serializes an optional bounded fraction.
pub fn opt_fraction_json(f: &Option<BoundedFraction>) -> (r: JsonValue)
    ensures
        r@ == opt_fraction_model(*f),
{
    match f {
        None => JsonValue::Null,
        Some(x) => x.to_json(),
    }
}

/// The models of a format list's elements.
pub open spec fn formats_arr_model(s: Seq<TextFormats>) -> Seq<JVal> {
    Seq::new(s.len(), |i: int| JVal::Str(s[i].spec_str()))
}

/// The serialized form of the optional format list: an array of wire
/// names, or null.
pub open spec fn opt_formats_model(f: Option<Vec<TextFormats>>) -> JVal {
    match f {
        None => JVal::Null,
        Some(v) => JVal::Arr(formats_arr_model(v@)),
    }
}

/// Serializes the optional format list.
pub fn opt_formats_json(f: &Option<Vec<TextFormats>>) -> (r: JsonValue)
    ensures
        r@ == opt_formats_model(*f),
{
    match f {
        None => JsonValue::Null,
        Some(v) => {
            let mut items: Vec<JsonValue> = Vec::new();
            let mut i: usize = 0;
            while i < v.len()
                invariant
                    i <= v.len(),
                    items@.len() == i,
                    forall|k: int| 0 <= k < i ==> items@[k]@ == JVal::Str(v@[k].spec_str()),
                decreases v.len() - i,
            {
                items.push(v[i].to_json());
                i += 1;
            }
            let r = JsonValue::Arr(items);
            proof {
                lemma_arr_view_pointwise(r->Arr_0@);
                assert(r@->Arr_0 =~~= formats_arr_model(v@));
            }
            r
        },
    }
}


/// Every token names a text format.
pub open spec fn all_formats_known(tokens: Seq<Seq<char>>) -> bool {
    forall|i: int| 0 <= i < tokens.len() ==> text_format_of(#[trigger] tokens[i]) is Some
}

/// The first token that names no text format, if any.
pub open spec fn find_unknown_format(tokens: Seq<Seq<char>>) -> Option<Seq<char>>
    decreases tokens.len(),
{
    if tokens.len() == 0 {
        None
    } else if text_format_of(tokens.first()) is None {
        Some(tokens.first())
    } else {
        find_unknown_format(tokens.drop_first())
    }
}

/// The formats the tokens name, in token order; meaningful when every
/// token is known.
pub open spec fn parsed_formats(tokens: Seq<Seq<char>>) -> Seq<TextFormats> {
    Seq::new(tokens.len(), |i: int| text_format_of(tokens[i])->0)
}

/// The first unknown format token exists exactly when not every token is
/// known, and no known token precedes it.
proof fn lemma_find_unknown_format(tokens: Seq<Seq<char>>, i: int)
    requires
        0 <= i < tokens.len(),
        text_format_of(tokens[i]) is None,
        forall|k: int| 0 <= k < i ==> text_format_of(#[trigger] tokens[k]) is Some,
    ensures
        find_unknown_format(tokens) == Some(tokens[i]),
    decreases tokens.len(),
{
    if i > 0 {
        lemma_find_unknown_format(tokens.drop_first(), i - 1);
        assert(forall|k: int|
            0 <= k < tokens.drop_first().len() ==> tokens.drop_first()[k] == #[trigger] tokens[k
                + 1]);
    }
}

impl TextOptions {
    /// Parses and adds each listed format name, in order, dropping
    /// duplicates. All-or-nothing: a token outside the format vocabulary
    /// fails the whole call with that token and changes nothing; a call
    /// whose tokens are all known always succeeds.
    pub fn add_formats_from_strings(&mut self, formats: Vec<String>) -> (r: Result<
        (),
        TextOptionsError,
    >)
        ensures
            match r {
                Ok(_) => {
                    &&& all_formats_known(formats.deep_view())
                    &&& *final(self) == (TextOptions {
                        formats: final(self).formats,
                        ..*old(self)
                    })
                    &&& ({
                        let after = spec_add_formats(
                            formats_seq(*old(self)),
                            parsed_formats(formats.deep_view()),
                        );
                        if after.len() == 0 {
                            final(self).formats is None
                        } else {
                            final(self).formats is Some && final(self).formats->0@ == after
                        }
                    })
                },
                Err(e) => {
                    &&& *final(self) == *old(self)
                    &&& find_unknown_format(formats.deep_view()) is Some
                    &&& e matches TextOptionsError::BadOption(BadOptionError::TextFormat(t))
                        && t@ == find_unknown_format(formats.deep_view())->0
                },
            },
            old(self).formats_wf() ==> final(self).formats_wf(),
    {
        let ghost tokens = formats.deep_view();
        let mut parsed: Vec<TextFormats> = Vec::new();
        let mut i: usize = 0;
        while i < formats.len()
            invariant
                i <= formats.len(),
                tokens == formats.deep_view(),
                tokens.len() == formats.len(),
                parsed@.len() == i,
                forall|k: int| 0 <= k < i ==> text_format_of(#[trigger] tokens[k]) is Some,
                forall|k: int| 0 <= k < i ==> parsed@[k] == text_format_of(tokens[k])->0,
            decreases formats.len() - i,
        {
            match parse_text_format(&formats[i]) {
                Some(f) => {
                    parsed.push(f);
                },
                None => {
                    proof {
                        lemma_find_unknown_format(tokens, i as int);
                    }
                    return Err(
                        TextOptionsError::BadOption(BadOptionError::TextFormat(formats[i].clone())),
                    );
                },
            }
            i += 1;
        }
        proof {
            assert(parsed@ =~= parsed_formats(tokens));
        }
        self.add_formats(parsed);
        Ok(())
    }
}

/// One data-output flag of the data-options record.
#[derive(Debug, Clone, Copy, PartialEq, Eq, Structural)]
pub enum DataField {
    Svg,
    TableHtml,
    Latex,
    Tsv,
    Asciimath,
    Mathml,
}

/// The record with one data-output flag replaced.
pub open spec fn data_with(d: DataOptions, f: DataField, v: bool) -> DataOptions {
    match f {
        DataField::Svg => DataOptions { include_svg: Some(v), ..d },
        DataField::TableHtml => DataOptions { include_table_html: Some(v), ..d },
        DataField::Latex => DataOptions { include_latex: Some(v), ..d },
        DataField::Tsv => DataOptions { include_tsv: Some(v), ..d },
        DataField::Asciimath => DataOptions { include_asciimath: Some(v), ..d },
        DataField::Mathml => DataOptions { include_mathml: Some(v), ..d },
    }
}

/// One data-output flag of the record.
pub open spec fn data_field_of(d: DataOptions, f: DataField) -> Option<bool> {
    match f {
        DataField::Svg => d.include_svg,
        DataField::TableHtml => d.include_table_html,
        DataField::Latex => d.include_latex,
        DataField::Tsv => d.include_tsv,
        DataField::Asciimath => d.include_asciimath,
        DataField::Mathml => d.include_mathml,
    }
}

/// The flag and value a data-option token requests: the plain name turns a
/// flag on, and a `no` or `!` prefix turns it off.
pub open spec fn data_token_of(s: Seq<char>) -> Option<(DataField, bool)> {
    if s == "include_asciimath"@ {
        Some((DataField::Asciimath, true))
    } else if s == "noinclude_asciimath"@ || s == "!include_asciimath"@ {
        Some((DataField::Asciimath, false))
    } else if s == "include_latex"@ {
        Some((DataField::Latex, true))
    } else if s == "noinclude_latex"@ || s == "!include_latex"@ {
        Some((DataField::Latex, false))
    } else if s == "include_mathml"@ {
        Some((DataField::Mathml, true))
    } else if s == "noinclude_mathml"@ || s == "!include_mathml"@ {
        Some((DataField::Mathml, false))
    } else if s == "include_svg"@ {
        Some((DataField::Svg, true))
    } else if s == "noinclude_svg"@ || s == "!include_svg"@ {
        Some((DataField::Svg, false))
    } else if s == "include_table_html"@ {
        Some((DataField::TableHtml, true))
    } else if s == "noinclude_table_html"@ || s == "!include_table_html"@ {
        Some((DataField::TableHtml, false))
    } else if s == "include_tsv"@ {
        Some((DataField::Tsv, true))
    } else if s == "noinclude_tsv"@ || s == "!include_tsv"@ {
        Some((DataField::Tsv, false))
    } else {
        None
    }
}

/// Parses one data-option token.
fn parse_data_token(s: &String) -> (r: Option<(DataField, bool)>)
    ensures
        r == data_token_of(s@),
{
    if str_eq(s, "include_asciimath") {
        Some((DataField::Asciimath, true))
    } else if str_eq(s, "noinclude_asciimath") || str_eq(s, "!include_asciimath") {
        Some((DataField::Asciimath, false))
    } else if str_eq(s, "include_latex") {
        Some((DataField::Latex, true))
    } else if str_eq(s, "noinclude_latex") || str_eq(s, "!include_latex") {
        Some((DataField::Latex, false))
    } else if str_eq(s, "include_mathml") {
        Some((DataField::Mathml, true))
    } else if str_eq(s, "noinclude_mathml") || str_eq(s, "!include_mathml") {
        Some((DataField::Mathml, false))
    } else if str_eq(s, "include_svg") {
        Some((DataField::Svg, true))
    } else if str_eq(s, "noinclude_svg") || str_eq(s, "!include_svg") {
        Some((DataField::Svg, false))
    } else if str_eq(s, "include_table_html") {
        Some((DataField::TableHtml, true))
    } else if str_eq(s, "noinclude_table_html") || str_eq(s, "!include_table_html") {
        Some((DataField::TableHtml, false))
    } else if str_eq(s, "include_tsv") {
        Some((DataField::Tsv, true))
    } else if str_eq(s, "noinclude_tsv") || str_eq(s, "!include_tsv") {
        Some((DataField::Tsv, false))
    } else {
        None
    }
}

/// Every token is a data-option token.
pub open spec fn all_data_known(tokens: Seq<Seq<char>>) -> bool {
    forall|i: int| 0 <= i < tokens.len() ==> data_token_of(#[trigger] tokens[i]) is Some
}

/// The first token that is no data-option token, if any.
pub open spec fn find_unknown_data(tokens: Seq<Seq<char>>) -> Option<Seq<char>>
    decreases tokens.len(),
{
    if tokens.len() == 0 {
        None
    } else if data_token_of(tokens.first()) is None {
        Some(tokens.first())
    } else {
        find_unknown_data(tokens.drop_first())
    }
}

/// The record after applying each token in order; an unrecognized token
/// changes nothing.
pub open spec fn apply_data_tokens(d: DataOptions, tokens: Seq<Seq<char>>) -> DataOptions
    decreases tokens.len(),
{
    if tokens.len() == 0 {
        d
    } else {
        let prev = apply_data_tokens(d, tokens.drop_last());
        match data_token_of(tokens.last()) {
            Some((f, v)) => data_with(prev, f, v),
            None => prev,
        }
    }
}

/// The first unknown data token exists at position i when the tokens
/// before it are known and the token at i is not.
proof fn lemma_find_unknown_data(tokens: Seq<Seq<char>>, i: int)
    requires
        0 <= i < tokens.len(),
        data_token_of(tokens[i]) is None,
        forall|k: int| 0 <= k < i ==> data_token_of(#[trigger] tokens[k]) is Some,
    ensures
        find_unknown_data(tokens) == Some(tokens[i]),
    decreases tokens.len(),
{
    if i > 0 {
        lemma_find_unknown_data(tokens.drop_first(), i - 1);
        assert(forall|k: int|
            0 <= k < tokens.drop_first().len() ==> tokens.drop_first()[k] == #[trigger] tokens[k
                + 1]);
    }
}

impl TextOptions {
    /// Parses and applies each listed data-option token, in order. A bare
    /// record springs into existence on the first token; an empty call on
    /// an absent record leaves it absent. All-or-nothing: a token outside
    /// the vocabulary fails the whole call with that token and changes
    /// nothing; a call whose tokens are all known always succeeds.
    pub fn add_data_options_from_strings(&mut self, data_options: Vec<String>) -> (r: Result<
        (),
        TextOptionsError,
    >)
        ensures
            match r {
                Ok(_) => {
                    &&& all_data_known(data_options.deep_view())
                    &&& ({
                        if old(self).data_options is None && data_options@.len() == 0 {
                            *final(self) == *old(self)
                        } else {
                            let base = match old(self).data_options {
                                Some(d) => d,
                                None => DataOptions::spec_default(),
                            };
                            *final(self) == (TextOptions {
                                data_options: Some(
                                    apply_data_tokens(base, data_options.deep_view()),
                                ),
                                ..*old(self)
                            })
                        }
                    })
                },
                Err(e) => {
                    &&& *final(self) == *old(self)
                    &&& find_unknown_data(data_options.deep_view()) is Some
                    &&& e matches TextOptionsError::BadOption(BadOptionError::DataOption(t))
                        && t@ == find_unknown_data(data_options.deep_view())->0
                },
            },
    {
        let ghost tokens = data_options.deep_view();
        if data_options.len() == 0 && self.data_options.is_none() {
            return Ok(());
        }
        let mut cand = match &self.data_options {
            Some(d) => *d,
            None => DataOptions::new(),
        };
        let ghost base = if self.data_options is Some {
            self.data_options->0
        } else {
            DataOptions::spec_default()
        };
        assert(cand == base);
        let mut i: usize = 0;
        while i < data_options.len()
            invariant
                i <= data_options.len(),
                tokens == data_options.deep_view(),
                tokens.len() == data_options.len(),
                forall|k: int| 0 <= k < i ==> data_token_of(#[trigger] tokens[k]) is Some,
                cand == apply_data_tokens(base, tokens.take(i as int)),
            decreases data_options.len() - i,
        {
            match parse_data_token(&data_options[i]) {
                Some((f, v)) => {
                    data_set(&mut cand, f, v);
                    proof {
                        assert(tokens.take(i + 1).drop_last() =~= tokens.take(i as int));
                        assert(tokens.take(i + 1).last() == tokens[i as int]);
                    }
                },
                None => {
                    proof {
                        lemma_find_unknown_data(tokens, i as int);
                    }
                    return Err(
                        TextOptionsError::BadOption(
                            BadOptionError::DataOption(data_options[i].clone()),
                        ),
                    );
                },
            }
            i += 1;
        }
        proof {
            assert(tokens.take(tokens.len() as int) =~= tokens);
        }
        self.data_options = Some(cand);
        Ok(())
    }
}

/// Replaces one data-output flag.
fn data_set(d: &mut DataOptions, f: DataField, v: bool)
    ensures
        *final(d) == data_with(*old(d), f, v),
{
    match f {
        DataField::Svg => d.include_svg = Some(v),
        DataField::TableHtml => d.include_table_html = Some(v),
        DataField::Latex => d.include_latex = Some(v),
        DataField::Tsv => d.include_tsv = Some(v),
        DataField::Asciimath => d.include_asciimath = Some(v),
        DataField::Mathml => d.include_mathml = Some(v),
    }
}


/// The first unknown alphabet token exists at position i when the tokens
/// before it are known and the token at i is not.
proof fn lemma_find_unknown_alpha(tokens: Seq<Seq<char>>, i: int)
    requires
        0 <= i < tokens.len(),
        alpha_token_of(tokens[i]) is None,
        forall|k: int| 0 <= k < i ==> alpha_token_of(#[trigger] tokens[k]) is Some,
    ensures
        find_unknown_alpha(tokens) == Some(tokens[i]),
    decreases tokens.len(),
{
    if i > 0 {
        lemma_find_unknown_alpha(tokens.drop_first(), i - 1);
        assert(forall|k: int|
            0 <= k < tokens.drop_first().len() ==> tokens.drop_first()[k] == #[trigger] tokens[k
                + 1]);
    }
}

/// A list whose tokens are all known has no unknown token.
proof fn lemma_all_alpha_known(tokens: Seq<Seq<char>>)
    requires
        all_alpha_known(tokens),
    ensures
        find_unknown_alpha(tokens) is None,
    decreases tokens.len(),
{
    if tokens.len() > 0 {
        assert(forall|k: int|
            0 <= k < tokens.drop_first().len() ==> tokens.drop_first()[k] == #[trigger] tokens[k
                + 1]);
        lemma_all_alpha_known(tokens.drop_first());
    }
}

impl TextOptions {
    /// Parses and applies each listed alphabet token, in order: a plain
    /// code allows that alphabet, a `no`- or `!`-prefixed code disallows
    /// it, and `all` allows every alphabet at once. All-or-nothing, checked
    /// in this order: a list that requests the same alphabet both allowed
    /// and disallowed is rejected as a contradiction; a token outside the
    /// vocabulary is rejected with that token; a call whose outcome would
    /// leave every alphabet disallowed is rejected as unreasonable. A
    /// rejected call changes nothing, and any other call succeeds.
    pub fn set_alphabets_allowed(&mut self, alphabets: Vec<String>) -> (r: Result<
        (),
        TextOptionsError,
    >)
        ensures
            match r {
                Ok(_) => {
                    &&& find_conflict(alphabets.deep_view()) is None
                    &&& all_alpha_known(alphabets.deep_view())
                    &&& ({
                        if old(self).alphabets_allowed is None && alphabets@.len() == 0 {
                            *final(self) == *old(self)
                        } else {
                            let base = alphabets_base(*old(self));
                            let applied = apply_alpha_tokens(base, alphabets.deep_view());
                            &&& !applied.all_disallowed()
                            &&& *final(self) == (TextOptions {
                                alphabets_allowed: Some(applied),
                                ..*old(self)
                            })
                        }
                    })
                },
                Err(e) => {
                    &&& *final(self) == *old(self)
                    &&& match find_conflict(alphabets.deep_view()) {
                        Some(pair) => e matches TextOptionsError::LogicalFallacy(
                            LogicalFallacyError::AlphabetsAllowedLogicalFallacy {
                                false_alphabet,
                                true_alphabet,
                            },
                        ) && true_alphabet@ == pair.0 && false_alphabet@ == pair.1,
                        None => {
                            if find_unknown_alpha(alphabets.deep_view()) is Some {
                                e matches TextOptionsError::BadOption(
                                    BadOptionError::AlphabetAllowed(t),
                                ) && t@ == find_unknown_alpha(alphabets.deep_view())->0
                            } else {
                                &&& e == TextOptionsError::UnreasonableOptions(
                                    UnreasonableOptionsError::NoAlphabetsAllowed,
                                )
                                &&& !(old(self).alphabets_allowed is None && alphabets@.len() == 0)
                                &&& apply_alpha_tokens(
                                    alphabets_base(*old(self)),
                                    alphabets.deep_view(),
                                ).all_disallowed()
                            }
                        },
                    }
                },
            },
    {
        let ghost tokens = alphabets.deep_view();
        if let Some(pair) = scan_conflict(&alphabets) {
            return Err(
                TextOptionsError::LogicalFallacy(
                    LogicalFallacyError::AlphabetsAllowedLogicalFallacy {
                        true_alphabet: pair.0,
                        false_alphabet: pair.1,
                    },
                ),
            );
        }
        if alphabets.len() == 0 && self.alphabets_allowed.is_none() {
            return Ok(());
        }
        let mut cand = match &self.alphabets_allowed {
            Some(a) => *a,
            None => AlphabetsAllowed::new(),
        };
        let mut i: usize = 0;
        while i < alphabets.len()
            invariant
                i <= alphabets.len(),
                tokens == alphabets.deep_view(),
                tokens.len() == alphabets.len(),
                forall|k: int| 0 <= k < i ==> alpha_token_of(#[trigger] tokens[k]) is Some,
                cand == apply_alpha_tokens(alphabets_base(*old(self)), tokens.take(i as int)),
                *self == *old(self),
                find_conflict(tokens) is None,
            decreases alphabets.len() - i,
        {
            match parse_alpha_token(&alphabets[i]) {
                Some(AlphaToken::SetOne(x, v)) => {
                    set_alpha_flag(
                        &mut cand,
                        x,
                        if v {
                            AlphabetFlag::Allowed
                        } else {
                            AlphabetFlag::Disallowed
                        },
                    );
                },
                Some(AlphaToken::All) => {
                    cand = AlphabetsAllowed {
                        en: AlphabetFlag::Allowed,
                        hi: AlphabetFlag::Allowed,
                        zh: AlphabetFlag::Allowed,
                        ja: AlphabetFlag::Allowed,
                        ko: AlphabetFlag::Allowed,
                        ru: AlphabetFlag::Allowed,
                        th: AlphabetFlag::Allowed,
                    };
                },
                None => {
                    proof {
                        lemma_find_unknown_alpha(tokens, i as int);
                    }
                    return Err(
                        TextOptionsError::BadOption(
                            BadOptionError::AlphabetAllowed(alphabets[i].clone()),
                        ),
                    );
                },
            }
            proof {
                assert(tokens.take(i + 1).drop_last() =~= tokens.take(i as int));
                assert(tokens.take(i + 1).last() == tokens[i as int]);
            }
            i += 1;
        }
        proof {
            assert(tokens.take(tokens.len() as int) =~= tokens);
        }
        proof {
            lemma_all_alpha_known(tokens);
        }
        if cand.en.is_disallowed() && cand.hi.is_disallowed() && cand.zh.is_disallowed()
            && cand.ja.is_disallowed() && cand.ko.is_disallowed() && cand.ru.is_disallowed()
            && cand.th.is_disallowed() {
            return Err(
                TextOptionsError::UnreasonableOptions(UnreasonableOptionsError::NoAlphabetsAllowed),
            );
        }
        self.alphabets_allowed = Some(cand);
        Ok(())
    }
}

/// The flags a combined call starts from: the stored flags, or a fresh
/// all-unset record when none are stored yet.
pub open spec fn alphabets_base(o: TextOptions) -> AlphabetsAllowed {
    match o.alphabets_allowed {
        Some(a) => a,
        None => AlphabetsAllowed::spec_unset(),
    }
}

/// Replaces one alphabet's flag.
fn set_alpha_flag(target: &mut AlphabetsAllowed, a: Alphabet, f: AlphabetFlag)
    ensures
        *final(target) == old(target).with_flag(a, f),
{
    match a {
        Alphabet::En => target.en = f,
        Alphabet::Hi => target.hi = f,
        Alphabet::Zh => target.zh = f,
        Alphabet::Ja => target.ja = f,
        Alphabet::Ko => target.ko = f,
        Alphabet::Ru => target.ru = f,
        Alphabet::Th => target.th = f,
    }
}


/// The serialized form of an optional image source: the source, or null.
pub open spec fn opt_src_model(s: Option<ImageSrc>, bytes: Seq<u8>) -> JVal {
    match s {
        None => JVal::Null,
        Some(x) => x.json_model(bytes),
    }
}

/// Serializes an optional image source.
pub fn opt_src_json(s: &Option<ImageSrc>, bytes: &Vec<u8>) -> (r: JsonValue)
    ensures
        r@ == opt_src_model(*s, bytes@),
{
    match s {
        None => JsonValue::Null,
        Some(x) => x.to_json(bytes),
    }
}

/// A request to the text endpoint: the image source and the validated
/// configuration record.
#[derive(Debug, Clone, PartialEq)]
pub struct Text {
    /// Image data, or public URL where the image is located
    pub src: Option<ImageSrc>,
    /// Configuration options for the text endpoint
    pub options: TextOptions,
}

impl Text {
    /// Builds a text request from a source and optional configuration; an
    /// absent configuration means the service's own defaults.
    pub fn new(options: Option<TextOptions>, src: ImageSrc) -> (r: Text)
        ensures
            r.src == Some(src),
            r.options == match options {
                Some(o) => o,
                None => TextOptions::spec_default(),
            },
    {
        let opts = match options {
            Some(o) => o,
            None => TextOptions::new(),
        };
        Text { src: Some(src), options: opts }
    }
}

impl MathpixEndpoint for Text {
    /// The text endpoint's path suffix.
    open spec fn spec_url_path(&self) -> Seq<char> {
        "text"@
    }

    /// The body: the serialized source under `src`, with the configuration
    /// record's fields flattened into the same object.
    open spec fn spec_body(&self, src_bytes: Seq<u8>) -> JVal {
        JVal::Obj(
            seq![("src"@, opt_src_model(self.src, src_bytes))] + self.options.fields_model(),
        )
    }

    fn url_path(&self) -> (r: String) {
        "text".to_owned()
    }

    fn to_request_body(&self, src_bytes: &Vec<u8>) -> (r: JsonValue) {
        let mut fields: Vec<(String, JsonValue)> = Vec::new();
        fields.push(("src".to_owned(), opt_src_json(&self.src, src_bytes)));
        let mut rest = self.options.json_fields();
        proof {
            lemma_obj_view_pointwise(rest@);
        }
        let ghost rest_snapshot = rest@;
        fields.append(&mut rest);
        let r = JsonValue::Obj(fields);
        proof {
            lemma_obj_view_pointwise(r->Obj_0@);
            assert(r@->Obj_0 =~~= self.spec_body(src_bytes@)->Obj_0);
        }
        r
    }
}


/// Inserting a format adds exactly that member.
proof fn lemma_insert_format_membership(s: Seq<TextFormats>, f: TextFormats)
    ensures
        forall|x: TextFormats| spec_insert_format(s, f).contains(x) <==> s.contains(x) || x == f,
{
    assert forall|x: TextFormats| spec_insert_format(s, f).contains(x) <==> s.contains(x) || x == f by {
        if s.contains(f) {
        } else {
            if x == f {
                assert(s.push(f)[s.len() as int] == f);
                assert(spec_insert_format(s, f).contains(x));
            } else {
                if s.contains(x) {
                    let i = choose|i: int| 0 <= i < s.len() && s[i] == x;
                    assert(s.push(f)[i] == x);
                }
                if s.push(f).contains(x) {
                    let i = choose|i: int| 0 <= i < s.push(f).len() && s.push(f)[i] == x;
                    assert(i < s.len());
                    assert(s[i] == x);
                }
            }
        }
    }
}

/// Adding formats yields exactly the members of either side.
pub proof fn lemma_add_formats_membership(s: Seq<TextFormats>, l: Seq<TextFormats>)
    ensures
        forall|x: TextFormats|
            spec_add_formats(s, l).contains(x) <==> s.contains(x) || l.contains(x),
    decreases l.len(),
{
    if l.len() > 0 {
        lemma_add_formats_membership(s, l.drop_last());
        lemma_insert_format_membership(spec_add_formats(s, l.drop_last()), l.last());
        assert forall|x: TextFormats|
            spec_add_formats(s, l).contains(x) <==> s.contains(x) || l.contains(x) by {
            if l.contains(x) {
                let i = choose|i: int| 0 <= i < l.len() && l[i] == x;
                if i < l.len() - 1 {
                    assert(l.drop_last()[i] == x);
                    assert(l.drop_last().contains(x));
                }
            }
            if l.drop_last().contains(x) {
                let i = choose|i: int| 0 <= i < l.drop_last().len() && l.drop_last()[i] == x;
                assert(l[i] == x);
            }
            if x == l.last() {
                assert(l[l.len() - 1] == x);
            }
        }
    }
}

/// Adding formats that are all already present changes nothing.
proof fn lemma_add_formats_noop(t: Seq<TextFormats>, l: Seq<TextFormats>)
    requires
        forall|i: int| 0 <= i < l.len() ==> t.contains(#[trigger] l[i]),
    ensures
        spec_add_formats(t, l) == t,
    decreases l.len(),
{
    if l.len() > 0 {
        assert(forall|i: int| 0 <= i < l.drop_last().len() ==> l.drop_last()[i] == #[trigger] l[i]);
        lemma_add_formats_noop(t, l.drop_last());
        assert(t.contains(l[l.len() - 1]));
    }
}

/// Adding the same format list twice leaves exactly what one addition
/// leaves.
pub proof fn lemma_add_formats_idempotent(s: Seq<TextFormats>, l: Seq<TextFormats>)
    ensures
        spec_add_formats(spec_add_formats(s, l), l) == spec_add_formats(s, l),
{
    let once = spec_add_formats(s, l);
    lemma_add_formats_membership(s, l);
    assert forall|i: int| 0 <= i < l.len() implies once.contains(#[trigger] l[i]) by {
        assert(l.contains(l[i]));
    }
    lemma_add_formats_noop(once, l);
}

/// The value the last token naming a data-output flag requests, if any
/// token names it.
pub open spec fn last_data_effect(tokens: Seq<Seq<char>>, f: DataField) -> Option<bool>
    decreases tokens.len(),
{
    if tokens.len() == 0 {
        None
    } else {
        match data_token_of(tokens.last()) {
            Some((g, v)) => if g == f {
                Some(v)
            } else {
                last_data_effect(tokens.drop_last(), f)
            },
            None => last_data_effect(tokens.drop_last(), f),
        }
    }
}

/// Applying data tokens leaves each flag at the last value requested for
/// it, and untouched if no token names it.
pub proof fn lemma_apply_data_tokens_pointwise(
    d: DataOptions,
    tokens: Seq<Seq<char>>,
    f: DataField,
)
    ensures
        data_field_of(apply_data_tokens(d, tokens), f) == match last_data_effect(tokens, f) {
            Some(v) => Some(v),
            None => data_field_of(d, f),
        },
    decreases tokens.len(),
{
    if tokens.len() > 0 {
        lemma_apply_data_tokens_pointwise(d, tokens.drop_last(), f);
    }
}

/// Applying the same data-option token list twice leaves exactly what one
/// application leaves.
pub proof fn lemma_apply_data_tokens_idempotent(d: DataOptions, tokens: Seq<Seq<char>>)
    ensures
        apply_data_tokens(apply_data_tokens(d, tokens), tokens) == apply_data_tokens(d, tokens),
{
    let once = apply_data_tokens(d, tokens);
    let twice = apply_data_tokens(once, tokens);
    assert forall|f: DataField| data_field_of(twice, f) == data_field_of(once, f) by {
        lemma_apply_data_tokens_pointwise(d, tokens, f);
        lemma_apply_data_tokens_pointwise(once, tokens, f);
    }
    assert(data_field_of(twice, DataField::Svg) == data_field_of(once, DataField::Svg));
    assert(data_field_of(twice, DataField::TableHtml) == data_field_of(once, DataField::TableHtml));
    assert(data_field_of(twice, DataField::Latex) == data_field_of(once, DataField::Latex));
    assert(data_field_of(twice, DataField::Tsv) == data_field_of(once, DataField::Tsv));
    assert(data_field_of(twice, DataField::Asciimath) == data_field_of(once, DataField::Asciimath));
    assert(data_field_of(twice, DataField::Mathml) == data_field_of(once, DataField::Mathml));
}

/// Storing the same valid value twice through a plain setter leaves the
/// record exactly as one call does, shown here for a boolean flag and for
/// a validated threshold.
pub proof fn lemma_text_setter_idempotent(o: TextOptions, val: bool, millionths: u64)
    ensures
        (TextOptions { include_line_data: Some(val), ..(TextOptions {
            include_line_data: Some(val),
            ..o
        }) }) == (TextOptions { include_line_data: Some(val), ..o }),
        (TextOptions { confidence_threshold: Some(
            BoundedFraction::spec_construct(millionths)->Ok_0,
        ), ..(TextOptions {
            confidence_threshold: Some(BoundedFraction::spec_construct(millionths)->Ok_0),
            ..o
        }) }) == (TextOptions { confidence_threshold: Some(
            BoundedFraction::spec_construct(millionths)->Ok_0,
        ), ..o }),
{
}

} // verus!
