//! The configuration record of the strokes endpoint: handwriting
//! recognition from stroke coordinates rather than an image.

use crate::endpoint::MathpixEndpoint;
use crate::json::{
    clone_json, lemma_arr_view_pointwise, lemma_obj_view_pointwise, obj_view, JVal, JsonValue,
};
use crate::shared::{DataOptions, MetaData};
use crate::text::{opt_data_options_json, opt_data_options_model, opt_metadata_json,
    opt_metadata_model};
use vstd::prelude::*;
use vstd::string::StringExecFns;

verus! {

/// An output format of the strokes endpoint.
#[derive(Debug, Clone, Copy, PartialEq, Eq, Structural)]
pub enum StrokesFormats {
    /// Mathpix markdown formatted text
    Text,
    /// HTML rendered from `text`
    Html,
    /// Data extracted from `html` as the data options specify
    Data,
}

impl StrokesFormats {
    /// The wire name of the format.
    pub open spec fn spec_str(self) -> Seq<char> {
        match self {
            StrokesFormats::Text => "text"@,
            StrokesFormats::Html => "html"@,
            StrokesFormats::Data => "data"@,
        }
    }

    /// Renders the wire name of the format.
    pub fn as_str(&self) -> (r: &'static str)
        ensures
            r@ == self.spec_str(),
    {
        match self {
            StrokesFormats::Text => "text",
            StrokesFormats::Html => "html",
            StrokesFormats::Data => "data",
        }
    }
}

/// The validated configuration record of the strokes endpoint.
#[derive(Debug, Clone, PartialEq)]
pub struct StrokesOptions {
    /// Key value object
    pub metadata: Option<MetaData>,
    /// Output formats, one of text, html, data
    pub formats: Option<Vec<StrokesFormats>>,
    /// Outputs for the `data` and `html` return fields
    pub data_options: Option<DataOptions>,
}

/// The models of a strokes format list's elements.
pub open spec fn strokes_formats_arr_model(s: Seq<StrokesFormats>) -> Seq<JVal> {
    Seq::new(s.len(), |i: int| JVal::Str(s[i].spec_str()))
}

/// The serialized form of the optional strokes format list.
pub open spec fn opt_strokes_formats_model(f: Option<Vec<StrokesFormats>>) -> JVal {
    match f {
        None => JVal::Null,
        Some(v) => JVal::Arr(strokes_formats_arr_model(v@)),
    }
}

/// Serializes the optional strokes format list.
pub fn opt_strokes_formats_json(f: &Option<Vec<StrokesFormats>>) -> (r: JsonValue)
    ensures
        r@ == opt_strokes_formats_model(*f),
{
    match f {
        None => JsonValue::Null,
        Some(v) => {
            let mut items: Vec<JsonValue> = Vec::new();
            let mut i: usize = 0;
            while i < v.len()
                invariant
                    i <= v.len(),
                    items@.len() == i,
                    forall|k: int| 0 <= k < i ==> items@[k]@ == JVal::Str(v@[k].spec_str()),
                decreases v.len() - i,
            {
                items.push(JsonValue::Str(v[i].as_str().to_owned()));
                i += 1;
            }
            let r = JsonValue::Arr(items);
            proof {
                lemma_arr_view_pointwise(r->Arr_0@);
                assert(r@->Arr_0 =~~= strokes_formats_arr_model(v@));
            }
            r
        },
    }
}

impl StrokesOptions {
    /// Every field unset: what the service's own defaults leave in force.
    pub open spec fn spec_default() -> StrokesOptions {
        StrokesOptions { metadata: None, formats: None, data_options: None }
    }

    /// A fresh record with every field unset.
    pub fn new() -> (r: StrokesOptions)
        ensures
            r == Self::spec_default(),
    {
        StrokesOptions { metadata: None, formats: None, data_options: None }
    }

    /// The serialized fields of the record, in a fixed key order.
    pub open spec fn fields_model(self) -> Seq<(Seq<char>, JVal)> {
        seq![
            ("metadata"@, opt_metadata_model(self.metadata)),
            ("formats"@, opt_strokes_formats_model(self.formats)),
            ("data_options"@, opt_data_options_model(self.data_options)),
        ]
    }

    /// Serializes the fields of the record, for embedding in a request
    /// body.
    pub fn json_fields(&self) -> (r: Vec<(String, JsonValue)>)
        ensures
            obj_view(r@) == self.fields_model(),
    {
        let mut fields: Vec<(String, JsonValue)> = Vec::new();
        fields.push(("metadata".to_owned(), opt_metadata_json(&self.metadata)));
        fields.push(("formats".to_owned(), opt_strokes_formats_json(&self.formats)));
        fields.push(("data_options".to_owned(), opt_data_options_json(&self.data_options)));
        proof {
            lemma_obj_view_pointwise(fields@);
            assert(obj_view(fields@) =~~= self.fields_model());
        }
        fields
    }
}

impl Default for StrokesOptions {
    /// A fresh record with every field unset.
    fn default() -> (r: Self)
        ensures
            r == Self::spec_default(),
    {
        Self::new()
    }
}

/// A second name for the strokes configuration record, used where the
/// request body is named rather than the endpoint.
pub type StrokesBodyOptions = StrokesOptions;

/// A request to the strokes endpoint: the strokes document (a JSON value
/// of stroke coordinates) and the validated configuration record.
#[derive(Debug)]
pub struct Strokes {
    /// Strokes in JSON with the appropriate format
    pub src: JsonValue,
    /// Configuration options for the strokes endpoint
    pub options: StrokesOptions,
}

impl Strokes {
    /// Builds a strokes request from a strokes document and optional
    /// configuration; an absent configuration means the service's own
    /// defaults.
    pub fn new(options: Option<StrokesOptions>, src: JsonValue) -> (r: Strokes)
        ensures
            r.src@ == src@,
            r.options == match options {
                Some(o) => o,
                None => StrokesOptions::spec_default(),
            },
    {
        let opts = match options {
            Some(o) => o,
            None => StrokesOptions::new(),
        };
        Strokes { src, options: opts }
    }
}

impl MathpixEndpoint for Strokes {
    /// The strokes endpoint's path suffix.
    open spec fn spec_url_path(&self) -> Seq<char> {
        "strokes"@
    }

    /// The body: the strokes document under `src`, with the configuration
    /// record's fields flattened into the same object.
    open spec fn spec_body(&self, src_bytes: Seq<u8>) -> JVal {
        JVal::Obj(seq![("src"@, self.src@)] + self.options.fields_model())
    }

    fn url_path(&self) -> (r: String) {
        "strokes".to_owned()
    }

    fn to_request_body(&self, src_bytes: &Vec<u8>) -> (r: JsonValue) {
        let mut fields: Vec<(String, JsonValue)> = Vec::new();
        fields.push(("src".to_owned(), clone_json(&self.src)));
        let mut rest = self.options.json_fields();
        proof {
            lemma_obj_view_pointwise(rest@);
        }
        fields.append(&mut rest);
        let r = JsonValue::Obj(fields);
        proof {
            lemma_obj_view_pointwise(r->Obj_0@);
            assert(r@->Obj_0 =~~= self.spec_body(src_bytes@)->Obj_0);
        }
        r
    }
}

} // verus!
