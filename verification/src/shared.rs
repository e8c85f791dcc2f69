//! Request objects shared by several endpoints: the metadata record, the
//! data-output options, and the callback descriptor.

use crate::json::{opt_bool_json, opt_bool_model, opt_str_model, opt_string_json, JVal, JsonValue,
    lemma_obj_view_pointwise};
use vstd::prelude::*;

verus! {

/// Key-value metadata attached to a request. The service documents no
/// fields, so the record is empty and serializes as an empty object.
#[derive(Debug, Clone, Copy, PartialEq, Eq, Structural)]
pub struct MetaData {}

impl MetaData {
    /// The serialized form: an empty JSON object.
    pub open spec fn json_model(self) -> JVal {
        JVal::Obj(Seq::empty())
    }

    /// Serializes the metadata record.
    pub fn to_json(&self) -> (r: JsonValue)
        ensures
            r@ == self.json_model(),
    {
        let fields: Vec<(String, JsonValue)> = Vec::new();
        let r = JsonValue::Obj(fields);
        proof {
            lemma_obj_view_pointwise(r->Obj_0@);
            assert(r@->Obj_0 =~~= self.json_model()->Obj_0);
        }
        r
    }
}

/// Which derived outputs the service should include in the `data` and
/// `html` return fields. Each field is tri-state: unset fields serialize as
/// null and leave the service's own default in force.
#[derive(Debug, Clone, Copy, PartialEq, Eq)]
pub struct DataOptions {
    /// Include math SVG in `html` and `data` formats
    pub include_svg: Option<bool>,
    /// Include HTML for `html` and `data` outputs (tables only)
    pub include_table_html: Option<bool>,
    /// Include math mode latex in `data` and `html`
    pub include_latex: Option<bool>,
    /// Include tab separated values (TSV) in `data` and `html` outputs
    /// (tables only)
    pub include_tsv: Option<bool>,
    /// Include asciimath in `data` and `html` outputs
    pub include_asciimath: Option<bool>,
    /// Include mathml in `data` and `html` outputs
    pub include_mathml: Option<bool>,
}

impl DataOptions {
    /// Every output unset.
    pub open spec fn spec_default() -> DataOptions {
        DataOptions {
            include_svg: None,
            include_table_html: None,
            include_latex: None,
            include_tsv: None,
            include_asciimath: None,
            include_mathml: None,
        }
    }

    /// A fresh record with every output unset.
    pub fn new() -> (r: DataOptions)
        ensures
            r == Self::spec_default(),
    {
        DataOptions {
            include_asciimath: None,
            include_latex: None,
            include_mathml: None,
            include_svg: None,
            include_table_html: None,
            include_tsv: None,
        }
    }

    /// Sets whether asciimath is included.
    pub fn include_asciimath(self, val: bool) -> (r: Self)
        ensures
            r == (DataOptions { include_asciimath: Some(val), ..self }),
    {
        DataOptions { include_asciimath: Some(val), ..self }
    }

    /// Sets whether math-mode latex is included.
    pub fn include_latex(self, val: bool) -> (r: Self)
        ensures
            r == (DataOptions { include_latex: Some(val), ..self }),
    {
        DataOptions { include_latex: Some(val), ..self }
    }

    /// Sets whether mathml is included.
    pub fn include_mathml(self, val: bool) -> (r: Self)
        ensures
            r == (DataOptions { include_mathml: Some(val), ..self }),
    {
        DataOptions { include_mathml: Some(val), ..self }
    }

    /// Sets whether math SVG is included.
    pub fn include_svg(self, val: bool) -> (r: Self)
        ensures
            r == (DataOptions { include_svg: Some(val), ..self }),
    {
        DataOptions { include_svg: Some(val), ..self }
    }

    /// Sets whether table HTML is included.
    pub fn include_table_html(self, val: bool) -> (r: Self)
        ensures
            r == (DataOptions { include_table_html: Some(val), ..self }),
    {
        DataOptions { include_table_html: Some(val), ..self }
    }

    /// Sets whether tab separated values are included.
    pub fn include_tsv(self, val: bool) -> (r: Self)
        ensures
            r == (DataOptions { include_tsv: Some(val), ..self }),
    {
        DataOptions { include_tsv: Some(val), ..self }
    }

    /// The serialized form: one field per output in a fixed key order; each
    /// value is the boolean, or null if unset.
    pub open spec fn json_model(self) -> JVal {
        JVal::Obj(
            seq![
                ("include_svg"@, opt_bool_model(self.include_svg)),
                ("include_table_html"@, opt_bool_model(self.include_table_html)),
                ("include_latex"@, opt_bool_model(self.include_latex)),
                ("include_tsv"@, opt_bool_model(self.include_tsv)),
                ("include_asciimath"@, opt_bool_model(self.include_asciimath)),
                ("include_mathml"@, opt_bool_model(self.include_mathml)),
            ],
        )
    }

    /// Serializes the record as a JSON object.
    pub fn to_json(&self) -> (r: JsonValue)
        ensures
            r@ == self.json_model(),
    {
        let mut fields: Vec<(String, JsonValue)> = Vec::new();
        fields.push(("include_svg".to_owned(), opt_bool_json(&self.include_svg)));
        fields.push(("include_table_html".to_owned(), opt_bool_json(&self.include_table_html)));
        fields.push(("include_latex".to_owned(), opt_bool_json(&self.include_latex)));
        fields.push(("include_tsv".to_owned(), opt_bool_json(&self.include_tsv)));
        fields.push(("include_asciimath".to_owned(), opt_bool_json(&self.include_asciimath)));
        fields.push(("include_mathml".to_owned(), opt_bool_json(&self.include_mathml)));
        let r = JsonValue::Obj(fields);
        proof {
            lemma_obj_view_pointwise(r->Obj_0@);
            assert(r@->Obj_0 =~~= self.json_model()->Obj_0);
        }
        r
    }
}

impl Default for DataOptions {
    /// A fresh record with every output unset.
    fn default() -> (r: Self)
        ensures
            r == Self::spec_default(),
    {
        Self::new()
    }
}

/// Setting any data-output flag twice with the same value leaves the record
/// exactly as one call does.
pub proof fn lemma_data_options_setter_idempotent(o: DataOptions, val: bool)
    ensures
        (DataOptions { include_asciimath: Some(val), ..(DataOptions {
            include_asciimath: Some(val),
            ..o
        }) }) == (DataOptions { include_asciimath: Some(val), ..o }),
        (DataOptions { include_latex: Some(val), ..(DataOptions { include_latex: Some(val), ..o }) })
            == (DataOptions { include_latex: Some(val), ..o }),
        (DataOptions { include_mathml: Some(val), ..(DataOptions {
            include_mathml: Some(val),
            ..o
        }) }) == (DataOptions { include_mathml: Some(val), ..o }),
        (DataOptions { include_svg: Some(val), ..(DataOptions { include_svg: Some(val), ..o }) })
            == (DataOptions { include_svg: Some(val), ..o }),
        (DataOptions { include_table_html: Some(val), ..(DataOptions {
            include_table_html: Some(val),
            ..o
        }) }) == (DataOptions { include_table_html: Some(val), ..o }),
        (DataOptions { include_tsv: Some(val), ..(DataOptions { include_tsv: Some(val), ..o }) })
            == (DataOptions { include_tsv: Some(val), ..o }),
{
}

/// A callback descriptor: where and how the service may post results back.
#[derive(Debug, Clone, PartialEq)]
pub struct CallBack {
    /// URL to which to make POST callback
    pub post: Option<String>,
    /// Key value pairs of headers to make POST
    pub headers: Option<String>,
    /// Sets values of the `reply` field of the callback response object
    pub reply: Option<String>,
}

impl CallBack {
    /// The serialized form: the three fields in a fixed key order; each
    /// value is the string, or null if unset.
    pub open spec fn json_model(self) -> JVal {
        JVal::Obj(
            seq![
                ("post"@, opt_str_model(self.post.deep_view())),
                ("headers"@, opt_str_model(self.headers.deep_view())),
                ("reply"@, opt_str_model(self.reply.deep_view())),
            ],
        )
    }

    /// Serializes the descriptor as a JSON object.
    pub fn to_json(&self) -> (r: JsonValue)
        ensures
            r@ == self.json_model(),
    {
        let mut fields: Vec<(String, JsonValue)> = Vec::new();
        fields.push(("post".to_owned(), opt_string_json(&self.post)));
        fields.push(("headers".to_owned(), opt_string_json(&self.headers)));
        fields.push(("reply".to_owned(), opt_string_json(&self.reply)));
        let r = JsonValue::Obj(fields);
        proof {
            lemma_obj_view_pointwise(r->Obj_0@);
            assert(r@->Obj_0 =~~= self.json_model()->Obj_0);
        }
        r
    }
}

} // verus!
