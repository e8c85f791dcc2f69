//! One request to any endpoint: a body tagged by endpoint kind, paired
//! with the authentication header, and the URL the pair is posted to.

use crate::endpoint::{ApiRequest, MathpixEndpoint};
use crate::header::AuthHeader;
use crate::json::{lemma_obj_view_pointwise, JVal, JsonValue};
use crate::latex::LaTeX;
use crate::pdf::PDF;
use crate::strokes::Strokes;
use crate::text::Text;
use vstd::prelude::*;
use vstd::string::StringExecFns;

verus! {

/// A request to the batch endpoint, which processes several images in one
/// call. The service's batch parameters are not modeled yet, so the body
/// is empty.
#[derive(Debug, Clone, Copy, PartialEq, Eq, Structural, Default)]
pub struct BatchBody {}

impl MathpixEndpoint for BatchBody {
    /// The batch endpoint's path suffix.
    open spec fn spec_url_path(&self) -> Seq<char> {
        "batch"@
    }

    /// The body: an empty object.
    open spec fn spec_body(&self, src_bytes: Seq<u8>) -> JVal {
        JVal::Obj(Seq::empty())
    }

    fn url_path(&self) -> (r: String) {
        "batch".to_owned()
    }

    fn to_request_body(&self, src_bytes: &Vec<u8>) -> (r: JsonValue) {
        let fields: Vec<(String, JsonValue)> = Vec::new();
        let r = JsonValue::Obj(fields);
        proof {
            lemma_obj_view_pointwise(r->Obj_0@);
            assert(r@->Obj_0 =~~= Seq::<(Seq<char>, JVal)>::empty());
        }
        r
    }
}

/// The body of a request to any endpoint.
#[derive(Debug)]
pub enum Body {
    /// text endpoint variant
    Text(Text),
    /// pdf endpoint variant
    PDF(PDF),
    /// strokes endpoint variant
    Strokes(Strokes),
    /// batch endpoint variant
    Batch(BatchBody),
    /// latex endpoint variant
    LaTeX(LaTeX),
}

impl Body {
    /// The path suffix of the body's endpoint.
    pub open spec fn spec_url_path(&self) -> Seq<char> {
        match self {
            Body::Text(t) => t.spec_url_path(),
            Body::PDF(p) => p.spec_url_path(),
            Body::Strokes(s) => s.spec_url_path(),
            Body::Batch(b) => b.spec_url_path(),
            Body::LaTeX(l) => l.spec_url_path(),
        }
    }

    /// The serialized body, as a function of the inline source's bytes.
    pub open spec fn spec_body(&self, src_bytes: Seq<u8>) -> JVal {
        match self {
            Body::Text(t) => t.spec_body(src_bytes),
            Body::PDF(p) => p.spec_body(src_bytes),
            Body::Strokes(s) => s.spec_body(src_bytes),
            Body::Batch(b) => b.spec_body(src_bytes),
            Body::LaTeX(l) => l.spec_body(src_bytes),
        }
    }

    /// Renders the path suffix of the body's endpoint.
    pub fn url_path(&self) -> (r: String)
        ensures
            r@ == self.spec_url_path(),
    {
        match self {
            Body::Text(t) => t.url_path(),
            Body::PDF(p) => p.url_path(),
            Body::Strokes(s) => s.url_path(),
            Body::Batch(b) => b.url_path(),
            Body::LaTeX(l) => l.url_path(),
        }
    }

    /// Serializes the request body.
    pub fn to_request_body(&self, src_bytes: &Vec<u8>) -> (r: JsonValue)
        ensures
            r@ == self.spec_body(src_bytes@),
    {
        match self {
            Body::Text(t) => t.to_request_body(src_bytes),
            Body::PDF(p) => p.to_request_body(src_bytes),
            Body::Strokes(s) => s.to_request_body(src_bytes),
            Body::Batch(b) => b.to_request_body(src_bytes),
            Body::LaTeX(l) => l.to_request_body(src_bytes),
        }
    }
}

/// One request: the authentication header and the endpoint body.
#[derive(Debug)]
pub struct Request {
    pub header: AuthHeader,
    pub body: Body,
}

impl Request {
    /// The URL that is appropriate for the endpoint: the common base
    /// followed by the body's path suffix. The pdf endpoint selects
    /// between its URL-based and its file-upload path by its source.
    pub fn url(&self) -> (r: String)
        ensures
            r@ == "https://api.mathpix.com/v3/"@ + self.body.spec_url_path(),
    {
        let mut u = crate::mathpix_api_url();
        let p = self.body.url_path();
        u.append(p.as_str());
        u
    }

    /// Assembles the finished request: the endpoint URL, the header
    /// entries, and the serialized body.
    pub fn to_request(&self, src_bytes: &Vec<u8>) -> (r: ApiRequest)
        ensures
            r.url@ == "https://api.mathpix.com/v3/"@ + self.body.spec_url_path(),
            r.headers.deep_view() == crate::header::header_entries_model(
                self.header.app_id@,
                self.header.app_key@,
            ),
            r.body@ == self.body.spec_body(src_bytes@),
    {
        ApiRequest {
            url: self.url(),
            headers: self.header.header_entries(),
            body: self.body.to_request_body(src_bytes),
        }
    }
}

} // verus!
