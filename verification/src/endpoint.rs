//! The contract every endpoint implements: produce the endpoint's URL, its
//! serializable request body, and the finished request with the
//! authentication header attached.

use crate::header::{header_entries_model, AuthHeader};
use crate::json::{JVal, JsonValue};
use vstd::prelude::*;
use vstd::string::StringExecFns;

verus! {

/// A finished request: the endpoint URL, the authentication header
/// entries, and the serializable body. Sending it is the caller's concern.
#[derive(Debug)]
pub struct ApiRequest {
    pub url: String,
    pub headers: Vec<(String, String)>,
    pub body: JsonValue,
}

/// The interface of one remote operation. An implementation fixes the
/// endpoint's URL path and says exactly which JSON document its request
/// body is, as a function of the value and of the bytes of its inline
/// source, if it has one.
pub trait MathpixEndpoint: Sized {
    /// The path suffix that selects the endpoint under the common base URL.
    /// It may depend on the value: a document endpoint can select an
    /// upload path when its source is a local file.
    spec fn spec_url_path(&self) -> Seq<char>;

    /// The request body, as a function of the value and of the inline
    /// source's bytes. A value without an inline source ignores the bytes.
    spec fn spec_body(&self, src_bytes: Seq<u8>) -> JVal;

    /// Renders the endpoint's path suffix.
    fn url_path(&self) -> (r: String)
        ensures
            r@ == self.spec_url_path(),
    ;

    /// Serializes the request body. `src_bytes` is the content of the
    /// inline source's file, read by the caller; a value without an inline
    /// source ignores it.
    fn to_request_body(&self, src_bytes: &Vec<u8>) -> (r: JsonValue)
        ensures
            r@ == self.spec_body(src_bytes@),
    ;

    /// The full URL of the endpoint: the common base followed by the
    /// endpoint's path suffix.
    fn url(&self) -> (r: String)
        ensures
            r@ == "https://api.mathpix.com/v3/"@ + self.spec_url_path(),
    {
        let mut u = crate::mathpix_api_url();
        let p = self.url_path();
        u.append(p.as_str());
        u
    }

    /// Assembles the finished request: the endpoint URL, the header
    /// entries of the given credentials, and the serialized body.
    fn to_request(&self, header: &AuthHeader, src_bytes: &Vec<u8>) -> (r: ApiRequest)
        ensures
            r.url@ == "https://api.mathpix.com/v3/"@ + self.spec_url_path(),
            r.headers.deep_view() == header_entries_model(header.app_id@, header.app_key@),
            r.body@ == self.spec_body(src_bytes@),
    {
        ApiRequest {
            url: self.url(),
            headers: header.header_entries(),
            body: self.to_request_body(src_bytes),
        }
    }
}

} // verus!
