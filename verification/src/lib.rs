//! Client-side request construction for the Mathpix OCR service.
//!
//! The crate validates loosely-typed user input (strings, booleans, numbers)
//! into internally consistent, serializable configuration records, models the
//! source of a request (an inline-encoded image or a remote URL), and
//! assembles one serializable request body plus an authentication header per
//! remote endpoint. Transport is left to the caller: every function here is a
//! pure value computation.

use vstd::prelude::*;

pub mod alphabets;
pub mod endpoint;
pub mod error;
pub mod header;
pub mod fraction;
pub mod json;
pub mod latex;
pub mod pdf;
pub mod request;
pub mod shared;
pub mod source;
pub mod strokes;
pub mod strutil;
pub mod text;

verus! {

/// Common part of the URL for all the API endpoints.
pub fn mathpix_api_url() -> (r: String)
    ensures
        r@ == "https://api.mathpix.com/v3/"@,
{
    "https://api.mathpix.com/v3/".to_owned()
}


} // verus!
