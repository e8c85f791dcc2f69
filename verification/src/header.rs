//! The authentication header of a request.
//!
//! The service expects three fixed headers on every request: the content
//! type and the caller's application id and key. This module only assembles
//! their names and values; turning them into transport-level header objects
//! is the caller's concern.

use vstd::prelude::*;

verus! {

/// The application id and key that authenticate a request.
#[derive(Debug, Clone, PartialEq)]
pub struct AuthHeader {
    pub app_id: String,
    pub app_key: String,
}

/// The three header entries a credential pair produces, in order: the JSON
/// content type, the application id, and the application key.
pub open spec fn header_entries_model(app_id: Seq<char>, app_key: Seq<char>) -> Seq<
    (Seq<char>, Seq<char>),
> {
    seq![
        ("content-type"@, "application/json"@),
        ("app_id"@, app_id),
        ("app_key"@, app_key),
    ]
}

impl AuthHeader {
    /// Builds the header from an application id and key.
    pub fn new(id: &str, key: &str) -> (r: AuthHeader)
        ensures
            r.app_id@ == id@,
            r.app_key@ == key@,
    {
        AuthHeader { app_id: id.to_owned(), app_key: key.to_owned() }
    }

    /// The three header entries of a request, in a fixed order.
    pub fn header_entries(&self) -> (r: Vec<(String, String)>)
        ensures
            r.deep_view() == header_entries_model(self.app_id@, self.app_key@),
    {
        let mut entries: Vec<(String, String)> = Vec::new();
        entries.push(("content-type".to_owned(), "application/json".to_owned()));
        entries.push(("app_id".to_owned(), self.app_id.clone()));
        entries.push(("app_key".to_owned(), self.app_key.clone()));
        proof {
            assert(entries.deep_view() =~~= header_entries_model(self.app_id@, self.app_key@));
        }
        entries
    }
}

/// A second name for the authentication header, for callers that address
/// the service by name.
pub type MathpixHeader = AuthHeader;

} // verus!
