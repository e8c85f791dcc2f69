//! The pdf endpoint: document processing from a remote URL or a local
//! file. The source variant selects between the two endpoint paths.

use crate::endpoint::MathpixEndpoint;
use crate::json::{lemma_obj_view_pointwise, JVal, JsonValue};
use crate::source::{extension_of, spec_extension, spec_lower, to_lower};
use crate::strutil::str_eq;
use vstd::prelude::*;

verus! {

/// A checked pdf file path: its extension, case-insensitively, is `pdf`.
#[derive(Debug, Clone, PartialEq)]
pub struct PDFPath {
    pub pdf_path: String,
}

impl PDFPath {
    /// A path passes the check exactly when it has an extension that
    /// lowercases to `pdf`.
    pub open spec fn path_ok(path: Seq<char>) -> bool {
        match spec_extension(path) {
            Some(e) => spec_lower(e) == "pdf"@,
            None => false,
        }
    }

    /// Checks a pdf file path. A path with no extension fails, naming the
    /// missing extension; a path whose extension is not `pdf` fails as an
    /// unsupported file type; every path with a `pdf` extension succeeds.
    pub fn new(path: String) -> (r: Result<PDFPath, String>)
        ensures
            match r {
                Ok(p) => Self::path_ok(path@) && p.pdf_path@ == path@,
                Err(e) => {
                    &&& !Self::path_ok(path@)
                    &&& if spec_extension(path@) is None {
                        e@ == "Extension not found of no file passed"@
                    } else {
                        e@ == "Unsupported filetype. Must be a PDF file."@
                    }
                },
            },
    {
        match extension_of(path.as_str()) {
            Some(ext) => {
                let lower = to_lower(ext.as_str());
                if str_eq(&lower, "pdf") {
                    Ok(PDFPath { pdf_path: path })
                } else {
                    Err("Unsupported filetype. Must be a PDF file.".to_owned())
                }
            },
            None => Err("Extension not found of no file passed".to_owned()),
        }
    }
}

/// The source of a pdf request: a URL the service downloads from, or a
/// local file the caller uploads.
#[derive(Debug, Clone, PartialEq)]
pub enum PDFSrc {
    /// HTTP URL where the PDF can be downloaded from
    Url(String),
    /// Path of a local PDF file
    Path(PDFPath),
}

/// The configuration record of the pdf endpoint. The service documents no
/// options for it, so the record is empty.
#[derive(Debug, Clone, Copy, PartialEq, Eq, Structural, Default)]
pub struct PDFBodyOptions {}

/// A request to the pdf endpoint: the document source and the (empty)
/// configuration record.
#[derive(Debug, Clone, PartialEq)]
pub struct PDF {
    /// Source of the PDF
    pub src: PDFSrc,
    /// Configuration options for the pdf endpoint
    pub options: PDFBodyOptions,
}

impl PDF {
    /// Builds a pdf request from a source.
    pub fn new(src: PDFSrc) -> (r: PDF)
        ensures
            r.src == src,
    {
        PDF { src, options: PDFBodyOptions {  } }
    }
}

impl MathpixEndpoint for PDF {
    /// The pdf endpoint's path suffix: the URL-based path for a remote
    /// source, the upload path for a local file.
    open spec fn spec_url_path(&self) -> Seq<char> {
        match self.src {
            PDFSrc::Url(_) => "pdf"@,
            PDFSrc::Path(_) => "pdf-file"@,
        }
    }

    /// The body: the URL under `url` for a remote source; an empty object
    /// for a local file, whose bytes travel outside the JSON body.
    open spec fn spec_body(&self, src_bytes: Seq<u8>) -> JVal {
        match self.src {
            PDFSrc::Url(u) => JVal::Obj(seq![("url"@, JVal::Str(u@))]),
            PDFSrc::Path(_) => JVal::Obj(Seq::empty()),
        }
    }

    fn url_path(&self) -> (r: String) {
        match &self.src {
            PDFSrc::Url(_) => "pdf".to_owned(),
            PDFSrc::Path(_) => "pdf-file".to_owned(),
        }
    }

    fn to_request_body(&self, src_bytes: &Vec<u8>) -> (r: JsonValue) {
        let mut fields: Vec<(String, JsonValue)> = Vec::new();
        match &self.src {
            PDFSrc::Url(u) => {
                fields.push(("url".to_owned(), JsonValue::Str(u.clone())));
            },
            PDFSrc::Path(_) => {},
        }
        let r = JsonValue::Obj(fields);
        proof {
            lemma_obj_view_pointwise(r->Obj_0@);
            assert(r@->Obj_0 =~~= self.spec_body(src_bytes@)->Obj_0);
        }
        r
    }
}

} // verus!
