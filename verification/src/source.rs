//! The source of a request: an inline-encoded image or a remote URL.
//!
//! An inline image is named by its file path. The media type is resolved
//! once, at construction, from the path's extension (case-insensitively) and
//! never re-derived; the file's bytes are read by the caller only when the
//! request is serialized, and are handed to [`Base64Image::data_uri`] as a
//! plain byte vector.

use crate::json::{JVal, JsonValue};
use crate::strutil::str_eq;
use vstd::prelude::*;
use vstd::string::StrSliceExecFns;
use vstd::string::StringExecFns;

verus! {

/// The index of the last occurrence of c in s, or -1 if c does not occur.
pub open spec fn spec_last_index_of(s: Seq<char>, c: char) -> int
    decreases s.len(),
{
    if s.len() == 0 {
        -1
    } else if s.last() == c {
        s.len() - 1
    } else {
        spec_last_index_of(s.drop_last(), c)
    }
}

/// The last occurrence index is the greatest index holding c, and is -1
/// exactly when c does not occur.
pub proof fn lemma_last_index_of(s: Seq<char>, c: char)
    ensures
        -1 <= spec_last_index_of(s, c) < s.len(),
        spec_last_index_of(s, c) >= 0 ==> {
            &&& s[spec_last_index_of(s, c)] == c
            &&& forall|k: int| spec_last_index_of(s, c) < k < s.len() ==> s[k] != c
        },
        spec_last_index_of(s, c) == -1 ==> forall|k: int| 0 <= k < s.len() ==> s[k] != c,
    decreases s.len(),
{
    if s.len() > 0 && s.last() != c {
        lemma_last_index_of(s.drop_last(), c);
        let r = spec_last_index_of(s, c);
        assert(r == spec_last_index_of(s.drop_last(), c));
        if r >= 0 {
            assert(s.drop_last()[r] == c);
            assert forall|k: int| r < k < s.len() implies s[k] != c by {
                if k < s.len() - 1 {
                    assert(s.drop_last()[k] != c);
                    assert(s[k] == s.drop_last()[k]);
                }
            }
        } else {
            assert forall|k: int| 0 <= k < s.len() implies s[k] != c by {
                if k < s.len() - 1 {
                    assert(s.drop_last()[k] != c);
                    assert(s[k] == s.drop_last()[k]);
                }
            }
        }
    }
}

/// The file-name part of a path: everything after the last slash, or the
/// whole path if it has none.
pub open spec fn spec_file_name(path: Seq<char>) -> Seq<char> {
    path.subrange(spec_last_index_of(path, '/') + 1, path.len() as int)
}

/// The extension of a path: what follows the last dot of its file name.
/// A file name with no dot, or whose only dot starts it, has none.
pub open spec fn spec_extension(path: Seq<char>) -> Option<Seq<char>> {
    let f = spec_file_name(path);
    let d = spec_last_index_of(f, '.');
    if d >= 1 {
        Some(f.subrange(d + 1, f.len() as int))
    } else {
        None
    }
}

/// Finds the last occurrence of c in s.
fn find_last(s: &str, c: char) -> (r: Option<usize>)
    ensures
        spec_last_index_of(s@, c) >= 0 ==> r == Some(spec_last_index_of(s@, c) as usize),
        spec_last_index_of(s@, c) < 0 ==> r is None,
{
    let n = s.unicode_len();
    proof {
        lemma_last_index_of(s@, c);
    }
    let mut j = n;
    while j > 0
        invariant
            j <= n,
            n == s@.len(),
            forall|k: int| j <= k < n ==> s@[k] != c,
        decreases j,
    {
        if s.get_char(j - 1) == c {
            proof {
                lemma_last_index_of(s@, c);
                let r0 = spec_last_index_of(s@, c);
                if r0 < j - 1 {
                    assert(s@[j - 1] != c);
                }
            }
            return Some(j - 1);
        }
        j -= 1;
    }
    proof {
        lemma_last_index_of(s@, c);
    }
    None
}

/// Resolves the extension of a path, as [`spec_extension`] defines it.
pub fn extension_of(path: &str) -> (r: Option<String>)
    ensures
        match r {
            Some(e) => spec_extension(path@) == Some(e@),
            None => spec_extension(path@) is None,
        },
{
    let n = path.unicode_len();
    proof {
        lemma_last_index_of(path@, '/');
    }
    let start: usize = match find_last(path, '/') {
        Some(j) => j + 1,
        None => 0,
    };
    let fname = path.substring_char(start, n);
    proof {
        assert(fname@ == spec_file_name(path@));
    }
    let flen = fname.unicode_len();
    proof {
        lemma_last_index_of(fname@, '.');
    }
    match find_last(fname, '.') {
        Some(d) => {
            if d >= 1 {
                let e = fname.substring_char(d + 1, flen);
                Some(e.to_owned())
            } else {
                None
            }
        },
        None => None,
    }
}

/// The lowercase form of one character: ASCII letters are folded, every
/// other character stands for itself.
pub open spec fn spec_lower_char(c: char) -> char {
    if c == 'A' {
        'a'
    } else if c == 'B' {
        'b'
    } else if c == 'C' {
        'c'
    } else if c == 'D' {
        'd'
    } else if c == 'E' {
        'e'
    } else if c == 'F' {
        'f'
    } else if c == 'G' {
        'g'
    } else if c == 'H' {
        'h'
    } else if c == 'I' {
        'i'
    } else if c == 'J' {
        'j'
    } else if c == 'K' {
        'k'
    } else if c == 'L' {
        'l'
    } else if c == 'M' {
        'm'
    } else if c == 'N' {
        'n'
    } else if c == 'O' {
        'o'
    } else if c == 'P' {
        'p'
    } else if c == 'Q' {
        'q'
    } else if c == 'R' {
        'r'
    } else if c == 'S' {
        's'
    } else if c == 'T' {
        't'
    } else if c == 'U' {
        'u'
    } else if c == 'V' {
        'v'
    } else if c == 'W' {
        'w'
    } else if c == 'X' {
        'x'
    } else if c == 'Y' {
        'y'
    } else if c == 'Z' {
        'z'
    } else {
        c
    }
}

/// The ASCII-lowercase folding of a character sequence.
pub open spec fn spec_lower(s: Seq<char>) -> Seq<char> {
    Seq::new(s.len(), |i: int| spec_lower_char(s[i]))
}

/// Folds one character to lowercase.
fn lower_char(c: char) -> (r: char)
    ensures
        r == spec_lower_char(c),
{
    match c {
        'A' => 'a',
        'B' => 'b',
        'C' => 'c',
        'D' => 'd',
        'E' => 'e',
        'F' => 'f',
        'G' => 'g',
        'H' => 'h',
        'I' => 'i',
        'J' => 'j',
        'K' => 'k',
        'L' => 'l',
        'M' => 'm',
        'N' => 'n',
        'O' => 'o',
        'P' => 'p',
        'Q' => 'q',
        'R' => 'r',
        'S' => 's',
        'T' => 't',
        'U' => 'u',
        'V' => 'v',
        'W' => 'w',
        'X' => 'x',
        'Y' => 'y',
        'Z' => 'z',
        _ => c,
    }
}

/// Folds a string to ASCII lowercase.
pub fn to_lower(s: &str) -> (r: String)
    ensures
        r@ == spec_lower(s@),
{
    let n = s.unicode_len();
    let mut out = String::new();
    let mut i: usize = 0;
    while i < n
        invariant
            i <= n,
            n == s@.len(),
            out@ =~= spec_lower(s@).take(i as int),
        decreases n - i,
    {
        out.push(lower_char(s.get_char(i)));
        i += 1;
    }
    proof {
        assert(spec_lower(s@).take(n as int) =~= spec_lower(s@));
    }
    out
}

/// The media type of an inline image: one of the two image formats the
/// service accepts.
#[derive(Debug, Clone, Copy, PartialEq, Eq, Structural)]
pub enum ImageMime {
    Jpeg,
    Png,
}

impl ImageMime {
    /// The wire name of the media type.
    pub open spec fn spec_str(self) -> Seq<char> {
        match self {
            ImageMime::Jpeg => "image/jpeg"@,
            ImageMime::Png => "image/png"@,
        }
    }

    /// Renders the wire name of the media type.
    pub fn as_str(&self) -> (r: &'static str)
        ensures
            r@ == self.spec_str(),
    {
        match self {
            ImageMime::Jpeg => "image/jpeg",
            ImageMime::Png => "image/png",
        }
    }
}

/// The media type a lowercased extension resolves to, if any: the JPEG
/// family of extensions or png.
pub open spec fn spec_mime_for(ext_lower: Seq<char>) -> Option<ImageMime> {
    if ext_lower == "jpg"@ || ext_lower == "jpeg"@ || ext_lower == "jpe"@ || ext_lower == "jif"@
        || ext_lower == "jfif"@ || ext_lower == "jfi"@ {
        Some(ImageMime::Jpeg)
    } else if ext_lower == "png"@ {
        Some(ImageMime::Png)
    } else {
        None
    }
}

/// Resolves a lowercased extension to a media type.
fn mime_for(ext_lower: &String) -> (r: Option<ImageMime>)
    ensures
        r == spec_mime_for(ext_lower@),
{
    if str_eq(ext_lower, "jpg") || str_eq(ext_lower, "jpeg") || str_eq(ext_lower, "jpe") || str_eq(
        ext_lower,
        "jif",
    ) || str_eq(ext_lower, "jfif") || str_eq(ext_lower, "jfi") {
        Some(ImageMime::Jpeg)
    } else if str_eq(ext_lower, "png") {
        Some(ImageMime::Png)
    } else {
        None
    }
}

/// Why a path could not become an inline image: it has no extension, or an
/// extension that resolves to no supported media type. Each variant carries
/// its message.
#[derive(Debug, Clone, PartialEq)]
pub enum Base64ImageError {
    InvalidExtension(String),
    UnsupportedFileType(String),
}

/// The message of an invalid-extension failure for a path.
pub open spec fn invalid_extension_msg(path: Seq<char>) -> Seq<char> {
    "InvalidExtension: File "@ + path + " has an invalid extension."@
}

/// The message of an unsupported-file-type failure for a path.
pub open spec fn unsupported_file_type_msg(path: Seq<char>) -> Seq<char> {
    "UnsupportedFileType: File "@ + path
        + " has an unsupported filetype. jpg and png images are supported."@
}

impl Base64ImageError {
    /// The failure message.
    pub fn message(&self) -> (r: String)
        ensures
            match self {
                Base64ImageError::InvalidExtension(m) => r@ == m@,
                Base64ImageError::UnsupportedFileType(m) => r@ == m@,
            },
    {
        match self {
            Base64ImageError::InvalidExtension(m) => m.clone(),
            Base64ImageError::UnsupportedFileType(m) => m.clone(),
        }
    }
}

/// An image to be sent inline: its file path and the media type resolved
/// from the path's extension at construction. Construction never touches
/// the filesystem.
#[derive(Debug, Clone, PartialEq)]
pub struct Base64Image {
    pub img_path: String,
    pub img_mime: ImageMime,
}

/// What the base64 crate encodes a byte sequence to: the standard alphabet
/// with padding. The result depends on the bytes alone.
pub uninterp spec fn base64_of(bytes: Seq<u8>) -> Seq<char>;

/// Relies on `base64::encode`: standard-alphabet base64 with padding, four
/// output characters for every three input bytes (rounded up). The call
/// cannot fail: its only panic is an overflow computing the output size,
/// which no byte vector that fits in this target's address space reaches.
#[verifier::external_body]
fn base64_encode(bytes: &Vec<u8>) -> (r: String)
    ensures
        r@ == base64_of(bytes@),
        r@.len() == 4 * ((bytes@.len() + 2) / 3),
{
    base64::encode(bytes)
}

impl Base64Image {
    /// The media type the path resolves to, if any: its extension,
    /// lowercased, looked up among the supported image extensions.
    pub open spec fn spec_mime_of_path(path: Seq<char>) -> Option<ImageMime> {
        match spec_extension(path) {
            Some(e) => spec_mime_for(spec_lower(e)),
            None => None,
        }
    }

    /// Builds an inline image from a file path. The extension is resolved
    /// case-insensitively against the supported image extensions, exactly
    /// once. A path with no extension fails as invalid; a path whose
    /// extension resolves to no supported media type fails as unsupported;
    /// every path with a supported extension succeeds.
    pub fn from_path(path: String) -> (r: Result<Base64Image, Base64ImageError>)
        ensures
            match r {
                Ok(img) => {
                    &&& img.img_path@ == path@
                    &&& Self::spec_mime_of_path(path@) == Some(img.img_mime)
                },
                Err(e) => match e {
                    Base64ImageError::InvalidExtension(m) => {
                        &&& spec_extension(path@) is None
                        &&& m@ == invalid_extension_msg(path@)
                    },
                    Base64ImageError::UnsupportedFileType(m) => {
                        &&& spec_extension(path@) is Some
                        &&& Self::spec_mime_of_path(path@) is None
                        &&& m@ == unsupported_file_type_msg(path@)
                    },
                },
            },
    {
        match extension_of(path.as_str()) {
            Some(ext) => {
                let lower = to_lower(ext.as_str());
                match mime_for(&lower) {
                    Some(mime) => Ok(Base64Image { img_path: path, img_mime: mime }),
                    None => {
                        let mut m: String = "UnsupportedFileType: File ".to_owned();
                        m.append(path.as_str());
                        m.append(" has an unsupported filetype. jpg and png images are supported.");
                        Err(Base64ImageError::UnsupportedFileType(m))
                    },
                }
            },
            None => {
                let mut m: String = "InvalidExtension: File ".to_owned();
                m.append(path.as_str());
                m.append(" has an invalid extension.");
                Err(Base64ImageError::InvalidExtension(m))
            },
        }
    }

    /// The data URI the image serializes to, given the file's bytes:
    /// `data:<media-type>;base64,<encoded bytes>`.
    pub open spec fn data_uri_model(self, bytes: Seq<u8>) -> Seq<char> {
        "data:"@ + self.img_mime.spec_str() + ";base64,"@ + base64_of(bytes)
    }

    /// Renders the image as a data URI. The caller reads the file at the
    /// image's path and hands its bytes in; this function never touches the
    /// filesystem.
    pub fn data_uri(&self, bytes: &Vec<u8>) -> (r: String)
        ensures
            r@ == self.data_uri_model(bytes@),
    {
        let mut s: String = "data:".to_owned();
        s.append(self.img_mime.as_str());
        s.append(";base64,");
        let encoded = base64_encode(bytes);
        s.append(encoded.as_str());
        s
    }
}

/// The source of an image request: an inline-encoded image, or a remote URL
/// the service fetches itself.
#[derive(Debug, Clone, PartialEq)]
pub enum ImageSrc {
    Image(Base64Image),
    Url(String),
}

impl ImageSrc {
    /// The serialized form, given the bytes of the inline image's file: a
    /// data URI for an inline image, the URL string otherwise.
    pub open spec fn json_model(self, bytes: Seq<u8>) -> JVal {
        match self {
            ImageSrc::Image(img) => JVal::Str(img.data_uri_model(bytes)),
            ImageSrc::Url(u) => JVal::Str(u@),
        }
    }

    /// Serializes the source as a JSON string. `bytes` is the content of
    /// the inline image's file, read by the caller; a URL source ignores it.
    pub fn to_json(&self, bytes: &Vec<u8>) -> (r: JsonValue)
        ensures
            r@ == self.json_model(bytes@),
    {
        match self {
            ImageSrc::Image(img) => JsonValue::Str(img.data_uri(bytes)),
            ImageSrc::Url(u) => JsonValue::Str(u.clone()),
        }
    }
}

} // verus!
