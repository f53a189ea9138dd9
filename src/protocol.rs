//! Path checks of the local asset protocol: the request path is decoded,
//! stripped of the protocol prefix and held to an extension allow-list and
//! a directory allow-list. Reading the file is the caller's part.
use vstd::prelude::*;
use vstd::string::{StrSliceExecFns, StringExecFns};
use crate::text::same_text;

verus! {

/// Prefix of every request path of the protocol.
pub const MYPROTOCOL_PREFIX: &'static str = "/myprotocol/";

/// An allow-list made of this entry alone grants the whole filesystem.
pub const ALLOW_ALL_FILESYSTEM: &'static str = "*";

/// Why a request is refused.
#[derive(Debug, Clone, PartialEq)]
pub enum ProtocolError {
    PathNotAllowed(String),
    UnsupportedExtension(String),
    FileNotFound(String),
    InvalidPath(String),
    IoError(String),
}

/// How a path passed the checks.
#[derive(Debug, Clone, PartialEq)]
pub enum PathAccess {
    /// The whole filesystem is allowed: the path is served as given.
    Unrestricted(String),
    /// The path must still be found inside an allowed directory.
    Restricted(String),
}

/// What the protocol answers.
#[derive(Debug, Clone, PartialEq)]
pub struct ProtocolResponse {
    pub status: u16,
    pub content_type: Option<String>,
    pub body: Vec<u8>,
}

/// The percent-decoding of `s`, if it is valid UTF-8.
pub uninterp spec fn percent_decoded(s: Seq<char>) -> Option<Seq<char>>;

/// The extension of the last component of path `p`, if it has one.
pub uninterp spec fn path_extension(p: Seq<char>) -> Option<Seq<char>>;

/// The lowercase form of `s`.
pub uninterp spec fn lower_of(s: Seq<char>) -> Seq<char>;

/// Whether `base` is a prefix of path `p`, by whole components.
pub uninterp spec fn path_starts_with(p: Seq<char>, base: Seq<char>) -> bool;

/// The content type guessed from the extension of path `p`.
pub uninterp spec fn guessed_mime(p: Seq<char>) -> Seq<char>;

/// Relies on `urlencoding::decode`: percent-decodes, and fails only when the
/// decoded bytes are not UTF-8; a string without `%` comes back unchanged.
#[verifier::external_body]
fn url_decode(s: &str) -> (r: Option<String>)
    ensures
        match r {
            Some(d) => percent_decoded(s@) == Some(d@),
            None => percent_decoded(s@) is None,
        },
        (forall|i: int| 0 <= i < s@.len() ==> s@[i] != '%') ==> r is Some && r->0@ == s@,
{
    urlencoding::decode(s).ok().map(|d| d.into_owned())
}

/// Relies on std's `Path::extension`: the extension of the path's file
/// name, as text.
#[verifier::external_body]
fn extension_of(path: &str) -> (r: Option<String>)
    ensures
        match r {
            Some(e) => path_extension(path@) == Some(e@),
            None => path_extension(path@) is None,
        },
{
    std::path::Path::new(path).extension().and_then(|e| e.to_str()).map(|e| e.to_string())
}

/// Relies on std's `str::to_lowercase`: the result depends on the
/// characters alone.
#[verifier::external_body]
fn lowercase(s: &str) -> (r: String)
    ensures
        r@ == lower_of(s@),
{
    s.to_lowercase()
}

/// Relies on std's `Path::starts_with`: whole-component prefix test.
#[verifier::external_body]
fn has_path_prefix(path: &str, base: &str) -> (r: bool)
    ensures
        r == path_starts_with(path@, base@),
{
    std::path::Path::new(path).starts_with(base)
}

/// Relies on `mime_guess::from_path(..).first_or_octet_stream()`: the
/// content type for the path's extension.
#[verifier::external_body]
fn mime_for_path(path: &str) -> (r: String)
    ensures
        r@ == guessed_mime(path@),
{
    mime_guess::from_path(path).first_or_octet_stream().as_ref().to_string()
}

/// The image extensions the protocol serves.
pub open spec fn is_supported_extension(e: Seq<char>) -> bool {
    ||| e == "jpg"@
    ||| e == "jpeg"@
    ||| e == "png"@
    ||| e == "gif"@
    ||| e == "webp"@
    ||| e == "bmp"@
    ||| e == "svg"@
    ||| e == "ico"@
    ||| e == "tiff"@
    ||| e == "tif"@
    ||| e == "avif"@
}

/// Whether a lowercase extension is one the protocol serves.
pub fn supported_extension(lowered: &str) -> (r: bool)
    ensures
        r == is_supported_extension(lowered@),
{
    same_text(lowered, "jpg") || same_text(lowered, "jpeg") || same_text(lowered, "png")
        || same_text(lowered, "gif") || same_text(lowered, "webp") || same_text(lowered, "bmp")
        || same_text(lowered, "svg") || same_text(lowered, "ico") || same_text(lowered, "tiff")
        || same_text(lowered, "tif") || same_text(lowered, "avif")
}

/// Whether `s` starts with the protocol prefix.
pub open spec fn has_protocol_prefix(s: Seq<char>) -> bool {
    s.len() >= MYPROTOCOL_PREFIX@.len() && s.subrange(0, MYPROTOCOL_PREFIX@.len() as int)
        == MYPROTOCOL_PREFIX@
}

/// The text after the protocol prefix, when `decoded_path` starts with it.
pub fn extract_file_path(decoded_path: &str) -> (r: Result<String, ProtocolError>)
    ensures
        has_protocol_prefix(decoded_path@) ==> (r matches Ok(p) && p@ == decoded_path@.subrange(
            MYPROTOCOL_PREFIX@.len() as int,
            decoded_path@.len() as int,
        )),
        !has_protocol_prefix(decoded_path@) ==> (r matches Err(ProtocolError::InvalidPath(m))
            && m@ == "Path doesn't start with /myprotocol/"@),
{
    let n = decoded_path.unicode_len();
    let k = MYPROTOCOL_PREFIX.unicode_len();
    if n >= k && same_text(decoded_path.substring_char(0, k), MYPROTOCOL_PREFIX) {
        Ok(String::from_str(decoded_path.substring_char(k, n)))
    } else {
        Err(ProtocolError::InvalidPath(String::from_str("Path doesn't start with /myprotocol/")))
    }
}

/// Whether `r` is the outcome of the extension check on a path with
/// extension `extension`: none is refused, and so is one whose lowercase
/// form is not served (the error holds that form).
pub open spec fn extension_verdict(extension: Option<Seq<char>>, r: Result<(), ProtocolError>) -> bool {
    match extension {
        None => (r matches Err(ProtocolError::UnsupportedExtension(m)) && m@ == "No extension found"@),
        Some(e) => if is_supported_extension(lower_of(e)) {
            r is Ok
        } else {
            (r matches Err(ProtocolError::UnsupportedExtension(m)) && m@ == lower_of(e))
        },
    }
}

/// The text of an optional string.
pub open spec fn opt_view(s: Option<String>) -> Option<Seq<char>> {
    match s {
        Some(t) => Some(t@),
        None => None,
    }
}

/// The extension check, from the path's extension as found.
pub fn check_extension(extension: Option<String>) -> (r: Result<(), ProtocolError>)
    ensures
        extension_verdict(opt_view(extension), r),
{
    match extension {
        None => Err(ProtocolError::UnsupportedExtension(String::from_str("No extension found"))),
        Some(e) => {
            let lowered = lowercase(e.as_str());
            if supported_extension(lowered.as_str()) {
                Ok(())
            } else {
                Err(ProtocolError::UnsupportedExtension(lowered))
            }
        },
    }
}

/// Accepts a path whose extension, in lowercase, is a served image type.
pub fn validate_file_extension(path: &str) -> (r: Result<(), ProtocolError>)
    ensures
        extension_verdict(path_extension(path@), r),
{
    check_extension(extension_of(path))
}

/// The allow-list grants the whole filesystem: it is the one entry `*`.
pub open spec fn allows_all(allowed: Seq<String>) -> bool {
    allowed.len() == 1 && allowed[0]@ == ALLOW_ALL_FILESYSTEM@
}

/// Whether `r` is the outcome of the path check on `file_path`: the
/// extension check's error, or, past it, whether the allow-list grants
/// every path or the path must be found in an allowed directory.
pub open spec fn path_verdict(
    file_path: Seq<char>,
    allowed: Seq<String>,
    r: Result<PathAccess, ProtocolError>,
) -> bool {
    match r {
        Err(e) => extension_verdict(path_extension(file_path), Err(e)),
        Ok(a) => extension_verdict(path_extension(file_path), Ok(())) && if allows_all(allowed) {
            (a matches PathAccess::Unrestricted(p) && p@ == file_path)
        } else {
            (a matches PathAccess::Restricted(p) && p@ == file_path)
        },
    }
}

/// Checks the extension, then tells whether the allow-list grants every
/// path or the path must be found in an allowed directory.
pub fn validate_file_path(file_path: &str, allowed_directories: &Vec<String>) -> (r: Result<
    PathAccess,
    ProtocolError,
>)
    ensures
        path_verdict(file_path@, allowed_directories@, r),
{
    match validate_file_extension(file_path) {
        Err(e) => Err(e),
        Ok(()) => {
            if allowed_directories.len() == 1 && same_text(
                allowed_directories[0].as_str(),
                ALLOW_ALL_FILESYSTEM,
            ) {
                Ok(PathAccess::Unrestricted(String::from_str(file_path)))
            } else {
                Ok(PathAccess::Restricted(String::from_str(file_path)))
            }
        },
    }
}

/// The file path named by a raw request path: percent-decoded (an
/// undecodable path is refused with itself as the message), stripped of
/// the protocol prefix, then checked.
pub fn resolve_request_path(path: &str, allowed_directories: &Vec<String>) -> (r: Result<
    PathAccess,
    ProtocolError,
>)
    ensures
        match percent_decoded(path@) {
            None => (r matches Err(ProtocolError::InvalidPath(m)) && m@ == path@),
            Some(d) => if has_protocol_prefix(d) {
                path_verdict(
                    d.subrange(MYPROTOCOL_PREFIX@.len() as int, d.len() as int),
                    allowed_directories@,
                    r,
                )
            } else {
                (r matches Err(ProtocolError::InvalidPath(m)) && m@
                    == "Path doesn't start with /myprotocol/"@)
            },
        },
{
    let decoded = match url_decode(path) {
        Some(d) => d,
        None => {
            return Err(ProtocolError::InvalidPath(String::from_str(path)));
        },
    };
    let file_path = match extract_file_path(decoded.as_str()) {
        Ok(p) => p,
        Err(e) => {
            return Err(e);
        },
    };
    validate_file_path(file_path.as_str(), allowed_directories)
}

/// Whether some allowed directory, among those that could be resolved,
/// contains `path`.
pub open spec fn inside_some(path: Seq<char>, allowed: Seq<Option<String>>) -> bool {
    exists|i: int| 0 <= i < allowed.len() && (#[trigger] allowed[i] matches Some(d) && path_starts_with(path, d@))
}

/// The directory check on a resolved path: granted when one of the resolved
/// allowed directories (`None` for one that could not be resolved) is a
/// prefix of it, refused with the path otherwise.
pub fn check_directory_access(canonical_path: &str, canonical_allowed: &Vec<Option<String>>) -> (r: Result<
    String,
    ProtocolError,
>)
    ensures
        inside_some(canonical_path@, canonical_allowed@) ==> (r matches Ok(p) && p@ == canonical_path@),
        !inside_some(canonical_path@, canonical_allowed@) ==> (r matches Err(ProtocolError::PathNotAllowed(m)) && m@ == canonical_path@),
{
    let mut i: usize = 0;
    while i < canonical_allowed.len()
        invariant
            i <= canonical_allowed@.len(),
            forall|j: int| 0 <= j < i ==> !(#[trigger] canonical_allowed@[j] matches Some(d) && path_starts_with(canonical_path@, d@)),
        decreases canonical_allowed@.len() - i,
    {
        match &canonical_allowed[i] {
            Some(dir) => {
                if has_path_prefix(canonical_path, dir.as_str()) {
                    return Ok(String::from_str(canonical_path));
                }
            },
            None => {},
        }
        i = i + 1;
    }
    Err(ProtocolError::PathNotAllowed(String::from_str(canonical_path)))
}

/// HTTP status of the reply to an error.
pub open spec fn status_of(e: ProtocolError) -> u16 {
    match e {
        ProtocolError::FileNotFound(_) => 404,
        ProtocolError::PathNotAllowed(_) => 403,
        ProtocolError::UnsupportedExtension(_) => 415,
        ProtocolError::InvalidPath(_) => 400,
        ProtocolError::IoError(_) => 500,
    }
}

/// Body text of the reply to an error.
pub open spec fn reason_of(e: ProtocolError) -> Seq<char> {
    match e {
        ProtocolError::FileNotFound(_) => "File not found"@,
        ProtocolError::PathNotAllowed(_) => "Access denied"@,
        ProtocolError::UnsupportedExtension(_) => "Unsupported media type"@,
        ProtocolError::InvalidPath(_) => "Bad request"@,
        ProtocolError::IoError(_) => "Internal server error"@,
    }
}

/// The bytes of a text made of ASCII characters.
pub open spec fn ascii_bytes(s: Seq<char>) -> Seq<u8> {
    Seq::new(s.len(), |i: int| s[i] as u8)
}

/// Readable text of an error.
pub open spec fn message_of(e: ProtocolError) -> Seq<char> {
    match e {
        ProtocolError::PathNotAllowed(p) => "Path not allowed: "@ + p@,
        ProtocolError::UnsupportedExtension(x) => "Unsupported extension: "@ + x@,
        ProtocolError::FileNotFound(p) => "File not found: "@ + p@,
        ProtocolError::InvalidPath(p) => "Invalid path: "@ + p@,
        ProtocolError::IoError(m) => "IO error: "@ + m@,
    }
}

fn ascii_bytes_of(s: &str) -> (r: Vec<u8>)
    ensures
        r@ == ascii_bytes(s@),
{
    let n = s.unicode_len();
    let mut r: Vec<u8> = Vec::new();
    let mut i: usize = 0;
    while i < n
        invariant
            n == s@.len(),
            i <= n,
            r@ =~= ascii_bytes(s@.subrange(0, i as int)),
        decreases n - i,
    {
        let c = s.get_char(i);
        r.push(c as u8);
        i = i + 1;
    }
    assert(s@.subrange(0, n as int) =~= s@);
    r
}

impl ProtocolError {
    /// Readable text of the error.
    pub fn message(&self) -> (r: String)
        ensures
            r@ == message_of(*self),
    {
        match self {
            ProtocolError::PathNotAllowed(p) => String::from_str("Path not allowed: ").concat(p.as_str()),
            ProtocolError::UnsupportedExtension(x) => String::from_str("Unsupported extension: ").concat(x.as_str()),
            ProtocolError::FileNotFound(p) => String::from_str("File not found: ").concat(p.as_str()),
            ProtocolError::InvalidPath(p) => String::from_str("Invalid path: ").concat(p.as_str()),
            ProtocolError::IoError(m) => String::from_str("IO error: ").concat(m.as_str()),
        }
    }
}

/// The reply to an error: its status and reason text, no content type.
pub fn create_error_response(error: &ProtocolError) -> (r: ProtocolResponse)
    ensures
        r.status == status_of(*error),
        r.content_type is None,
        r.body@ == ascii_bytes(reason_of(*error)),
{
    let (status, reason): (u16, &str) = match error {
        ProtocolError::FileNotFound(_) => (404, "File not found"),
        ProtocolError::PathNotAllowed(_) => (403, "Access denied"),
        ProtocolError::UnsupportedExtension(_) => (415, "Unsupported media type"),
        ProtocolError::InvalidPath(_) => (400, "Bad request"),
        ProtocolError::IoError(_) => (500, "Internal server error"),
    };
    ProtocolResponse { status, content_type: None, body: ascii_bytes_of(reason) }
}

/// The reply that serves a file's bytes, typed by its extension.
pub fn file_response(file_path: &str, bytes: Vec<u8>) -> (r: ProtocolResponse)
    ensures
        r.status == 200,
        r.content_type matches Some(t) && t@ == guessed_mime(file_path@),
        r.body == bytes,
{
    ProtocolResponse { status: 200, content_type: Some(mime_for_path(file_path)), body: bytes }
}

} // verus!
