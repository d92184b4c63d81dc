//! Static assets: which embedded file a request path asks for, and how the
//! file, or its absence, is answered.

use crate::text::{opt_text, to_chars};
use vstd::prelude::*;
use vstd::string::*;

verus! {

/// Status of the answer that carries a file.
pub const STATUS_FOUND: u16 = 200;

/// Status of the answer for a path that names no file.
pub const STATUS_NOT_FOUND: u16 = 404;

/// The number of `/` at the start of `path`, counted from position `from`.
pub open spec fn leading_slashes(path: Seq<char>, from: int) -> int
    decreases path.len() - from,
{
    if from < 0 || from >= path.len() || path[from] != '/' {
        0
    } else {
        1 + leading_slashes(path, from + 1)
    }
}

/// The path without the slashes it starts with: the name under which the
/// file is looked up.
pub open spec fn asset_key(path: Seq<char>) -> Seq<char> {
    path.subrange(leading_slashes(path, 0), path.len() as int)
}

/// A file to look up, and the media type to serve it with.
#[derive(Clone, Debug, PartialEq, Eq)]
pub struct AssetRequest {
    pub key: String,
    pub media_type: String,
}

pub struct AssetRequestView {
    pub key: Seq<char>,
    pub media_type: Seq<char>,
}

impl View for AssetRequest {
    type V = AssetRequestView;

    open spec fn view(&self) -> AssetRequestView {
        AssetRequestView { key: self.key@, media_type: self.media_type@ }
    }
}

/// The answer to a request for a static asset.
#[derive(Clone, Debug, PartialEq, Eq)]
pub struct AssetResponse {
    pub status: u16,
    /// The `Content-Type` header; none on an answer without a file.
    pub content_type: Option<String>,
    pub body: Vec<u8>,
}

pub struct AssetResponseView {
    pub status: u16,
    pub content_type: Option<Seq<char>>,
    pub body: Seq<u8>,
}

impl View for AssetResponse {
    type V = AssetResponseView;

    open spec fn view(&self) -> AssetResponseView {
        AssetResponseView {
            status: self.status,
            content_type: opt_text(self.content_type),
            body: self.body@,
        }
    }
}

/// The answer for a file with these contents, or for no file.
pub open spec fn asset_answer(request: AssetRequestView, contents: Option<Seq<u8>>)
    -> AssetResponseView {
    match contents {
        Some(bytes) => AssetResponseView {
            status: STATUS_FOUND,
            content_type: Some(request.media_type),
            body: bytes,
        },
        None => AssetResponseView {
            status: STATUS_NOT_FOUND,
            content_type: None,
            body: Seq::empty(),
        },
    }
}

/// Calls `mime_guess::from_path` and, on what it returns,
/// `first_or_text_plain`; hands out the media type as text.
///
/// Nothing is claimed of the result: what counts as the extension of a path
/// is for the platform to say.
#[verifier::external_body]
fn guess_media_type(path: &str) -> (media_type: String) {
    mime_guess::from_path(path).first_or_text_plain().as_ref().to_string()
}

/// Turns a request path into the file to look up and its media type. The
/// file is looked up under the path without its leading slashes; the media
/// type is guessed from the extension of that name, whether or not such a
/// file exists, and is `text/plain` where the extension says nothing.
pub fn static_path(path: &str) -> (request: AssetRequest)
    ensures
        request@.key == asset_key(path@),
{
    let chars = to_chars(path);
    let n: usize = chars.len();
    let mut start: usize = 0;
    while start < n && chars[start] == '/'
        invariant
            start <= n,
            n == chars@.len(),
            chars@ == path@,
            leading_slashes(path@, 0) == start + leading_slashes(path@, start as int),
        decreases n - start,
    {
        start += 1;
    }
    let key = path.substring_char(start, n);
    AssetRequest { key: key.to_owned(), media_type: guess_media_type(key) }
}

/// Answers a request for a static asset, given the contents of the file
/// where there is one: the file with its media type, or not found with an
/// empty body.
pub fn static_response(request: &AssetRequest, contents: Option<Vec<u8>>) -> (response:
    AssetResponse)
    ensures
        response@ == asset_answer(
            request@,
            match contents {
                Some(bytes) => Some(bytes@),
                None => None,
            },
        ),
{
    match contents {
        Some(body) => AssetResponse {
            status: STATUS_FOUND,
            content_type: Some(request.media_type.clone()),
            body,
        },
        None => AssetResponse { status: STATUS_NOT_FOUND, content_type: None, body: Vec::new() },
    }
}

} // verus!
