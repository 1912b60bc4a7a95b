//! Request dispatch: what one accepted request is answered with.
//!
//! The host resolves the requested URL path against the served root and
//! reports what it found there — a regular file's bytes, a folder's
//! entries, a read failure, or nothing. Routing that finding to a
//! status code, a `Content-Type` and a body is decided and proved here.

use crate::listing::DirEntry;
use crate::listing::generate_directory_listing;
use crate::listing::listing_page;
use crate::mime::mime_of;
use crate::mime::mime_type_for;
use crate::mime::url_extension;
use vstd::prelude::*;

verus! {

/// What the resolved path turned out to be.
pub enum ResolvedTarget {
    /// A regular file whose contents were read whole.
    FileContent { content: Vec<u8> },
    /// A regular file that could not be read; the host's error text.
    FileError { message: String },
    /// A directory and its immediate entries, in filesystem order.
    Directory { entries: Vec<DirEntry> },
    /// A directory that could not be enumerated; the host's error text.
    DirectoryError { message: String },
    /// Nothing exists at the resolved path.
    NotFound,
}

/// A response body: raw file bytes, or rendered text.
pub enum ResponseBody {
    Bytes(Vec<u8>),
    Text(String),
}

/// The response handed back to the host: status code, `Content-Type`
/// header value, and body.
pub struct HttpResponse {
    pub status: u16,
    pub content_type: String,
    pub body: ResponseBody,
}

/// Routes one request. A file is served whole under the MIME type of
/// the URL's extension; a directory is answered with the rendered
/// listing; a missing path with 404; a read or enumeration failure
/// with 500 and the error text.
pub fn handle_request(url_path: &str, target: ResolvedTarget) -> (r: HttpResponse)
    ensures
        (target matches ResolvedTarget::FileContent { content } ==> r.status == 200
            && r.content_type@ == mime_of(url_extension(url_path@)) && (r.body matches
        ResponseBody::Bytes(b) && b@ == content@)),
        (target matches ResolvedTarget::FileError { message } ==> r.status == 500
            && r.content_type@ == "text/plain; charset=utf-8"@ && (r.body matches
        ResponseBody::Text(t) && t@ == "Error reading file: "@ + message@)),
        (target matches ResolvedTarget::Directory { entries } ==> r.status == 200
            && r.content_type@ == "text/html; charset=utf-8"@ && (r.body matches
        ResponseBody::Text(t) && t@ == listing_page(url_path@, entries@))),
        (target matches ResolvedTarget::DirectoryError { message } ==> r.status == 500
            && r.content_type@ == "text/plain; charset=utf-8"@ && (r.body matches
        ResponseBody::Text(t) && t@ == "Error listing directory: "@ + message@)),
        (target matches ResolvedTarget::NotFound ==> r.status == 404 && r.content_type@
            == "text/plain; charset=utf-8"@ && (r.body matches ResponseBody::Text(t) && t@
            == "File not found"@ && t@.len() > 0)),
{
    match target {
        ResolvedTarget::FileContent { content } => {
            let ct = mime_type_for(url_path);
            HttpResponse { status: 200, content_type: ct, body: ResponseBody::Bytes(content) }
        },
        ResolvedTarget::FileError { message } => {
            let mut t = String::from_str("Error reading file: ");
            t.append(message.as_str());
            HttpResponse {
                status: 500,
                content_type: String::from_str("text/plain; charset=utf-8"),
                body: ResponseBody::Text(t),
            }
        },
        ResolvedTarget::Directory { entries } => {
            let t = generate_directory_listing(url_path, &entries);
            HttpResponse {
                status: 200,
                content_type: String::from_str("text/html; charset=utf-8"),
                body: ResponseBody::Text(t),
            }
        },
        ResolvedTarget::DirectoryError { message } => {
            let mut t = String::from_str("Error listing directory: ");
            t.append(message.as_str());
            HttpResponse {
                status: 500,
                content_type: String::from_str("text/plain; charset=utf-8"),
                body: ResponseBody::Text(t),
            }
        },
        ResolvedTarget::NotFound => {
            let t = String::from_str("File not found");
            proof {
                reveal_strlit("File not found");
            }
            HttpResponse {
                status: 404,
                content_type: String::from_str("text/plain; charset=utf-8"),
                body: ResponseBody::Text(t),
            }
        },
    }
}

} // verus!
