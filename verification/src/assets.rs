//! Serving of the embedded static files: which asset a request names and
//! which content type it is served with.

use vstd::prelude::*;
use crate::components::{opt_view, static_uri, url_for};
use crate::text::{has_prefix, strip_prefix};

verus! {

/// The asset key that the request uri `uri` names: the uri without the
/// application's base url when it starts with it, the uri itself otherwise.
pub open spec fn asset_key(uri: Seq<char>, base: Option<Seq<char>>) -> Seq<char> {
    match base {
        Some(b) => if has_prefix(uri, b) {
            uri.subrange(b.len() as int, uri.len() as int)
        } else {
            uri
        },
        None => uri,
    }
}

/// The asset key for the request uri `uri` under the base url `base_url`.
pub fn asset_path(uri: &str, base_url: &Option<String>) -> (res: String)
    ensures
        res@ == asset_key(uri@, opt_view(*base_url)),
{
    match base_url {
        Some(base) => match strip_prefix(uri, base.as_str()) {
            Some(rest) => rest,
            None => uri.to_owned(),
        },
        None => uri.to_owned(),
    }
}

/// What `mime_guess` answers for a path: the first MIME type registered for
/// its extension, or `application/octet-stream`.
pub uninterp spec fn guessed_mime(path: Seq<char>) -> Seq<char>;

/// Calls `mime_guess::from_path(path).first_or_octet_stream()` and returns the
/// MIME type as text. Its result is named `guessed_mime`, a function of the path
/// alone; the one fact stated of it is that a path without a dot, which has no
/// extension, gets `application/octet-stream`.
#[verifier::external_body]
fn mime_from_path(path: &str) -> (res: String)
    ensures
        res@ == guessed_mime(path@),
        !path@.contains('.') ==> res@ == "application/octet-stream"@,
{
    let mime = mime_guess::from_path(path).first_or_octet_stream();
    mime.as_ref().to_owned()
}

/// The content type a static asset is served with, guessed from its extension.
pub fn content_type(path: &str) -> (res: String)
    ensures
        res@ == guessed_mime(path@),
        !path@.contains('.') ==> res@ == "application/octet-stream"@,
{
    mime_from_path(path)
}

/// A link made by `create_static_url` names, once the base url is taken off,
/// exactly the asset key of the file under `/static/`.
pub proof fn lemma_static_url_names_asset(base: Option<Seq<char>>, file: Seq<char>)
    ensures
        asset_key(url_for(base, static_uri(file)), base) == static_uri(file),
{
    match base {
        Some(b) => {
            let u = b + static_uri(file);
            assert(u.subrange(0, b.len() as int) =~= b);
            assert(u.subrange(b.len() as int, u.len() as int) =~= static_uri(file));
        },
        None => {},
    }
}

} // verus!
