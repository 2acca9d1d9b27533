//! What a server of the game's static files decides from text alone: which
//! file a request path names and which content type a file has. Looking
//! at the disk is left to the caller.

use vstd::prelude::*;

verus! {

/// The extension of a path as `std::path::Path::extension` reads it.
pub uninterp spec fn path_extension(path: Seq<char>) -> Option<Seq<char>>;

/// Reads the extension of a path with `std::path::Path::extension`. The
/// contract gives the result its name, `path_extension`, and claims no
/// more: the standard library documents the extension as the part of the
/// file name after its last dot, and nothing where the file name has no
/// dot or only a leading one.
#[verifier::external_body]
fn extension_of<'a>(path: &'a str) -> (ext: Option<&'a str>)
    ensures
        ext is Some == path_extension(path@) is Some,
        ext is Some ==> ext->0@ == path_extension(path@)->0,
{
    std::path::Path::new(path).extension().and_then(|e| e.to_str())
}

/// The content type served for a file extension.
pub open spec fn mime_of(ext: Seq<char>) -> Seq<char> {
    if ext == "html"@ {
        "text/html; charset=utf-8"@
    } else if ext == "js"@ {
        "application/javascript"@
    } else if ext == "css"@ {
        "text/css"@
    } else if ext == "wasm"@ {
        "application/wasm"@
    } else if ext == "json"@ {
        "application/json"@
    } else if ext == "png"@ {
        "image/png"@
    } else if ext == "jpg"@ || ext == "jpeg"@ {
        "image/jpeg"@
    } else if ext == "svg"@ {
        "image/svg+xml"@
    } else {
        "application/octet-stream"@
    }
}

/// Whether two texts are the same.
fn same_text(a: &str, b: &str) -> (r: bool)
    ensures
        r == (a@ == b@),
{
    a.to_owned() == b.to_owned()
}

/// The content type served for a file extension; an extension that is not
/// known is served as plain bytes.
pub fn mime_for_extension(ext: &str) -> (mime: &'static str)
    ensures
        mime@ == mime_of(ext@),
{
    if same_text(ext, "html") {
        "text/html; charset=utf-8"
    } else if same_text(ext, "js") {
        "application/javascript"
    } else if same_text(ext, "css") {
        "text/css"
    } else if same_text(ext, "wasm") {
        "application/wasm"
    } else if same_text(ext, "json") {
        "application/json"
    } else if same_text(ext, "png") {
        "image/png"
    } else if same_text(ext, "jpg") || same_text(ext, "jpeg") {
        "image/jpeg"
    } else if same_text(ext, "svg") {
        "image/svg+xml"
    } else {
        "application/octet-stream"
    }
}

/// The content type served for the file at a path: that of its extension,
/// and plain bytes for a path without one.
pub fn content_type_for(path: &str) -> (mime: &'static str)
    ensures
        mime@ == mime_of(
            match path_extension(path@) {
                Some(ext) => ext,
                None => Seq::empty(),
            },
        ),
{
    match extension_of(path) {
        Some(ext) => mime_for_extension(ext),
        None => {
            proof {
                lemma_no_extension();
            }
            "application/octet-stream"
        },
    }
}

/// The empty extension is served as plain bytes.
proof fn lemma_no_extension()
    ensures
        mime_of(Seq::empty()) == "application/octet-stream"@,
{
    reveal_strlit("html");
    reveal_strlit("js");
    reveal_strlit("css");
    reveal_strlit("wasm");
    reveal_strlit("json");
    reveal_strlit("png");
    reveal_strlit("jpg");
    reveal_strlit("jpeg");
    reveal_strlit("svg");
    assert("html"@.len() == 4 && "js"@.len() == 2 && "css"@.len() == 3 && "wasm"@.len() == 4);
    assert("json"@.len() == 4 && "png"@.len() == 3 && "jpg"@.len() == 3 && "jpeg"@.len() == 4);
    assert("svg"@.len() == 3);
}

/// The number of slashes that a text starts with, counted from place `i`.
pub open spec fn leading_slashes(s: Seq<char>, i: int) -> int
    decreases s.len() - i,
{
    if 0 <= i < s.len() && s[i] == '/' {
        1 + leading_slashes(s, i + 1)
    } else {
        0
    }
}

/// The path below the served directory that a request path names: the
/// index page for the bare root `/`, and the request path without its
/// leading slashes otherwise.
pub open spec fn relative_target(url: Seq<char>) -> Seq<char> {
    if url.len() == 1 && url[0] == '/' {
        "index.html"@
    } else {
        url.subrange(leading_slashes(url, 0), url.len() as int)
    }
}

/// Turns a request path into the path of a file below the served
/// directory. Whether that file is there is for the caller to find out.
pub fn sanitize_path(url: &str) -> (rel: String)
    ensures
        rel@ == relative_target(url@),
{
    let n = url.unicode_len();
    if n == 1 && url.get_char(0) == '/' {
        return "index.html".to_owned();
    }
    let mut i: usize = 0;
    while i < n && url.get_char(i) == '/'
        invariant
            i <= n,
            n == url@.len(),
            leading_slashes(url@, 0) == i + leading_slashes(url@, i as int),
        decreases n - i,
    {
        i += 1;
    }
    url.substring_char(i, n).to_owned()
}

} // verus!
