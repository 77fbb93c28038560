//! Static file serving for the single-page front end.
use crate::text::{ends_with, starts_with};
use vstd::prelude::*;

verus! {

/// Content type by file extension.
pub open spec fn mime_spec(path: Seq<char>) -> Seq<char> {
    if ".js"@.is_suffix_of(path) {
        "application/javascript"@
    } else if ".css"@.is_suffix_of(path) {
        "text/css"@
    } else if ".html"@.is_suffix_of(path) {
        "text/html"@
    } else if ".svg"@.is_suffix_of(path) {
        "image/svg+xml"@
    } else if ".png"@.is_suffix_of(path) {
        "image/png"@
    } else if ".ico"@.is_suffix_of(path) {
        "image/x-icon"@
    } else if ".json"@.is_suffix_of(path) {
        "application/json"@
    } else if ".woff2"@.is_suffix_of(path) {
        "font/woff2"@
    } else {
        "application/octet-stream"@
    }
}

/// The `Content-Type` for a file path.
pub fn mime_for(path: &str) -> (r: &'static str)
    ensures
        r@ == mime_spec(path@),
{
    if ends_with(path, ".js") {
        "application/javascript"
    } else if ends_with(path, ".css") {
        "text/css"
    } else if ends_with(path, ".html") {
        "text/html"
    } else if ends_with(path, ".svg") {
        "image/svg+xml"
    } else if ends_with(path, ".png") {
        "image/png"
    } else if ends_with(path, ".ico") {
        "image/x-icon"
    } else if ends_with(path, ".json") {
        "application/json"
    } else if ends_with(path, ".woff2") {
        "font/woff2"
    } else {
        "application/octet-stream"
    }
}

/// The path without its leading slashes.
pub open spec fn strip_slashes(p: Seq<char>) -> Seq<char>
    decreases p.len(),
{
    if p.len() > 0 && p[0] == '/' {
        strip_slashes(p.drop_first())
    } else {
        p
    }
}

/// The built front-end file a request path maps to: `index.html` for the
/// root, else the path under `frontend/dist/`.
pub open spec fn spa_path_spec(path: Seq<char>) -> Seq<char> {
    let p = strip_slashes(path);
    if p.len() == 0 {
        "frontend/dist/index.html"@
    } else {
        "frontend/dist/"@ + p
    }
}

/// The file to serve for a request path.
pub fn spa_file_path(path: &str) -> (r: String)
    ensures
        r@ == spa_path_spec(path@),
{
    let n = path.unicode_len();
    let mut i: usize = 0;
    assert(path@.skip(0) =~= path@);
    while i < n && path.get_char(i) == '/'
        invariant
            n == path@.len(),
            i <= n,
            strip_slashes(path@.skip(i as int)) == strip_slashes(path@),
        decreases n - i,
    {
        assert(path@.skip(i as int).drop_first() =~= path@.skip(i + 1));
        i = i + 1;
    }
    let rest = path.substring_char(i, n);
    assert(rest@ =~= path@.skip(i as int));
    assert(i < n ==> path@.skip(i as int)[0] == path@[i as int]);
    assert(strip_slashes(path@.skip(i as int)) == path@.skip(i as int));
    if i == n {
        String::from_str("frontend/dist/index.html")
    } else {
        let mut s = String::from_str("frontend/dist/");
        s.append(rest);
        s
    }
}

} // verus!
