use vstd::prelude::*;

verus! {

/// The name of the index document of the bundled interface.
pub open spec fn index_name() -> Seq<char> {
    "index.html"@
}

/// The path without its leading slashes.
pub open spec fn without_leading_slashes(p: Seq<char>) -> Seq<char>
    decreases p.len(),
{
    if p.len() > 0 && p[0] == '/' {
        without_leading_slashes(p.drop_first())
    } else {
        p
    }
}

/// The content type that mime_guess infers from a path's extension, with
/// `application/octet-stream` where it infers none.
pub uninterp spec fn mime_of(path: Seq<char>) -> Seq<char>;

/// Relies on mime_guess::from_path and MimeGuess::first_or_octet_stream: the
/// guess depends on the path's extension alone.
#[verifier::external_body]
pub(crate) fn guess_mime(path: &str) -> (r: String)
    ensures
        r@ == mime_of(path@),
{
    mime_guess::from_path(path).first_or_octet_stream().to_string()
}

/// What the fallback handler serves.
#[derive(Clone, Copy, Debug, PartialEq, Eq, Structural)]
pub enum FallbackTarget {
    /// The index document (itself a 404 where the bundle lacks it).
    Index,
    /// The asset stored under the requested key.
    Asset,
    /// Nothing: a 404.
    NotFound,
}

/// The target for an asset key: the index for the root, the index name and
/// any path with no extension that is not an asset; the asset where it
/// exists; otherwise not found.
pub open spec fn fallback_target(key: Seq<char>, asset_found: bool) -> FallbackTarget {
    if key.len() == 0 || key == index_name() {
        FallbackTarget::Index
    } else if asset_found {
        FallbackTarget::Asset
    } else if key.contains('.') {
        FallbackTarget::NotFound
    } else {
        FallbackTarget::Index
    }
}

/// A reply of the static handler.
pub struct StaticReply {
    pub status: u16,
    /// Empty where the reply carries no content type.
    pub content_type: String,
    pub body: Vec<u8>,
}

pub open spec fn is_not_found(r: StaticReply) -> bool {
    &&& r.status == 404
    &&& r.content_type@.len() == 0
    &&& r.body@ == seq![52u8, 48u8, 52u8]
}

/// `r` serves the index document, or is a 404 where there is none.
pub open spec fn serves_index(r: StaticReply, index: Option<Vec<u8>>) -> bool {
    match index {
        Some(doc) => r.status == 200 && r.content_type@ == "text/html"@ && r.body@ == doc@,
        None => is_not_found(r),
    }
}

/// The key under which an asset is stored for a request path.
pub fn asset_key(uri_path: &str) -> (r: String)
    ensures
        r@ == without_leading_slashes(uri_path@),
{
    let n = uri_path.unicode_len();
    let mut k: usize = 0;
    assert(uri_path@.subrange(0, n as int) =~= uri_path@);
    while k < n && uri_path.get_char(k) == '/'
        invariant
            k <= n,
            n == uri_path@.len(),
            without_leading_slashes(uri_path@.subrange(k as int, n as int))
                == without_leading_slashes(uri_path@),
        decreases n - k,
    {
        assert(uri_path@.subrange(k as int, n as int).drop_first() =~= uri_path@.subrange(
            k + 1,
            n as int,
        ));
        k = k + 1;
    }
    let rest = uri_path.substring_char(k, n);
    proof {
        if k < n {
            assert(rest@[0] == uri_path@[k as int]);
        }
    }
    rest.to_owned()
}

/// Whether the text holds a dot.
pub fn has_dot(s: &str) -> (r: bool)
    ensures
        r == s@.contains('.'),
{
    let n = s.unicode_len();
    let mut i: usize = 0;
    while i < n
        invariant
            i <= n,
            n == s@.len(),
            forall|j: int| 0 <= j < i ==> s@[j] != '.',
        decreases n - i,
    {
        if s.get_char(i) == '.' {
            assert(s@[i as int] == '.');
            return true;
        }
        i = i + 1;
    }
    false
}

/// The target for an asset key, given whether an asset is stored under it.
pub fn choose_target(key: &str, asset_found: bool) -> (r: FallbackTarget)
    ensures
        r == fallback_target(key@, asset_found),
{
    let index = String::from_str("index.html");
    let owned = key.to_owned();
    if key.is_empty() || owned == index {
        FallbackTarget::Index
    } else if asset_found {
        FallbackTarget::Asset
    } else if has_dot(key) {
        FallbackTarget::NotFound
    } else {
        FallbackTarget::Index
    }
}

/// The 404 reply.
pub fn not_found() -> (r: StaticReply)
    ensures
        is_not_found(r),
{
    StaticReply { status: 404, content_type: String::new(), body: vec![52u8, 48u8, 52u8] }
}

/// The index document as an HTML reply, or a 404 where the bundle lacks it.
pub fn index_html(index: Option<Vec<u8>>) -> (r: StaticReply)
    ensures
        serves_index(r, index),
{
    match index {
        Some(doc) => StaticReply {
            status: 200,
            content_type: String::from_str("text/html"),
            body: doc,
        },
        None => not_found(),
    }
}

/// The fallback handler. `asset` is what the bundle stores under
/// `asset_key(uri_path)`, `index` its index document.
pub fn static_handler(uri_path: &str, asset: Option<Vec<u8>>, index: Option<Vec<u8>>) -> (r:
    StaticReply)
    ensures
        match fallback_target(without_leading_slashes(uri_path@), asset.is_some()) {
            FallbackTarget::Index => serves_index(r, index),
            FallbackTarget::Asset => r.status == 200 && r.content_type@ == mime_of(
                without_leading_slashes(uri_path@),
            ) && r.body@ == asset->0@,
            FallbackTarget::NotFound => is_not_found(r),
        },
{
    let key = asset_key(uri_path);
    match choose_target(key.as_str(), asset.is_some()) {
        FallbackTarget::Index => index_html(index),
        FallbackTarget::NotFound => not_found(),
        FallbackTarget::Asset => {
            let content_type = guess_mime(key.as_str());
            match asset {
                Some(data) => StaticReply { status: 200, content_type, body: data },
                None => not_found(),
            }
        },
    }
}

/// A path with no extension that names no asset is served the index
/// document; a path with an extension that names no asset is a 404.
pub proof fn missing_asset_fallback(key: Seq<char>)
    ensures
        !key.contains('.') ==> fallback_target(key, false) == FallbackTarget::Index,
        key.contains('.') && key != index_name() ==> fallback_target(key, false)
            == FallbackTarget::NotFound,
{
}

} // verus!
