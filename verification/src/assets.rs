//! Asset router: resolves a URL path to embedded bytes plus a MIME type.
//! The root path aliases a fixed default document; one privileged document
//! is gated on the leader security gate, and a denied request is deliberately
//! indistinguishable from a missing resource. The asset bundle itself is an
//! opaque key-to-bytes table filled in by the caller.

use vstd::prelude::*;

use crate::text::str_eq;
use vstd::string::StringSliceAdditionalSpecFns;

verus! {

/// Name of the document served for the root path.
pub const DEFAULT_DOC: &'static str = "index.html";

/// Name of the document only a leader may fetch.
pub const PRIVILEGED_DOC: &'static str = "leader.html";

/// MIME type used when no mapping is known for a path.
pub const DEFAULT_MIME: &'static str = "application/octet-stream";

/// MIME type of the fixed not-found document.
pub const NOT_FOUND_MIME: &'static str = "text/html";

/// Body of the fixed not-found document.
pub const NOT_FOUND_TEXT: &'static str = "<!DOCTYPE html><html><head><title>404</title></head><body><h1>404 Not Found</h1></body></html>";

/// One embedded asset: a lookup name and its bytes.
pub struct Asset {
    pub name: String,
    pub content: Vec<u8>,
}

/// The embedded asset bundle, as an opaque name-to-bytes table.
pub struct AssetTable {
    pub assets: Vec<Asset>,
}

/// The reply the router hands the HTTP layer: whether the resource was
/// found (a miss and a denied privileged request both yield the same fixed
/// not-found reply), the content type, and the body bytes.
pub struct HttpReply {
    pub found: bool,
    pub mime: String,
    pub body: Vec<u8>,
}

/// A reply as the contracts see it.
#[verifier::ext_equal]
pub ghost struct ReplyModel {
    pub found: bool,
    pub mime: Seq<char>,
    pub body: Seq<u8>,
}

impl HttpReply {
    /// The reply as the contracts see it.
    pub open spec fn model(self) -> ReplyModel {
        ReplyModel { found: self.found, mime: self.mime@, body: self.body@ }
    }
}

/// The first guessed media type for a path, as the MIME table has it;
/// a function of the path's extension, hence of its characters, alone.
/// None when the path has no extension or no mapping is known.
pub uninterp spec fn mime_guess_of(path: Seq<char>) -> Option<Seq<char>>;

/// Relies on mime_guess::from_path and MimeGuess::first_raw: the first
/// guessed media type for a path, determined by the path's extension alone;
/// empty when the path has no extension or no known mapping.
#[verifier::external_body]
fn guess_mime(path: &str) -> (r: Option<String>)
    ensures
        match r {
            Some(m) => mime_guess_of(path@) == Some(m@),
            None => mime_guess_of(path@) is None,
        },
{
    match mime_guess::from_path(path).first_raw() {
        Some(s) => Some(s.to_owned()),
        None => None,
    }
}

/// The guessed media type for `name`, or the opaque binary default when no
/// mapping is known.
pub open spec fn mime_or_default(name: Seq<char>) -> Seq<char> {
    match mime_guess_of(name) {
        Some(m) => m,
        None => DEFAULT_MIME@,
    }
}

/// Path normalization: an empty or bare root path maps to the default
/// document name, and a leading separator is stripped before lookup.
pub open spec fn normalize(path: Seq<char>) -> Seq<char> {
    let q = if path.len() == 0 || path == "/"@ {
        DEFAULT_DOC@
    } else {
        path
    };
    if q.len() > 0 && q[0] == '/' {
        q.drop_first()
    } else {
        q
    }
}

/// Normalizes a request path as `normalize` describes.
pub fn normalize_path(path: &str) -> (r: String)
    ensures
        r@ == normalize(path@),
{
    let n = path.unicode_len();
    if n == 0 || str_eq(path, "/") {
        proof {
            reveal_strlit("index.html");
            reveal_strlit("/");
        }
        return DEFAULT_DOC.to_owned();
    }
    if n > 0 && path.get_char(0) == '/' {
        let r = path.substring_char(1, n).to_owned();
        proof {
            assert(r@ =~= normalize(path@));
        }
        r
    } else {
        path.to_owned()
    }
}

/// First-match lookup of `name` in the asset table.
pub open spec fn lookup(assets: Seq<(Seq<char>, Seq<u8>)>, name: Seq<char>) -> Option<Seq<u8>>
    decreases assets.len(),
{
    if assets.len() == 0 {
        None
    } else if assets[0].0 == name {
        Some(assets[0].1)
    } else {
        lookup(assets.drop_first(), name)
    }
}

proof fn lemma_lookup_skip(assets: Seq<(Seq<char>, Seq<u8>)>, name: Seq<char>, i: int)
    requires
        0 <= i <= assets.len(),
        forall|j: int| 0 <= j < i ==> assets[j].0 != name,
    ensures
        lookup(assets, name) == lookup(assets.skip(i), name),
    decreases i,
{
    if i > 0 {
        assert forall|j: int| 0 <= j < i - 1 implies assets.drop_first()[j].0 != name by {
            assert(assets.drop_first()[j] == assets[j + 1]);
        }
        lemma_lookup_skip(assets.drop_first(), name, i - 1);
        assert(assets.drop_first().skip(i - 1) =~= assets.skip(i));
    } else {
        assert(assets.skip(0) =~= assets);
    }
}

/// The fixed not-found reply: the same body and content type for a missing
/// resource and for a denied privileged request.
pub open spec fn not_found_model() -> ReplyModel {
    ReplyModel { found: false, mime: NOT_FOUND_MIME@, body: NOT_FOUND_TEXT.spec_bytes() }
}

/// Builds the fixed not-found reply.
pub fn not_found_reply() -> (r: HttpReply)
    ensures
        r.model() == not_found_model(),
{
    let r = HttpReply {
        found: false,
        mime: NOT_FOUND_MIME.to_owned(),
        body: vstd::slice::slice_to_vec(NOT_FOUND_TEXT.as_bytes()),
    };
    proof {
        assert(r.model() =~= not_found_model());
    }
    r
}

/// What the router returns for `path` from a peer whose leader standing is
/// `leader`: the normalized path is looked up unless it names the privileged
/// document and the peer is no leader, in which case — as for any miss —
/// the fixed not-found reply comes back.
pub open spec fn resolve_model(
    assets: Seq<(Seq<char>, Seq<u8>)>,
    path: Seq<char>,
    leader: bool,
) -> ReplyModel {
    let name = normalize(path);
    if name == PRIVILEGED_DOC@ && !leader {
        not_found_model()
    } else {
        match lookup(assets, name) {
            Some(content) => ReplyModel { found: true, mime: mime_or_default(name), body: content },
            None => not_found_model(),
        }
    }
}

impl AssetTable {
    /// The table as the contracts see it: name and bytes of each asset, in order.
    pub open spec fn model(self) -> Seq<(Seq<char>, Seq<u8>)> {
        self.assets@.map_values(|a: Asset| (a.name@, a.content@))
    }

    /// An empty asset table.
    pub fn new() -> (r: AssetTable)
        ensures
            r.model() == Seq::<(Seq<char>, Seq<u8>)>::empty(),
    {
        let r = AssetTable { assets: Vec::new() };
        proof {
            assert(r.model() =~= Seq::<(Seq<char>, Seq<u8>)>::empty());
        }
        r
    }

    /// Appends one asset to the table.
    pub fn add(&mut self, name: String, content: Vec<u8>)
        ensures
            final(self).model() == old(self).model().push((name@, content@)),
    {
        self.assets.push(Asset { name, content });
        proof {
            assert(self.model() =~= old(self).model().push((name@, content@)));
        }
    }

    /// Finds the first asset whose name equals `name`.
    fn find(&self, name: &str) -> (r: Option<usize>)
        ensures
            match r {
                Some(i) => {
                    &&& i < self.assets@.len()
                    &&& self.model()[i as int].0 == name@
                    &&& lookup(self.model(), name@) == Some(self.model()[i as int].1)
                },
                None => lookup(self.model(), name@) is None,
            },
    {
        let n = self.assets.len();
        let mut i: usize = 0;
        while i < n
            invariant
                i <= n,
                n == self.assets@.len(),
                forall|j: int| 0 <= j < i ==> self.model()[j].0 != name@,
            decreases n - i,
        {
            if str_eq(self.assets[i].name.as_str(), name) {
                proof {
                    lemma_lookup_skip(self.model(), name@, i as int);
                    assert(self.model().skip(i as int)[0] == self.model()[i as int]);
                }
                return Some(i);
            }
            i += 1;
        }
        proof {
            lemma_lookup_skip(self.model(), name@, n as int);
            assert(self.model().skip(n as int) =~= Seq::<(Seq<char>, Seq<u8>)>::empty());
        }
        None
    }

    /// Resolves `path` for a peer whose leader standing is `leader`:
    /// normalizes the path, gates the privileged document, and answers a
    /// hit with the asset's bytes and the MIME type guessed from the name —
    /// a miss and a denied privileged request with the fixed not-found reply.
    pub fn resolve(&self, path: &str, leader: bool) -> (r: HttpReply)
        ensures
            r.model() == resolve_model(self.model(), path@, leader),
    {
        let name = normalize_path(path);
        if str_eq(name.as_str(), PRIVILEGED_DOC) && !leader {
            return not_found_reply();
        }
        match self.find(name.as_str()) {
            Some(i) => {
                let body = vstd::slice::slice_to_vec(self.assets[i].content.as_slice());
                let mime = match guess_mime(name.as_str()) {
                    Some(m) => m,
                    None => DEFAULT_MIME.to_owned(),
                };
                let r = HttpReply { found: true, mime, body };
                proof {
                    assert(r.model() =~= resolve_model(self.model(), path@, leader));
                }
                r
            },
            None => not_found_reply(),
        }
    }
}

/// Law: the privileged document requested by a non-leader yields exactly the
/// fixed not-found reply — the same reply as any path no asset matches —
/// while a leader gets the document's actual bytes when the asset exists.
pub proof fn lemma_privileged_document_disguised(
    assets: Seq<(Seq<char>, Seq<u8>)>,
    path: Seq<char>,
    missing: Seq<char>,
    leader2: bool,
)
    requires
        normalize(path) == PRIVILEGED_DOC@,
        lookup(assets, normalize(missing)) is None,
        normalize(missing) != PRIVILEGED_DOC@,
    ensures
        resolve_model(assets, path, false) == not_found_model(),
        resolve_model(assets, path, false) == resolve_model(assets, missing, leader2),
        lookup(assets, PRIVILEGED_DOC@) matches Some(content) ==> {
            &&& resolve_model(assets, path, true).found
            &&& resolve_model(assets, path, true).body == content
        },
{
}

/// Law: requesting the bare root path yields the same reply as requesting
/// the default document name explicitly.
pub proof fn lemma_root_aliases_default_doc(assets: Seq<(Seq<char>, Seq<u8>)>, leader: bool)
    ensures
        resolve_model(assets, "/"@, leader) == resolve_model(assets, "/index.html"@, leader),
{
    reveal_strlit("/");
    reveal_strlit("/index.html");
    reveal_strlit("index.html");
    assert(normalize("/"@) =~= DEFAULT_DOC@);
    assert(normalize("/index.html"@) =~= DEFAULT_DOC@);
}

} // verus!
