//! The read-only set of embedded assets and the resolver that answers a
//! request path from it, falling back to the root document so that paths
//! routed on the client still reach the application shell.

use crate::text::{lemma_trim_start_at, strip_leading, trim_start};
use vstd::prelude::*;
use vstd::string::*;

verus! {

/// One embedded asset: its logical path and its bytes.
struct AssetEntry {
    path: String,
    data: Vec<u8>,
}

/// The set of embedded assets, fixed when the program is packaged. No path
/// occurs twice in it.
pub struct Assets {
    entries: Vec<AssetEntry>,
}

/// Whether `entries[i]` is stored under `path`.
spec fn stored_at(entries: Seq<AssetEntry>, i: int, path: Seq<char>) -> bool {
    0 <= i < entries.len() && entries[i].path@ == path
}

/// No two entries share a path.
spec fn paths_differ(entries: Seq<AssetEntry>) -> bool {
    forall|i: int, j: int| 0 <= i < j < entries.len() ==> entries[i].path@ != entries[j].path@
}

/// The entries as a map from path to bytes.
spec fn as_map(entries: Seq<AssetEntry>) -> Map<Seq<char>, Seq<u8>> {
    Map::new(
        |path: Seq<char>| exists|i: int| stored_at(entries, i, path),
        |path: Seq<char>| entries[choose|i: int| stored_at(entries, i, path)].data@,
    )
}

/// Where no path occurs twice, the entry at `i` is what the map holds for
/// its path.
proof fn lemma_map_at(entries: Seq<AssetEntry>, i: int)
    requires
        paths_differ(entries),
        0 <= i < entries.len(),
    ensures
        as_map(entries).contains_key(entries[i].path@),
        as_map(entries)[entries[i].path@] == entries[i].data@,
{
    let path = entries[i].path@;
    assert(stored_at(entries, i, path));
    let chosen = choose|k: int| stored_at(entries, k, path);
    assert(chosen == i);
}

/// Writing an entry at `at`, over the one stored under the same path or
/// behind the last one where the path is new, keeps the paths apart and
/// changes the map at that path alone.
proof fn lemma_store(before: Seq<AssetEntry>, after: Seq<AssetEntry>, at: int)
    requires
        paths_differ(before),
        0 <= at <= before.len(),
        at < before.len() ==> after.len() == before.len() && before[at].path@ == after[at].path@,
        at == before.len() ==> after.len() == before.len() + 1 && forall|k: int|
            !stored_at(before, k, after[at].path@),
        forall|k: int| 0 <= k < before.len() && k != at ==> after[k] == before[k],
    ensures
        paths_differ(after),
        as_map(after) == as_map(before).insert(after[at].path@, after[at].data@),
{
    let key = after[at].path@;
    assert forall|a: int, b: int| 0 <= a < b < after.len() implies after[a].path@
        != after[b].path@ by {
        if a == at && at == before.len() {
        } else if b == at && at == before.len() {
            assert(!stored_at(before, a, key));
        } else if a == at {
            assert(before[a].path@ != before[b].path@);
        } else if b == at {
            assert(before[a].path@ != before[b].path@);
        }
    }
    assert forall|path: Seq<char>| #[trigger]
        as_map(after).contains_key(path) == as_map(before).insert(
            key,
            after[at].data@,
        ).contains_key(path) by {
        if path == key {
            assert(stored_at(after, at, path));
        } else if as_map(after).contains_key(path) {
            let k = choose|k: int| stored_at(after, k, path);
            assert(stored_at(before, k, path));
        } else if as_map(before).contains_key(path) {
            let k = choose|k: int| stored_at(before, k, path);
            assert(stored_at(after, k, path));
        }
    }
    assert forall|path: Seq<char>| #[trigger]
        as_map(after).contains_key(path) implies as_map(after)[path] == as_map(before).insert(
        key,
        after[at].data@,
    )[path] by {
        let k = choose|k: int| stored_at(after, k, path);
        lemma_map_at(after, k);
        if path != key {
            assert(stored_at(before, k, path));
            lemma_map_at(before, k);
        } else {
            assert(k == at);
        }
    }
    assert(as_map(after) =~= as_map(before).insert(key, after[at].data@));
}

impl Assets {
    #[verifier::type_invariant]
    spec fn well_formed(&self) -> bool {
        paths_differ(self.entries@)
    }

    /// The set as a map from logical path to bytes.
    pub closed spec fn view(&self) -> Map<Seq<char>, Seq<u8>> {
        as_map(self.entries@)
    }

    /// The empty set.
    pub fn new() -> (assets: Self)
        ensures
            assets@ == Map::<Seq<char>, Seq<u8>>::empty(),
    {
        let assets = Assets { entries: Vec::new() };
        assert(assets@ =~= Map::<Seq<char>, Seq<u8>>::empty());
        assets
    }

    /// Position of the asset stored under `path`, if there is one.
    fn position(&self, path: &str) -> (found: Option<usize>)
        ensures
            match found {
                Some(i) => stored_at(self.entries@, i as int, path@),
                None => forall|i: int| !stored_at(self.entries@, i, path@),
            },
    {
        let wanted = path.to_owned();
        let mut i: usize = 0;
        while i < self.entries.len()
            invariant
                i <= self.entries.len(),
                wanted@ == path@,
                forall|j: int| 0 <= j < i ==> self.entries[j].path@ != path@,
            decreases self.entries.len() - i,
        {
            if self.entries[i].path == wanted {
                return Some(i);
            }
            i = i + 1;
        }
        None
    }

    /// The bytes stored under `path`, if any.
    pub fn get(&self, path: &str) -> (data: Option<&Vec<u8>>)
        ensures
            match data {
                Some(bytes) => self@.contains_key(path@) && bytes@ == self@[path@],
                None => !self@.contains_key(path@),
            },
    {
        proof {
            use_type_invariant(self);
        }
        match self.position(path) {
            Some(i) => {
                proof {
                    lemma_map_at(self.entries@, i as int);
                }
                Some(&self.entries[i].data)
            },
            None => None,
        }
    }

    /// Stores `data` under `path`, in place of what was stored there.
    pub fn insert(&mut self, path: String, data: Vec<u8>)
        ensures
            final(self)@ == old(self)@.insert(path@, data@),
    {
        proof {
            use_type_invariant(&*self);
        }
        let ghost before = self.entries@;
        let found = self.position(path.as_str());
        let entry = AssetEntry { path, data };
        let mut entries: Vec<AssetEntry> = Vec::new();
        core::mem::swap(&mut self.entries, &mut entries);
        match found {
            Some(i) => {
                proof {
                    lemma_store(before, before.update(i as int, entry), i as int);
                }
                entries.set(i, entry);
            },
            None => {
                proof {
                    lemma_store(before, before.push(entry), before.len() as int);
                }
                entries.push(entry);
            },
        }
        self.entries = entries;
    }
}

/// Logical path of the root document, the shell of the application.
pub const ROOT_DOCUMENT: &'static str = "index.html";

/// Content type of the root document when it answers for another path.
pub const HTML_CONTENT_TYPE: &'static str = "text/html";

/// Body of the answer when not even the root document is embedded.
pub const NOT_FOUND_BODY: &'static str = "404 Not Found";

/// The logical path that a request path asks for: the request without its
/// leading separators, or the root document where nothing is left.
pub open spec fn asset_path(request: Seq<char>) -> Seq<char> {
    let trimmed = trim_start(request, '/');
    if trimmed.len() == 0 {
        ROOT_DOCUMENT@
    } else {
        trimmed
    }
}

/// Computes the logical path that a request path asks for.
pub fn logical_path(request: &str) -> (path: &str)
    ensures
        path@ == asset_path(request@),
{
    let trimmed = strip_leading(request, '/');
    if trimmed.unicode_len() == 0 {
        ROOT_DOCUMENT
    } else {
        trimmed
    }
}

/// What the set holds for a request.
pub enum Found<'a> {
    /// The asset of that path, with the path it is stored under.
    Asset(&'a str, &'a Vec<u8>),
    /// No such asset; the root document answers in its place.
    Fallback(&'a Vec<u8>),
    /// No such asset and no root document.
    Missing,
}

/// Mathematical value of a [`Found`].
pub enum FoundView {
    Asset(Seq<char>, Seq<u8>),
    Fallback(Seq<u8>),
    Missing,
}

impl<'a> View for Found<'a> {
    type V = FoundView;

    open spec fn view(&self) -> FoundView {
        match self {
            Found::Asset(path, data) => FoundView::Asset(path@, data@),
            Found::Fallback(data) => FoundView::Fallback(data@),
            Found::Missing => FoundView::Missing,
        }
    }
}

/// What a set of assets holds for a request path.
pub open spec fn found(assets: Map<Seq<char>, Seq<u8>>, request: Seq<char>) -> FoundView {
    let path = asset_path(request);
    if assets.contains_key(path) {
        FoundView::Asset(path, assets[path])
    } else if assets.contains_key(ROOT_DOCUMENT@) {
        FoundView::Fallback(assets[ROOT_DOCUMENT@])
    } else {
        FoundView::Missing
    }
}

/// Looks a request path up in the set, falling back to the root document.
pub fn find<'a>(assets: &'a Assets, request: &'a str) -> (result: Found<'a>)
    ensures
        result@ == found(assets@, request@),
{
    let path = logical_path(request);
    match assets.get(path) {
        Some(data) => Found::Asset(path, data),
        None => match assets.get(ROOT_DOCUMENT) {
            Some(index) => Found::Fallback(index),
            None => Found::Missing,
        },
    }
}

/// Status of an answer that carries an asset.
pub const STATUS_OK: u16 = 200;

/// Status of the answer when nothing can be served.
pub const STATUS_NOT_FOUND: u16 = 404;

/// The answer to a request for an asset.
#[derive(Debug, PartialEq, Eq)]
pub struct AssetResponse {
    /// HTTP status code.
    pub status: u16,
    /// Value of the content-type header, where one is sent.
    pub content_type: Option<String>,
    /// The bytes of the body.
    pub body: Vec<u8>,
}

/// Mathematical value of an [`AssetResponse`].
pub struct AssetResponseView {
    pub status: u16,
    pub content_type: Option<Seq<char>>,
    pub body: Seq<u8>,
}

impl View for AssetResponse {
    type V = AssetResponseView;

    open spec fn view(&self) -> AssetResponseView {
        AssetResponseView {
            status: self.status,
            content_type: match self.content_type {
                Some(text) => Some(text@),
                None => None,
            },
            body: self.body@,
        }
    }
}

/// The answer that carries what was found, given the content type guessed
/// for the path of a found asset.
pub open spec fn answer(result: FoundView, guessed: Seq<char>) -> AssetResponseView {
    match result {
        FoundView::Asset(_, data) => AssetResponseView {
            status: STATUS_OK,
            content_type: Some(guessed),
            body: data,
        },
        FoundView::Fallback(index) => AssetResponseView {
            status: STATUS_OK,
            content_type: Some(HTML_CONTENT_TYPE@),
            body: index,
        },
        FoundView::Missing => AssetResponseView {
            status: STATUS_NOT_FOUND,
            content_type: None,
            body: NOT_FOUND_BODY.spec_bytes(),
        },
    }
}

/// Builds the answer that carries what was found. `guessed` is the content
/// type guessed for the path of a found asset; it is not looked at
/// otherwise.
pub fn respond(result: Found<'_>, guessed: String) -> (response: AssetResponse)
    ensures
        response@ == answer(result@, guessed@),
{
    match result {
        Found::Asset(_, data) => AssetResponse {
            status: STATUS_OK,
            content_type: Some(guessed),
            body: data.clone(),
        },
        Found::Fallback(index) => AssetResponse {
            status: STATUS_OK,
            content_type: Some(HTML_CONTENT_TYPE.to_owned()),
            body: index.clone(),
        },
        Found::Missing => AssetResponse {
            status: STATUS_NOT_FOUND,
            content_type: None,
            body: NOT_FOUND_BODY.as_bytes_vec(),
        },
    }
}

/// The content type that `mime_guess` derives from the extension of a
/// path, or `application/octet-stream` where it knows none. It depends on
/// the path alone, through the table compiled into that crate.
pub uninterp spec fn guessed_content_type(path: Seq<char>) -> Seq<char>;

/// Calls `mime_guess::from_path` and takes the first guess, or the generic
/// binary type where there is none. Nothing is proved of the call: the
/// contract gives its result the name [`guessed_content_type`].
#[verifier::external_body]
fn guess_content_type(path: &str) -> (mime: String)
    ensures
        mime@ == guessed_content_type(path@),
{
    mime_guess::from_path(path).first_or_octet_stream().as_ref().to_owned()
}

/// The answer to a request path: the asset it names with the content type
/// guessed from its path, else the root document as HTML, else 404.
pub open spec fn served(assets: Map<Seq<char>, Seq<u8>>, request: Seq<char>) -> AssetResponseView {
    answer(found(assets, request), guessed_content_type(asset_path(request)))
}

/// Answers a request for a static file from the embedded assets.
pub fn static_handler(assets: &Assets, request: &str) -> (response: AssetResponse)
    ensures
        response@ == served(assets@, request@),
{
    let result = find(assets, request);
    match result {
        Found::Asset(path, _) => {
            let guessed = guess_content_type(path);
            respond(result, guessed)
        },
        _ => respond(result, String::new()),
    }
}

/// A request for the root and a request for the root document by its name
/// ask for the same logical path, so they are answered alike: same status,
/// same content type, same bytes.
pub proof fn lemma_root_requests_agree(assets: Map<Seq<char>, Seq<u8>>)
    ensures
        asset_path("/"@) == ROOT_DOCUMENT@,
        asset_path("/index.html"@) == ROOT_DOCUMENT@,
        served(assets, "/"@) == served(assets, "/index.html"@),
        served(assets, "/"@).body == served(assets, "/index.html"@).body,
{
    reveal_strlit("/");
    reveal_strlit("/index.html");
    reveal_strlit("index.html");
    lemma_trim_start_at("/"@, '/', 1);
    lemma_trim_start_at("/index.html"@, '/', 1);
    assert("/index.html"@.subrange(1, 11) =~= "index.html"@);
}

/// A request for a path that the set lacks is answered with the bytes of
/// the root document, as HTML and with status 200, as long as the set holds
/// the root document.
pub proof fn lemma_absent_path_gets_root(assets: Map<Seq<char>, Seq<u8>>, request: Seq<char>)
    requires
        !assets.contains_key(asset_path(request)),
        assets.contains_key(ROOT_DOCUMENT@),
    ensures
        served(assets, request) == (AssetResponseView {
            status: 200,
            content_type: Some("text/html"@),
            body: assets["index.html"@],
        }),
{
}

/// The answer is 404 exactly when the set holds neither the path asked for
/// nor the root document; every other answer has status 200.
pub proof fn lemma_not_found_only_without_root(
    assets: Map<Seq<char>, Seq<u8>>,
    request: Seq<char>,
)
    ensures
        served(assets, request).status == 404 <==> !assets.contains_key(asset_path(request))
            && !assets.contains_key(ROOT_DOCUMENT@),
        served(assets, request).status == 404 || served(assets, request).status == 200,
        assets.contains_key(asset_path(request)) ==> served(assets, request).body
            == assets[asset_path(request)],
{
}

} // verus!
