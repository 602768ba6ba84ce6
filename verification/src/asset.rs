//! The asset resolver's decision logic: classifying a fetched response into a
//! known image kind, or degrading to "absent".
//!
//! The outbound fetch itself is I/O and lives outside the library; it hands
//! back a plain [`FetchOutcome`], and [`resolve_fetch_outcome`] decides what
//! it resolves to. Resolution never fails a render: every outcome resolves to
//! either a classified asset or [`AssetResolution::Absent`].

use vstd::prelude::*;
use vstd::string::*;

verus! {

/// The image kinds a fetched asset can classify into.
#[derive(Clone, Copy, Debug, PartialEq, Eq, Structural)]
pub enum AssetKind {
    Png,
    Jpeg,
    Gif,
    NestedSvg,
}

/// How a declared content type classifies: exactly the four known media
/// types map to a kind; anything else (or nothing) does not classify.
pub open spec fn classify_spec(ct: Seq<char>) -> Option<AssetKind> {
    if ct == "image/png"@ {
        Some(AssetKind::Png)
    } else if ct == "image/jpeg"@ {
        Some(AssetKind::Jpeg)
    } else if ct == "image/gif"@ {
        Some(AssetKind::Gif)
    } else if ct == "image/svg+xml"@ {
        Some(AssetKind::NestedSvg)
    } else {
        None
    }
}

/// String equality on character views.
fn str_eq(a: &str, b: &str) -> (r: bool)
    ensures
        r == (a@ == b@),
{
    let x = String::from_str(a);
    let y = String::from_str(b);
    x == y
}

/// Classifies a declared content type into an image kind.
pub fn classify_content_type(ct: &str) -> (r: Option<AssetKind>)
    ensures
        r == classify_spec(ct@),
{
    if str_eq(ct, "image/png") {
        Some(AssetKind::Png)
    } else if str_eq(ct, "image/jpeg") {
        Some(AssetKind::Jpeg)
    } else if str_eq(ct, "image/gif") {
        Some(AssetKind::Gif)
    } else if str_eq(ct, "image/svg+xml") {
        Some(AssetKind::NestedSvg)
    } else {
        None
    }
}

/// What the request layer hands back for one attempted fetch of a reference:
/// whether the response was successful (2xx), its declared content type, and
/// its fully buffered body. A timeout or transport failure arrives as an
/// unsuccessful outcome.
pub struct FetchOutcome {
    pub success: bool,
    pub content_type: Option<String>,
    pub body: Option<Vec<u8>>,
}

/// What a reference resolved to: a classified asset with its bytes, or
/// nothing. There is no error variant: resolution failure always degrades to
/// `Absent`, and the scene is built with that image slot left empty.
pub enum AssetResolution {
    Resolved { kind: AssetKind, bytes: Vec<u8> },
    Absent,
}

/// Whether a fetch outcome yields a usable asset: the fetch succeeded, a
/// content type was declared and classifies into a known kind, and a body
/// was buffered.
pub open spec fn outcome_resolves(o: FetchOutcome) -> bool {
    &&& o.success
    &&& o.content_type matches Some(ct) && classify_spec(ct@) is Some
    &&& o.body is Some
}

/// Decides what one fetched response resolves to. Total: every outcome,
/// including a failed or misdeclared fetch, resolves to a value — a failure
/// degrades to `Absent` and never aborts the render.
pub fn resolve_fetch_outcome(outcome: FetchOutcome) -> (r: AssetResolution)
    ensures
        r is Absent <==> !outcome_resolves(outcome),
        r matches AssetResolution::Resolved { kind, bytes } ==> {
            &&& outcome.content_type matches Some(ct) && classify_spec(ct@) == Some(kind)
            &&& outcome.body matches Some(b) && bytes@ == b@
        },
{
    if !outcome.success {
        return AssetResolution::Absent;
    }
    let kind = match &outcome.content_type {
        Some(ct) => match classify_content_type(ct.as_str()) {
            Some(k) => k,
            None => return AssetResolution::Absent,
        },
        None => return AssetResolution::Absent,
    };
    match outcome.body {
        Some(bytes) => AssetResolution::Resolved { kind, bytes },
        None => AssetResolution::Absent,
    }
}

/// The base64 text of a byte sequence, in the standard padded alphabet.
/// Deterministic in the bytes alone.
pub uninterp spec fn base64_of(bytes: Seq<u8>) -> Seq<char>;

/// Relies on base64's standard engine encode: the standard padded base64
/// text of the bytes, a function of the bytes alone.
#[verifier::external_body]
fn base64_raw(bytes: &Vec<u8>) -> (r: String)
    ensures
        r@ == base64_of(bytes@),
{
    base64::engine::Engine::encode(&base64::engine::general_purpose::STANDARD, bytes)
}

/// The media type a classified asset kind declares.
pub open spec fn asset_media_type_spec(kind: AssetKind) -> Seq<char> {
    match kind {
        AssetKind::Png => "image/png"@,
        AssetKind::Jpeg => "image/jpeg"@,
        AssetKind::Gif => "image/gif"@,
        AssetKind::NestedSvg => "image/svg+xml"@,
    }
}

/// The self-contained data URL an embedded asset becomes: its media type
/// and its base64-encoded bytes.
pub open spec fn data_uri_spec(kind: AssetKind, bytes: Seq<u8>) -> Seq<char> {
    "data:"@ + asset_media_type_spec(kind) + ";base64,"@ + base64_of(bytes)
}

/// Builds the data URL for one resolved asset.
pub fn data_uri(kind: AssetKind, bytes: &Vec<u8>) -> (r: String)
    ensures
        r@ == data_uri_spec(kind, bytes@),
{
    let mut s = String::from_str("data:");
    match kind {
        AssetKind::Png => s.append("image/png"),
        AssetKind::Jpeg => s.append("image/jpeg"),
        AssetKind::Gif => s.append("image/gif"),
        AssetKind::NestedSvg => s.append("image/svg+xml"),
    }
    s.append(";base64,");
    let encoded = base64_raw(bytes);
    s.append(encoded.as_str());
    s
}

/// One successfully resolved asset: the reference string it was fetched
/// for, its classified kind, and its buffered bytes.
pub struct ResolvedAsset {
    pub url: String,
    pub kind: AssetKind,
    pub bytes: Vec<u8>,
}

/// The markup after every resolved asset's reference string is swapped for
/// its self-contained data URL, in order. A reference with no resolved
/// asset is left as it stands — the builder then skips that image slot.
pub open spec fn embed_spec(markup: Seq<char>, assets: Seq<ResolvedAsset>) -> Seq<char>
    decreases assets.len(),
{
    if assets.len() == 0 {
        markup
    } else {
        embed_spec(
            crate::rewrite::replace_spec(
                markup,
                assets[0].url@,
                data_uri_spec(assets[0].kind, assets[0].bytes@),
            ),
            assets.skip(1),
        )
    }
}

/// Law: embedding nothing leaves the markup unchanged — a render whose
/// references all failed to resolve proceeds on the markup as rendered.
pub proof fn lemma_embed_nothing(markup: Seq<char>)
    ensures
        embed_spec(markup, Seq::empty()) == markup,
{
}

/// Swaps each resolved asset's reference string in the markup for its data
/// URL, so the builder needs no further remote resolution. Unresolved
/// references stay as they are.
pub fn embed_assets(markup: &str, assets: &Vec<ResolvedAsset>) -> (r: String)
    ensures
        r@ == embed_spec(markup@, assets@),
{
    let mut cur = String::from_str(markup);
    let mut i: usize = 0;
    proof {
        assert(assets@.skip(0) =~= assets@);
    }
    while i < assets.len()
        invariant
            i <= assets@.len(),
            embed_spec(cur@, assets@.skip(i as int)) == embed_spec(markup@, assets@),
        decreases assets@.len() - i,
    {
        let asset = &assets[i];
        let uri = data_uri(asset.kind, &asset.bytes);
        let next = crate::rewrite::replace_all(cur.as_str(), asset.url.as_str(), uri.as_str());
        proof {
            let rest = assets@.skip(i as int);
            assert(rest[0] == assets@[i as int]);
            assert(rest.skip(1) =~= assets@.skip(i + 1));
            assert(embed_spec(cur@, rest) == embed_spec(next@, assets@.skip(i + 1)));
        }
        cur = next;
        i = i + 1;
    }
    proof {
        assert(assets@.skip(assets@.len() as int) =~= Seq::<ResolvedAsset>::empty());
    }
    cur
}

} // verus!
