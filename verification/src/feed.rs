use vstd::prelude::*;
use crate::error::UpdateError;
use crate::json::{get_items, get_member, items_of, member, parse, parsed, string_field, string_member};

verus! {

/// The feed's resource for the latest release.
pub const FEED_URL: &'static str = "https://api.github.com/repos/jz315/AutoPlayListening/releases/latest";

/// The user agent that the request to the feed names.
pub const FEED_USER_AGENT: &'static str = "request";

/// One downloadable file of a release.
#[derive(Debug, PartialEq, Eq)]
pub struct Asset {
    pub browser_download_url: String,
}

/// A release as the feed describes it: its tag and its assets, in order.
#[derive(Debug, PartialEq, Eq)]
pub struct Release {
    pub tag_name: String,
    pub assets: Vec<Asset>,
}

/// The latest release: its version tag and where its artifact is downloaded.
#[derive(Debug, PartialEq, Eq)]
pub struct ReleaseInfo {
    pub tag: String,
    pub download_url: String,
}

/// The download URLs of a list of assets, in order.
pub open spec fn urls_of(assets: Seq<Asset>) -> Seq<Seq<char>> {
    Seq::new(assets.len(), |i: int| assets[i].browser_download_url@)
}

/// The tag and download URL that a release with these URLs gives: the first
/// URL, and `NoAssets` where there is none.
pub open spec fn latest_of(tag: Seq<char>, urls: Seq<Seq<char>>) -> Result<(Seq<char>, Seq<char>), UpdateError> {
    if urls.len() == 0 {
        Err(UpdateError::NoAssets)
    } else {
        Ok((tag, urls[0]))
    }
}

/// Whether `r` is the release, or the error, that `expected` gives.
pub open spec fn release_matches(
    r: Result<ReleaseInfo, UpdateError>,
    expected: Result<(Seq<char>, Seq<char>), UpdateError>,
) -> bool {
    match expected {
        Ok((tag, url)) => r matches Ok(info) && info.tag@ == tag && info.download_url@ == url,
        Err(e) => r matches Err(found) && found == e,
    }
}

/// Picks the tag and the first asset's URL out of a release. A release
/// without assets is refused: it never gives an empty or missing URL.
pub fn latest_release(release: Release) -> (r: Result<ReleaseInfo, UpdateError>)
    ensures
        release_matches(r, latest_of(release.tag_name@, urls_of(release.assets@))),
        release.assets.len() == 0 <==> r is Err,
{
    let mut assets = release.assets;
    if assets.len() == 0 {
        return Err(UpdateError::NoAssets);
    }
    let first = assets.swap_remove(0);
    Ok(ReleaseInfo { tag: release.tag_name, download_url: first.browser_download_url })
}

/// The download URL of one entry of a document's asset list: its string
/// member `browser_download_url`.
pub open spec fn asset_url(asset: serde_json::Value) -> Option<Seq<char>> {
    string_member(asset, "browser_download_url"@)
}

/// Whether every entry of a document's asset list carries a download URL.
pub open spec fn assets_well_formed(items: Seq<serde_json::Value>) -> bool {
    forall|i: int| 0 <= i < items.len() ==> (#[trigger] asset_url(items[i])) is Some
}

/// The asset list of a release document: the elements of its member
/// `assets`, if it has that member and it is an array.
pub open spec fn document_assets(doc: serde_json::Value) -> Option<Seq<serde_json::Value>> {
    match member(doc, "assets"@) {
        Some(list) => items_of(list),
        None => None,
    }
}

/// The download URLs that a release document lists, in order, if its asset
/// list is there and each entry carries one.
pub open spec fn document_urls(doc: serde_json::Value) -> Option<Seq<Seq<char>>> {
    match document_assets(doc) {
        Some(items) => if assets_well_formed(items) {
            Some(Seq::new(items.len(), |i: int| asset_url(items[i]).unwrap()))
        } else {
            None
        },
        None => None,
    }
}

/// The release that a document describes, as its tag and its URLs: the
/// document must carry a string `tag_name` and an array `assets` whose
/// entries each carry a download URL.
pub open spec fn described_release(doc: serde_json::Value) -> Option<(Seq<char>, Seq<Seq<char>>)> {
    match (string_member(doc, "tag_name"@), document_urls(doc)) {
        (Some(tag), Some(urls)) => Some((tag, urls)),
        _ => None,
    }
}

/// What a release document yields: a parse error where it describes no
/// release, and else what the release gives.
pub open spec fn document_release(doc: serde_json::Value) -> Result<(Seq<char>, Seq<char>), UpdateError> {
    match described_release(doc) {
        Some((tag, urls)) => latest_of(tag, urls),
        None => Err(UpdateError::Parse),
    }
}

/// What the feed's answer yields: a network error unless the status was a
/// success, a parse error unless the body is a JSON document, and else what
/// the document yields.
pub open spec fn feed_answer(success: bool, body: Seq<char>) -> Result<(Seq<char>, Seq<char>), UpdateError> {
    if !success {
        Err(UpdateError::Network)
    } else {
        match parsed(body) {
            Some(doc) => document_release(doc),
            None => Err(UpdateError::Parse),
        }
    }
}

/// Reads the assets of a document's asset list, in order; `None` as soon as
/// one entry carries no download URL.
pub fn read_assets(items: &Vec<serde_json::Value>) -> (r: Option<Vec<Asset>>)
    ensures
        match r {
            Some(assets) => {
                &&& assets_well_formed(items@)
                &&& assets.len() == items.len()
                &&& forall|i: int| 0 <= i < assets.len() ==> Some(
                    (#[trigger] assets[i]).browser_download_url@,
                ) == asset_url(items[i])
            },
            None => !assets_well_formed(items@),
        },
{
    let mut assets: Vec<Asset> = Vec::new();
    let mut i: usize = 0;
    while i < items.len()
        invariant
            i <= items.len(),
            assets.len() == i,
            forall|j: int| 0 <= j < i ==> Some((#[trigger] assets[j]).browser_download_url@) == asset_url(
                items[j],
            ),
        decreases items.len() - i,
    {
        match string_field(&items[i], "browser_download_url") {
            Some(browser_download_url) => {
                assets.push(Asset { browser_download_url });
            },
            None => {
                assert(asset_url(items@[i as int]) is None);
                return None;
            },
        }
        i += 1;
    }
    assert forall|j: int| 0 <= j < items.len() implies (#[trigger] asset_url(items@[j])) is Some by {
        assert(Some(assets[j].browser_download_url@) == asset_url(items[j]));
    }
    Some(assets)
}

/// Reads the release that a document describes.
pub fn read_release(doc: &serde_json::Value) -> (r: Result<Release, UpdateError>)
    ensures
        match described_release(*doc) {
            Some((tag, urls)) => r matches Ok(release) && release.tag_name@ == tag && urls_of(
                release.assets@,
            ) == urls,
            None => r matches Err(e) && e == UpdateError::Parse,
        },
{
    let tag_name = match string_field(doc, "tag_name") {
        Some(tag_name) => tag_name,
        None => { return Err(UpdateError::Parse); },
    };
    let list = match get_member(doc, "assets") {
        Some(list) => list,
        None => { return Err(UpdateError::Parse); },
    };
    let items = match get_items(list) {
        Some(items) => items,
        None => { return Err(UpdateError::Parse); },
    };
    let assets = match read_assets(items) {
        Some(assets) => assets,
        None => { return Err(UpdateError::Parse); },
    };
    proof {
        assert(urls_of(assets@) =~= document_urls(*doc).unwrap());
    }
    Ok(Release { tag_name, assets })
}

/// Reads the latest release out of the feed's document.
pub fn release_from_document(doc: &serde_json::Value) -> (r: Result<ReleaseInfo, UpdateError>)
    ensures
        release_matches(r, document_release(*doc)),
{
    match read_release(doc) {
        Ok(release) => latest_release(release),
        Err(e) => Err(e),
    }
}

/// Reads the latest release out of the feed's answer: whether the status was
/// a success, and the body.
pub fn get_latest_release(success: bool, body: &str) -> (r: Result<ReleaseInfo, UpdateError>)
    ensures
        release_matches(r, feed_answer(success, body@)),
{
    if !success {
        return Err(UpdateError::Network);
    }
    match parse(body) {
        Ok(doc) => release_from_document(&doc),
        Err(_) => Err(UpdateError::Parse),
    }
}

/// A release whose asset list is empty yields `NoAssets`, whatever its tag:
/// never a release, and so never one with an empty or missing URL.
pub proof fn lemma_empty_asset_list_is_refused(tag: Seq<char>)
    ensures
        latest_of(tag, Seq::<Seq<char>>::empty()) == Err::<(Seq<char>, Seq<char>), UpdateError>(
            UpdateError::NoAssets,
        ),
{
}

/// A feed document that describes a release without assets yields
/// `NoAssets`.
pub proof fn lemma_document_without_assets_is_refused(doc: serde_json::Value)
    requires
        string_member(doc, "tag_name"@) is Some,
        document_assets(doc) == Some(Seq::<serde_json::Value>::empty()),
    ensures
        document_release(doc) == Err::<(Seq<char>, Seq<char>), UpdateError>(UpdateError::NoAssets),
{
}

/// No release is ever read from a document whose asset list is empty or
/// missing, and the URL of one that is read is the first asset's.
pub proof fn lemma_release_has_first_asset(doc: serde_json::Value)
    requires
        document_release(doc) is Ok,
    ensures
        document_assets(doc) matches Some(items) && items.len() > 0 && asset_url(items[0]) == Some(
            document_release(doc).unwrap().1,
        ),
{
}

} // verus!
