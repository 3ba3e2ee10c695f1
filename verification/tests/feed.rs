use updater::error::UpdateError;
use updater::feed::{get_latest_release, latest_release, read_assets, read_release, release_from_document, Asset, Release, ReleaseInfo};

fn release(tag: &str, url: &str) -> ReleaseInfo {
    ReleaseInfo { tag: tag.to_string(), download_url: url.to_string() }
}

#[test]
fn release_with_one_asset_is_read() {
    let body = "{\"tag_name\":\"v2.0.0\",\"assets\":[{\"browser_download_url\":\"https://x/y.zip\"}]}";
    assert_eq!(get_latest_release(true, body), Ok(release("v2.0.0", "https://x/y.zip")));
}

#[test]
fn first_asset_is_taken() {
    let body = "{\"assets\":[{\"browser_download_url\":\"https://x/a.zip\",\"size\":3},\
                {\"browser_download_url\":\"https://x/b.zip\"}],\"tag_name\":\"v1.5.0\",\"draft\":false}";
    assert_eq!(get_latest_release(true, body), Ok(release("v1.5.0", "https://x/a.zip")));
}

#[test]
fn empty_asset_list_is_no_assets() {
    let body = "{\"tag_name\":\"v2.0.0\",\"assets\":[]}";
    assert_eq!(get_latest_release(true, body), Err(UpdateError::NoAssets));
    let doc: serde_json::Value = serde_json::from_str(body).unwrap();
    assert_eq!(release_from_document(&doc), Err(UpdateError::NoAssets));
}

#[test]
fn failed_status_is_a_network_error() {
    let body = "{\"tag_name\":\"v2.0.0\",\"assets\":[{\"browser_download_url\":\"https://x/y.zip\"}]}";
    assert_eq!(get_latest_release(false, body), Err(UpdateError::Network));
    assert_eq!(get_latest_release(false, ""), Err(UpdateError::Network));
}

#[test]
fn malformed_body_is_a_parse_error() {
    assert_eq!(get_latest_release(true, ""), Err(UpdateError::Parse));
    assert_eq!(get_latest_release(true, "<html>"), Err(UpdateError::Parse));
    assert_eq!(get_latest_release(true, "{\"tag_name\":\"v1\""), Err(UpdateError::Parse));
}

#[test]
fn missing_members_are_a_parse_error() {
    assert_eq!(get_latest_release(true, "{}"), Err(UpdateError::Parse));
    assert_eq!(get_latest_release(true, "{\"tag_name\":\"v1\"}"), Err(UpdateError::Parse));
    assert_eq!(get_latest_release(true, "{\"assets\":[]}"), Err(UpdateError::Parse));
    assert_eq!(get_latest_release(true, "{\"tag_name\":7,\"assets\":[]}"), Err(UpdateError::Parse));
    assert_eq!(get_latest_release(true, "{\"tag_name\":\"v1\",\"assets\":{}}"), Err(UpdateError::Parse));
}

#[test]
fn asset_without_url_is_a_parse_error() {
    let first = "{\"tag_name\":\"v1\",\"assets\":[{\"name\":\"a\"}]}";
    assert_eq!(get_latest_release(true, first), Err(UpdateError::Parse));
    let second = "{\"tag_name\":\"v1\",\"assets\":[{\"browser_download_url\":\"https://x/a.zip\"},{\"browser_download_url\":5}]}";
    assert_eq!(get_latest_release(true, second), Err(UpdateError::Parse));
}

fn asset(url: &str) -> Asset {
    Asset { browser_download_url: url.to_string() }
}

#[test]
fn assets_are_read_in_order() {
    let list: serde_json::Value = serde_json::from_str(
        "[{\"browser_download_url\":\"a\"},{\"browser_download_url\":\"b\"},{\"browser_download_url\":\"c\"}]",
    ).unwrap();
    let items = list.as_array().unwrap();
    assert_eq!(read_assets(items), Some(vec![asset("a"), asset("b"), asset("c")]));
    assert_eq!(read_assets(&Vec::new()), Some(Vec::new()));
    let bad: serde_json::Value = serde_json::from_str("[{\"browser_download_url\":\"a\"},3]").unwrap();
    assert_eq!(read_assets(bad.as_array().unwrap()), None);
}

#[test]
fn release_is_read_from_a_document() {
    let doc: serde_json::Value = serde_json::from_str(
        "{\"tag_name\":\"v4\",\"assets\":[{\"browser_download_url\":\"a\"},{\"browser_download_url\":\"b\"}]}",
    ).unwrap();
    assert_eq!(
        read_release(&doc),
        Ok(Release { tag_name: "v4".to_string(), assets: vec![asset("a"), asset("b")] })
    );
    let empty: serde_json::Value = serde_json::from_str("{\"tag_name\":\"v4\",\"assets\":[]}").unwrap();
    assert_eq!(read_release(&empty), Ok(Release { tag_name: "v4".to_string(), assets: vec![] }));
    let no_tag: serde_json::Value = serde_json::from_str("{\"assets\":[]}").unwrap();
    assert_eq!(read_release(&no_tag), Err(UpdateError::Parse));
    let list: serde_json::Value = serde_json::from_str("[]").unwrap();
    assert_eq!(read_release(&list), Err(UpdateError::Parse));
}

#[test]
fn latest_release_takes_the_first_asset() {
    let one = Release { tag_name: "v2.0.0".to_string(), assets: vec![asset("https://x/y.zip")] };
    assert_eq!(latest_release(one), Ok(release("v2.0.0", "https://x/y.zip")));
    let three = Release { tag_name: "v3".to_string(), assets: vec![asset("a"), asset("b"), asset("c")] };
    assert_eq!(latest_release(three), Ok(release("v3", "a")));
    let blank = Release { tag_name: "".to_string(), assets: vec![asset("")] };
    assert_eq!(latest_release(blank), Ok(release("", "")));
}

#[test]
fn latest_release_refuses_a_release_without_assets() {
    for tag in ["v2.0.0", "", "v1"] {
        let none = Release { tag_name: tag.to_string(), assets: vec![] };
        assert_eq!(latest_release(none), Err(UpdateError::NoAssets));
    }
}

#[test]
fn feed_is_asked_at_its_fixed_resource() {
    assert_eq!(
        updater::feed::FEED_URL,
        "https://api.github.com/repos/jz315/AutoPlayListening/releases/latest"
    );
    assert_eq!(updater::feed::FEED_USER_AGENT, "request");
}
