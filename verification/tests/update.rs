use dnd_spells::update::{check_release, Release, ReleaseCheck};

fn release(version: &str, url: Option<&str>) -> Option<Release> {
    Some(Release { version: version.to_string(), asset_url: url.map(str::to_string) })
}

#[test]
fn a_newer_release_with_a_download_is_ready() {
    assert_eq!(
        check_release(release("1.3.0", Some("https://example.com/spells")), "1.2.9"),
        Some(ReleaseCheck::Ready("https://example.com/spells".to_string()))
    );
    assert_eq!(check_release(release("1.3.0", None), "1.2.9"), Some(ReleaseCheck::UpToDate));
}

#[test]
fn older_or_equal_releases_are_not_offered() {
    assert_eq!(check_release(release("1.2.9", Some("u")), "1.2.9"), Some(ReleaseCheck::UpToDate));
    assert_eq!(check_release(release("1.10.0", Some("u")), "1.9.0"), Some(ReleaseCheck::Ready("u".to_string())));
    assert_eq!(check_release(release("1.0.0-alpha", Some("u")), "1.0.0"), Some(ReleaseCheck::UpToDate));
    assert_eq!(check_release(None, "1.0.0"), Some(ReleaseCheck::UpToDate));
}

#[test]
fn versions_that_are_not_semantic_versions() {
    assert_eq!(check_release(release("v2", Some("u")), "1.0.0"), None);
    assert_eq!(check_release(release("2.0.0", Some("u")), "one"), None);
}
