use unlock_probe::netflix::{
    check_netflix_cdn, check_netflix_content, check_netflix_region, CdnProbe, ContentOutcome,
    RegionProbe,
};

#[test]
fn netflix_cdn_banned_is_final() {
    let probe = CdnProbe::Response {
        status: 403,
        body: Some("{}".to_string()),
    };
    let (item, settled) = check_netflix_cdn(&probe);
    assert_eq!(item.name, "Netflix");
    assert_eq!(item.status, "No (IP Banned By Netflix)");
    assert!(item.region.is_none());
    // The content stage is skipped: the outcome is already settled.
    assert!(settled);
}

#[test]
fn netflix_cdn_country_is_final() {
    let body = "{\"targets\":[{\"location\":{\"country\":\"US\"},\"url\":\"u\"}]}".to_string();
    let probe = CdnProbe::Response {
        status: 200,
        body: Some(body),
    };
    let (item, settled) = check_netflix_cdn(&probe);
    assert_eq!(item.status, "Yes");
    assert_eq!(item.region.as_deref(), Some("\u{1F1FA}\u{1F1F8}US"));
    assert!(settled);
}

#[test]
fn netflix_cdn_without_country_falls_through() {
    let probe = CdnProbe::Response {
        status: 200,
        body: Some("{\"targets\":[]}".to_string()),
    };
    let (item, settled) = check_netflix_cdn(&probe);
    assert_eq!(item.status, "Unknown");
    assert!(item.region.is_none());
    assert!(!settled);
}

#[test]
fn netflix_cdn_unparseable_body() {
    let probe = CdnProbe::Response {
        status: 200,
        body: Some("not json at all".to_string()),
    };
    let (item, settled) = check_netflix_cdn(&probe);
    assert_eq!(item.status, "Failed (Parse Error)");
    assert!(!settled);
}

#[test]
fn netflix_cdn_transport_failure() {
    let (item, settled) = check_netflix_cdn(&CdnProbe::Transport);
    assert_eq!(item.status, "Failed (CDN API)");
    assert!(!settled);
}

#[test]
fn netflix_unknown_then_both_titles_missing() {
    // CDN stage could not name a country, and both content probes answer 404.
    let probe = CdnProbe::Response {
        status: 200,
        body: Some("{\"targets\":[]}".to_string()),
    };
    let (_, settled) = check_netflix_cdn(&probe);
    assert!(!settled);
    match check_netflix_content(Some(404), Some(404)) {
        ContentOutcome::Done(item) => assert_eq!(item.status, "Originals Only"),
        ContentOutcome::ProbeRegion => panic!("expected a final record"),
    }
}

#[test]
fn netflix_content_forbidden() {
    match check_netflix_content(Some(403), Some(200)) {
        ContentOutcome::Done(item) => assert_eq!(item.status, "No"),
        ContentOutcome::ProbeRegion => panic!("expected a final record"),
    }
}

#[test]
fn netflix_content_unlocked_needs_region() {
    match check_netflix_content(Some(200), Some(500)) {
        ContentOutcome::Done(_) => panic!("expected a region probe"),
        ContentOutcome::ProbeRegion => {}
    }
}

#[test]
fn netflix_content_odd_codes_carry_diagnostics() {
    match check_netflix_content(Some(500), Some(502)) {
        ContentOutcome::Done(item) => assert_eq!(item.status, "Failed (Status: 500_502)"),
        ContentOutcome::ProbeRegion => panic!("expected a final record"),
    }
}

#[test]
fn netflix_content_transport_failure() {
    match check_netflix_content(None, None) {
        ContentOutcome::Done(item) => {
            assert_eq!(item.status, "Failed");
            assert!(item.region.is_none());
        }
        ContentOutcome::ProbeRegion => panic!("expected a final record"),
    }
}

#[test]
fn netflix_region_from_redirect_path() {
    let loc = "https://www.netflix.com/jp-en/title/80018499".to_string();
    let item = check_netflix_region(&RegionProbe::Redirect(Some(loc)));
    assert_eq!(item.status, "Yes");
    assert_eq!(item.region.as_deref(), Some("\u{1F1EF}\u{1F1F5}jp"));
}

#[test]
fn netflix_region_defaults_to_us_without_redirect() {
    let item = check_netflix_region(&RegionProbe::Redirect(None));
    assert_eq!(item.status, "Yes");
    assert_eq!(item.region.as_deref(), Some("\u{1F1FA}\u{1F1F8}us"));
}

#[test]
fn netflix_region_short_path_defaults_to_us() {
    let item = check_netflix_region(&RegionProbe::Redirect(Some("/browse".to_string())));
    assert_eq!(item.region.as_deref(), Some("\u{1F1FA}\u{1F1F8}us"));
}

#[test]
fn netflix_cdn_empty_country_stays_unknown() {
    let body = "{\"targets\":[{\"location\":{\"country\":\"\"}}]}".to_string();
    let probe = CdnProbe::Response {
        status: 200,
        body: Some(body),
    };
    let (item, settled) = check_netflix_cdn(&probe);
    assert_eq!(item.status, "Unknown");
    assert!(item.region.is_none());
    assert!(!settled);
}

#[test]
fn netflix_region_empty_segment_defaults_to_us() {
    let item = check_netflix_region(&RegionProbe::Redirect(Some("///".to_string())));
    assert_eq!(item.status, "Yes");
    assert_eq!(item.region.as_deref(), Some("\u{1F1FA}\u{1F1F8}us"));
}

#[test]
fn netflix_region_probe_failure_keeps_yes() {
    let item = check_netflix_region(&RegionProbe::Transport);
    assert_eq!(item.status, "Yes (region unknown)");
    assert!(item.region.is_none());
}
