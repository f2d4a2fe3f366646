use unlock_probe::gemini::check_gemini;
use unlock_probe::model::Fetch;

#[test]
fn gemini_served_with_region() {
    let body = format!(
        "prefix {} middle ,2,1,200,\"USA\" suffix",
        "45631641,null,true"
    );
    let item = check_gemini(&Fetch::Body(body));
    assert_eq!(item.name, "Gemini");
    assert_eq!(item.status, "Yes");
    assert_eq!(item.region.as_deref(), Some("\u{1F1FA}\u{1F1F8}USA"));
    assert!(item.check_time.is_some());
}

#[test]
fn gemini_not_served_without_marker() {
    let item = check_gemini(&Fetch::Body("nothing of note ,2,1,200,\"x\"".to_string()));
    assert_eq!(item.status, "No");
    assert!(item.region.is_none());
}

#[test]
fn gemini_skips_incomplete_pattern_occurrences() {
    let body = ",2,1,200,\"us\" then ,2,1,200,\"GBR\"".to_string();
    let item = check_gemini(&Fetch::Body(body));
    assert_eq!(item.region.as_deref(), Some("\u{1F1EC}\u{1F1E7}GBR"));
}

#[test]
fn gemini_transport_failure() {
    let item = check_gemini(&Fetch::Transport);
    assert_eq!(item.status, "Failed");
    assert!(item.region.is_none());
    assert!(item.check_time.is_some());
}
