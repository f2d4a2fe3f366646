use unlock_probe::model::Fetch;
use unlock_probe::youtube::check_youtube_premium;

#[test]
fn youtube_not_available() {
    let body = "YouTube Premium is not available in your country".to_string();
    let item = check_youtube_premium(&Fetch::Body(body));
    assert_eq!(item.name, "Youtube Premium");
    assert_eq!(item.status, "No");
    assert!(item.region.is_none());
}

#[test]
fn youtube_served_with_trimmed_region() {
    let body = "enjoy Ad-free videos <span id=\"country-code\" class=\"c\"> US </span>"
        .to_string();
    let item = check_youtube_premium(&Fetch::Body(body));
    assert_eq!(item.status, "Yes");
    assert_eq!(item.region.as_deref(), Some("\u{1F1FA}\u{1F1F8}US"));
}

#[test]
fn youtube_served_without_region_element() {
    let item = check_youtube_premium(&Fetch::Body("ad-free everywhere".to_string()));
    assert_eq!(item.status, "Yes");
    assert!(item.region.is_none());
}

#[test]
fn youtube_blank_element_text_yields_no_region() {
    let body = "ad-free <span id=\"country-code\" class=\"c\">   </span>".to_string();
    let item = check_youtube_premium(&Fetch::Body(body));
    assert_eq!(item.status, "Yes");
    assert!(item.region.is_none());
}

#[test]
fn youtube_unclassifiable_body() {
    let item = check_youtube_premium(&Fetch::Body("something else".to_string()));
    assert_eq!(item.status, "Failed");
    assert!(item.region.is_none());
}

#[test]
fn youtube_transport_failure() {
    let item = check_youtube_premium(&Fetch::Transport);
    assert_eq!(item.status, "Failed");
    assert!(item.region.is_none());
    assert!(item.check_time.is_some());
}
