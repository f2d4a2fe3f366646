use unlock_probe::model::Fetch;
use unlock_probe::prime::check_prime_video;

#[test]
fn prime_served_with_territory() {
    let body = "{\"currentTerritory\":\"JP\",\"more\":1}".to_string();
    let item = check_prime_video(&Fetch::Body(body));
    assert_eq!(item.name, "Prime Video");
    assert_eq!(item.status, "Yes");
    assert_eq!(item.region.as_deref(), Some("\u{1F1EF}\u{1F1F5}JP"));
    assert!(item.check_time.is_some());
}

#[test]
fn prime_restricted_wins_over_territory() {
    let body = "isServiceRestricted and \"currentTerritory\":\"JP\"".to_string();
    let item = check_prime_video(&Fetch::Body(body));
    assert_eq!(item.status, "No (Service Not Available)");
    assert!(item.region.is_none());
}

#[test]
fn prime_page_without_markers() {
    let item = check_prime_video(&Fetch::Body("<html>welcome</html>".to_string()));
    assert_eq!(item.status, "Failed (Error: PAGE ERROR)");
    assert!(item.region.is_none());
}

#[test]
fn prime_transport_failure() {
    let item = check_prime_video(&Fetch::Transport);
    assert_eq!(item.status, "Failed (Network Connection)");
    assert!(item.region.is_none());
}

#[test]
fn prime_unreadable_body() {
    let item = check_prime_video(&Fetch::Unreadable);
    assert_eq!(item.status, "Failed (Error: Cannot read response)");
    assert!(item.region.is_none());
}

#[test]
fn prime_territory_capture_stops_at_quote() {
    let body = "x\"currentTerritory\":\"DE\"rest".to_string();
    let item = check_prime_video(&Fetch::Body(body));
    assert_eq!(item.region.as_deref(), Some("\u{1F1E9}\u{1F1EA}DE"));
}
