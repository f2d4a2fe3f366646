use unlock_probe::chatgpt::check_chatgpt_combined;
use unlock_probe::model::Fetch;

#[test]
fn chatgpt_success_with_shared_region() {
    let trace = Fetch::Body("ip=1.2.3.4\nloc=US\ncolo=SJC\n".to_string());
    let ios = Fetch::Body("Request is not allowed. Please try again later.".to_string());
    let web = Fetch::Body("{\"ok\":true}".to_string());
    let items = check_chatgpt_combined(&trace, &ios, &web);
    assert_eq!(items.len(), 2);
    assert_eq!(items[0].name, "ChatGPT iOS");
    assert_eq!(items[1].name, "ChatGPT Web");
    assert_eq!(items[0].status, "Yes");
    assert_eq!(items[1].status, "Yes");
    assert_eq!(items[0].region.as_deref(), Some("\u{1F1FA}\u{1F1F8}US"));
    assert_eq!(items[1].region.as_deref(), Some("\u{1F1FA}\u{1F1F8}US"));
    assert!(items[0].check_time.is_some());
    assert!(items[1].check_time.is_some());
    assert!(!items[0].check_time.as_deref().unwrap().is_empty());
}

#[test]
fn chatgpt_trace_failure_leaves_statuses_alone() {
    let trace = Fetch::Transport;
    let ios = Fetch::Body("Sorry, you have been blocked".to_string());
    let web = Fetch::Body("unsupported_country detected".to_string());
    let items = check_chatgpt_combined(&trace, &ios, &web);
    assert_eq!(items.len(), 2);
    assert_eq!(items[0].status, "Blocked");
    assert_eq!(items[1].status, "Unsupported Country");
    assert!(items[0].region.is_none());
    assert!(items[1].region.is_none());
}

#[test]
fn chatgpt_disallowed_isp() {
    let trace = Fetch::Transport;
    let ios = Fetch::Body("You may be connected to a disallowed ISP.".to_string());
    let web = Fetch::Transport;
    let items = check_chatgpt_combined(&trace, &ios, &web);
    assert_eq!(items[0].status, "Disallowed ISP");
    assert_eq!(items[1].status, "Failed");
}

#[test]
fn chatgpt_all_probes_failing() {
    let items = check_chatgpt_combined(&Fetch::Transport, &Fetch::Transport, &Fetch::Transport);
    assert_eq!(items.len(), 2);
    assert_eq!(items[0].status, "Failed");
    assert_eq!(items[1].status, "Failed");
    assert!(items[0].region.is_none());
    assert!(items[1].region.is_none());
}

#[test]
fn chatgpt_trace_last_loc_wins_and_strips_cr() {
    let trace = Fetch::Body("loc=DE\r\nloc=FR\r\n".to_string());
    let ios = Fetch::Body("request is not allowed. please try again later.".to_string());
    let web = Fetch::Body("fine".to_string());
    let items = check_chatgpt_combined(&trace, &ios, &web);
    assert_eq!(items[0].region.as_deref(), Some("\u{1F1EB}\u{1F1F7}FR"));
}

#[test]
fn chatgpt_empty_loc_entry_yields_no_region() {
    let trace = Fetch::Body("ip=1.2.3.4\nloc=\ncolo=SJC".to_string());
    let ios = Fetch::Body("request is not allowed. please try again later.".to_string());
    let web = Fetch::Body("fine".to_string());
    let items = check_chatgpt_combined(&trace, &ios, &web);
    assert!(items[0].region.is_none());
    assert!(items[1].region.is_none());
    assert_eq!(items[0].status, "Yes");
}

#[test]
fn chatgpt_trace_without_loc_entry() {
    let trace = Fetch::Body("ip=1.2.3.4\ncolo=SJC".to_string());
    let ios = Fetch::Body("other".to_string());
    let web = Fetch::Body("fine".to_string());
    let items = check_chatgpt_combined(&trace, &ios, &web);
    assert_eq!(items[0].status, "Failed");
    assert!(items[0].region.is_none());
    assert!(items[1].region.is_none());
}
