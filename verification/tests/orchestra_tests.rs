use unlock_probe::chatgpt::check_chatgpt_combined;
use unlock_probe::gemini::check_gemini;
use unlock_probe::model::{Fetch, UnlockItem};
use unlock_probe::netflix::{check_netflix_cdn, check_netflix_content, CdnProbe, ContentOutcome};
use unlock_probe::orchestra::{get_unlock_items, ResultCollector};
use unlock_probe::prime::check_prime_video;
use unlock_probe::youtube::check_youtube_premium;

const ALL_NAMES: [&str; 6] = [
    "ChatGPT iOS",
    "ChatGPT Web",
    "Gemini",
    "Youtube Premium",
    "Netflix",
    "Prime Video",
];

#[test]
fn placeholders_cover_every_service() {
    let items = get_unlock_items().unwrap();
    assert_eq!(items.len(), 6);
    for (item, expected) in items.iter().zip(ALL_NAMES.iter()) {
        assert_eq!(&item.name, expected);
        assert_eq!(item.status, "Waiting");
        assert!(item.region.is_none());
        assert!(item.check_time.is_none());
    }
}

/// The five units' outputs when every transport fails, as the drivers
/// produce them.
fn failing_units() -> Vec<Vec<UnlockItem>> {
    let chat = check_chatgpt_combined(&Fetch::Transport, &Fetch::Transport, &Fetch::Transport);
    let gemini = vec![check_gemini(&Fetch::Transport)];
    let youtube = vec![check_youtube_premium(&Fetch::Transport)];
    let (cdn_item, settled) = check_netflix_cdn(&CdnProbe::Transport);
    assert!(!settled);
    let _ = cdn_item;
    let netflix = match check_netflix_content(None, None) {
        ContentOutcome::Done(item) => vec![item],
        ContentOutcome::ProbeRegion => panic!("a failing transport cannot unlock"),
    };
    let prime = vec![check_prime_video(&Fetch::Transport)];
    vec![chat, gemini, youtube, netflix, prime]
}

fn collect_in_order(units: Vec<Vec<UnlockItem>>, order: &[usize]) -> Vec<UnlockItem> {
    let mut units: Vec<Option<Vec<UnlockItem>>> = units.into_iter().map(Some).collect();
    let mut sink = ResultCollector::new();
    for &k in order {
        sink.append_unit(units[k].take().unwrap());
    }
    sink.into_items()
}

fn sorted_names(items: &[UnlockItem]) -> Vec<String> {
    let mut names: Vec<String> = items.iter().map(|it| it.name.clone()).collect();
    names.sort();
    names
}

#[test]
fn all_transports_failing_still_yields_six_failed_records() {
    let items = collect_in_order(failing_units(), &[0, 1, 2, 3, 4]);
    assert_eq!(items.len(), 6);
    let mut expected: Vec<String> = ALL_NAMES.iter().map(|n| n.to_string()).collect();
    expected.sort();
    assert_eq!(sorted_names(&items), expected);
    for item in &items {
        assert!(item.status.starts_with("Failed"));
        assert!(item.region.is_none());
        assert!(item.check_time.is_some());
    }
}

#[test]
fn completion_order_does_not_change_coverage() {
    let a = collect_in_order(failing_units(), &[0, 1, 2, 3, 4]);
    let b = collect_in_order(failing_units(), &[4, 2, 0, 3, 1]);
    let c = collect_in_order(failing_units(), &[3, 4, 1, 0, 2]);
    assert_eq!(a.len(), 6);
    assert_eq!(b.len(), 6);
    assert_eq!(c.len(), 6);
    assert_eq!(sorted_names(&a), sorted_names(&b));
    assert_eq!(sorted_names(&b), sorted_names(&c));
}

#[test]
fn collector_appends_in_one_step_per_unit() {
    let mut sink = ResultCollector::new();
    let items = get_unlock_items().unwrap();
    sink.append_unit(items);
    let out = sink.into_items();
    assert_eq!(out.len(), 6);
}
