use bunkr_spider::cleanup::FileEntry;
use bunkr_spider::controller::BunkrSpider;
use bunkr_spider::extract::SourceDescriptor;
use bunkr_spider::progress::BunkrSpiderInformation;
use bunkr_spider::progress::BunkrSpiderState;
use bunkr_spider::retry::AttemptEvent;
use bunkr_spider::retry::ItemOutcome;

fn spider_with_sources(n: usize) -> BunkrSpider {
    let mut sources = Vec::new();
    for i in 0..n {
        sources.push(SourceDescriptor {
            name: format!("file-{}.jpg", i),
            url: format!("https://files.example.su/file-{}.jpg", i),
        });
    }
    BunkrSpider {
        url: String::from("https://example.su/album"),
        title: String::from("Album"),
        sources,
        base_dir: String::from("."),
        should_stop: false,
        info: BunkrSpiderInformation {
            total_sources: Some(n),
            downloaded_sources: Some(0),
            state: BunkrSpiderState::Analyzing,
        },
    }
}

fn quick_success() -> Vec<AttemptEvent> {
    vec![
        AttemptEvent::Success,
        AttemptEvent::Success,
        AttemptEvent::Success,
        AttemptEvent::Success,
    ]
}

fn all_failures(msg: &str) -> Vec<AttemptEvent> {
    vec![
        AttemptEvent::Failure(format!("{} (try 1)", msg)),
        AttemptEvent::Failure(format!("{} (try 2)", msg)),
        AttemptEvent::Failure(format!("{} (try 3)", msg)),
        AttemptEvent::Failure(format!("{} (try 4)", msg)),
    ]
}

#[test]
fn ten_sources_two_permanent_failures() {
    let mut spider = spider_with_sources(10);
    let mut events = Vec::new();
    for i in 0..10 {
        if i == 3 || i == 7 {
            events.push(all_failures("connection reset"));
        } else {
            events.push(quick_success());
        }
    }
    let outcomes = spider.download_all(&events);
    assert_eq!(outcomes.len(), 10);
    assert_eq!(spider.info.downloaded_sources, Some(8));
    assert_eq!(spider.info.total_sources, Some(10));
    assert!(spider.info.state == BunkrSpiderState::Finished);
    let mut exhausted = 0;
    for (i, o) in outcomes.iter().enumerate() {
        if i == 3 || i == 7 {
            match o {
                ItemOutcome::Exhausted(m) => {
                    exhausted += 1;
                    assert_eq!(m, "connection reset (try 4)");
                }
                _ => panic!("item {} should be exhausted", i),
            }
        } else {
            assert!(matches!(o, ItemOutcome::Completed));
        }
    }
    assert_eq!(exhausted, 2);
}

#[test]
fn late_success_still_completes() {
    let mut spider = spider_with_sources(1);
    let events = vec![vec![
        AttemptEvent::Failure(String::from("timeout")),
        AttemptEvent::Failure(String::from("timeout")),
        AttemptEvent::Failure(String::from("timeout")),
        AttemptEvent::Success,
    ]];
    let outcomes = spider.download_all(&events);
    assert!(matches!(outcomes[0], ItemOutcome::Completed));
    assert_eq!(spider.info.downloaded_sources, Some(1));
}

#[test]
fn counter_resumes_from_nonzero() {
    let mut spider = spider_with_sources(10);
    spider.info.total_sources = Some(12);
    spider.info.downloaded_sources = Some(2);
    let mut events = Vec::new();
    for i in 0..10 {
        if i < 2 {
            events.push(all_failures("gone"));
        } else {
            events.push(quick_success());
        }
    }
    let outcomes = spider.download_all(&events);
    assert_eq!(outcomes.len(), 10);
    assert_eq!(spider.info.downloaded_sources, Some(10));
    assert_eq!(spider.info.total_sources, Some(12));
}

#[test]
fn cancellation_before_download_stops_every_item() {
    let mut spider = spider_with_sources(5);
    spider.stop();
    let mut events = Vec::new();
    for _ in 0..5 {
        events.push(quick_success());
    }
    let outcomes = spider.download_all(&events);
    assert_eq!(outcomes.len(), 5);
    for o in &outcomes {
        assert!(matches!(o, ItemOutcome::Stopped));
    }
    assert_eq!(spider.info.downloaded_sources, Some(0));
    assert!(spider.info.state == BunkrSpiderState::Finished);
}

#[test]
fn stop_changes_no_state() {
    let mut spider = spider_with_sources(2);
    let before = spider.get_info();
    spider.stop();
    assert!(spider.should_stop);
    let after = spider.get_info();
    assert_eq!(after.total_sources, before.total_sources);
    assert_eq!(after.downloaded_sources, before.downloaded_sources);
    assert!(after.state == before.state);
}

#[test]
fn reset_after_finished_clears_everything() {
    let mut spider = spider_with_sources(3);
    let mut events = Vec::new();
    for _ in 0..3 {
        events.push(quick_success());
    }
    spider.download_all(&events);
    assert!(spider.get_state() == BunkrSpiderState::Finished);
    spider.stop();
    spider.reset();
    let info = spider.get_info();
    assert_eq!(info.total_sources, None);
    assert_eq!(info.downloaded_sources, None);
    assert!(info.state == BunkrSpiderState::Idle);
    assert_eq!(spider.sources.len(), 0);
    assert_eq!(spider.title, "");
    assert!(!spider.should_stop);
}

#[test]
fn phase_edges_and_counter() {
    let mut spider = spider_with_sources(2);
    spider.begin_download();
    assert!(spider.get_state() == BunkrSpiderState::Downloading);
    spider.record_completed();
    assert_eq!(spider.info.downloaded_sources, Some(1));
    spider.record_completed();
    assert_eq!(spider.info.downloaded_sources, Some(2));
    spider.finish_download();
    assert!(spider.get_state() == BunkrSpiderState::Finished);
}

#[test]
fn cleanup_selects_exactly_the_small_regular_files() {
    let spider = BunkrSpider::new();
    let entries = vec![
        FileEntry { name: String::from("tiny.html"), size: 120, is_regular: true },
        FileEntry { name: String::from("exact.bin"), size: 200, is_regular: true },
        FileEntry { name: String::from("small.jpg"), size: 199, is_regular: true },
        FileEntry { name: String::from("subdir"), size: 10, is_regular: false },
        FileEntry { name: String::from("big.mp4"), size: 100_000, is_regular: true },
    ];
    let doomed = spider.clean_error_files(&entries);
    assert_eq!(doomed, vec![String::from("tiny.html"), String::from("small.jpg")]);
}

#[test]
fn download_dir_resolution() {
    let mut spider = spider_with_sources(0);
    assert_eq!(spider.get_download_dir(true), "./Album");
    spider.title = String::new();
    assert_eq!(spider.get_download_dir(false), "./no_title");
}

#[test]
fn new_spider_is_fresh() {
    let spider = BunkrSpider::new();
    let info = spider.get_info();
    assert_eq!(info.total_sources, None);
    assert_eq!(info.downloaded_sources, None);
    assert!(info.state == BunkrSpiderState::Idle);
    assert_eq!(spider.base_dir, ".");
    assert!(!spider.should_stop);
}
