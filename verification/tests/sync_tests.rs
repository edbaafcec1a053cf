use filesync::cache::EtagCache;
use filesync::control::{next_phase, ControlAction, ControlEvent, Phase};
use filesync::cycle::{apply_response, prepare_request, CycleOutcome, FailReason, FetchResponse};
use filesync::detect::differs;
use filesync::{LogLevel, SyncSettings};

#[test]
fn identical_texts_are_never_a_change() {
    // Round trip: content just written, fetched again unchanged.
    let (changed, additions, removals) = differs("line one\nline two\n", "line one\nline two\n");
    assert!(!changed);
    assert_eq!(additions, 0);
    assert_eq!(removals, 0);
}

#[test]
fn identical_empty_texts_are_never_a_change() {
    let (changed, additions, removals) = differs("", "");
    assert!(!changed);
    assert_eq!(additions, 0);
    assert_eq!(removals, 0);
}

#[test]
fn first_fetch_of_a_new_path_is_a_change() {
    // An absent file reads as the empty string, so the body is all additions.
    let (changed, additions, removals) = differs("", "hello\nworld\n");
    assert!(changed);
    assert_eq!(additions, 2);
    assert_eq!(removals, 0);
}

#[test]
fn a_replaced_line_counts_once_each_way() {
    let (changed, additions, removals) = differs("a\nb\nc\n", "a\nx\nc\n");
    assert!(changed);
    assert_eq!(additions, 1);
    assert_eq!(removals, 1);
}

#[test]
fn cache_starts_cold_and_remembers_tokens() {
    let mut cache = EtagCache::new();
    let url = String::from("https://example.com/a.txt");
    assert!(cache.get(&url).is_none());

    cache.put(&url, String::from("\"v1\""));
    assert_eq!(cache.get(&url).unwrap().as_str(), "\"v1\"");

    cache.put(&url, String::from("\"v2\""));
    assert_eq!(cache.get(&url).unwrap().as_str(), "\"v2\"");

    let other = String::from("https://example.com/b.txt");
    assert!(cache.get(&other).is_none());
}

#[test]
fn new_token_is_presented_on_the_next_request() {
    // A successful fetch with a previously-unseen token: the next request
    // for the same URL carries it as a precondition.
    let mut cache = EtagCache::new();
    let url = String::from("https://example.com/a.txt");
    assert!(prepare_request(&cache, &url).is_none());

    let resp = FetchResponse::Success {
        etag: Some(String::from("\"abc123\"")),
        body: String::from("payload\n"),
    };
    let _ = apply_response(&mut cache, &url, &resp, &String::new());
    assert_eq!(prepare_request(&cache, &url).unwrap().as_str(), "\"abc123\"");
}

#[test]
fn first_cycle_writes_a_new_file() {
    // One descriptor, nothing on disk yet: the fetched body is written.
    let mut cache = EtagCache::new();
    let url = String::from("https://example.com/a.txt");
    let resp = FetchResponse::Success {
        etag: Some(String::from("\"tag\"")),
        body: String::from("hello\n"),
    };
    let d = apply_response(&mut cache, &url, &resp, &String::new());
    assert!(d.write_file);
    assert_eq!(
        d.outcome,
        CycleOutcome::Written { bytes_len: 6, additions: 1, removals: 0 }
    );
}

#[test]
fn matching_body_is_skipped_and_file_untouched() {
    // The body equals what the file already holds: nothing is written.
    let mut cache = EtagCache::new();
    let url = String::from("https://example.com/a.txt");
    let resp = FetchResponse::Success { etag: None, body: String::from("hello\n") };
    let d = apply_response(&mut cache, &url, &resp, &String::from("hello\n"));
    assert!(!d.write_file);
    assert_eq!(d.outcome, CycleOutcome::SkippedUnchanged);
    // no token came back, so requests for this URL stay unconditional
    assert!(prepare_request(&cache, &url).is_none());
}

#[test]
fn not_modified_touches_neither_file_nor_cache() {
    let mut cache = EtagCache::new();
    let url = String::from("https://example.com/a.txt");
    cache.put(&url, String::from("\"v1\""));

    let d = apply_response(
        &mut cache,
        &url,
        &FetchResponse::NotModified,
        &String::from("hello\n"),
    );
    assert!(!d.write_file);
    assert_eq!(d.outcome, CycleOutcome::SkippedNotModified);
    assert_eq!(cache.get(&url).unwrap().as_str(), "\"v1\"");
}

#[test]
fn second_cycle_after_not_modified_keeps_the_file() {
    // Cycle one writes; cycle two gets "not modified" and leaves the file
    // exactly as cycle one wrote it.
    let mut cache = EtagCache::new();
    let url = String::from("https://example.com/a.txt");
    let body = String::from("content\n");

    let resp1 = FetchResponse::Success { etag: Some(String::from("\"e1\"")), body: body.clone() };
    let d1 = apply_response(&mut cache, &url, &resp1, &String::new());
    assert!(d1.write_file);
    let on_disk = body.clone();

    assert_eq!(prepare_request(&cache, &url).unwrap().as_str(), "\"e1\"");
    let d2 = apply_response(&mut cache, &url, &FetchResponse::NotModified, &on_disk);
    assert!(!d2.write_file);
    assert_eq!(d2.outcome, CycleOutcome::SkippedNotModified);
}

#[test]
fn two_cycles_with_unchanged_remote_write_once() {
    // Idempotence: the second cycle sees the body it wrote and skips it.
    let mut cache = EtagCache::new();
    let url = String::from("https://example.com/a.txt");
    let body = String::from("alpha\nbeta\n");

    let resp = FetchResponse::Success { etag: None, body: body.clone() };
    let d1 = apply_response(&mut cache, &url, &resp, &String::new());
    assert!(d1.write_file);

    let on_disk = body.clone();
    let d2 = apply_response(&mut cache, &url, &resp, &on_disk);
    assert!(!d2.write_file);
    assert_eq!(d2.outcome, CycleOutcome::SkippedUnchanged);
}

#[test]
fn server_error_fails_the_step_and_touches_nothing() {
    let mut cache = EtagCache::new();
    let url = String::from("https://example.com/a.txt");
    cache.put(&url, String::from("\"v1\""));

    let d = apply_response(
        &mut cache,
        &url,
        &FetchResponse::HttpError { status: 500 },
        &String::from("hello\n"),
    );
    assert!(!d.write_file);
    assert_eq!(
        d.outcome,
        CycleOutcome::Failed { reason: FailReason::HttpStatus { status: 500 } }
    );
    assert_eq!(cache.get(&url).unwrap().as_str(), "\"v1\"");
}

#[test]
fn transport_error_fails_the_step() {
    let mut cache = EtagCache::new();
    let url = String::from("https://example.com/a.txt");
    let d = apply_response(
        &mut cache,
        &url,
        &FetchResponse::TransportError,
        &String::new(),
    );
    assert!(!d.write_file);
    assert_eq!(d.outcome, CycleOutcome::Failed { reason: FailReason::Transport });
}

#[test]
fn controller_walks_the_cycle_sleep_loop() {
    assert_eq!(
        next_phase(Phase::Idle, ControlEvent::Started),
        (Phase::RunningCycle, ControlAction::BeginCycle)
    );
    assert_eq!(
        next_phase(Phase::RunningCycle, ControlEvent::CycleDone),
        (Phase::Sleeping, ControlAction::BeginSleep)
    );
    assert_eq!(
        next_phase(Phase::Sleeping, ControlEvent::SleepDone),
        (Phase::RunningCycle, ControlAction::BeginCycle)
    );
}

#[test]
fn shutdown_while_sleeping_exits_without_another_cycle() {
    // Signal arrives mid-sleep: announce, then exit with success; no
    // further event can start a cycle.
    let (p1, a1) = next_phase(Phase::Sleeping, ControlEvent::ShutdownSignal);
    assert_eq!(p1, Phase::ShuttingDown);
    assert_eq!(a1, ControlAction::AnnounceShutdown);

    let (p2, a2) = next_phase(p1, ControlEvent::SleepDone);
    assert_eq!(p2, Phase::Terminated);
    assert_eq!(a2, ControlAction::Exit);

    let (p3, a3) = next_phase(p2, ControlEvent::SleepDone);
    assert_eq!(p3, Phase::Terminated);
    assert_eq!(a3, ControlAction::Hold);
}

#[test]
fn shutdown_wins_in_every_phase() {
    for p in [Phase::Idle, Phase::RunningCycle, Phase::Sleeping, Phase::ShuttingDown] {
        let (next, action) = next_phase(p, ControlEvent::ShutdownSignal);
        assert_ne!(action, ControlAction::BeginCycle);
        assert_ne!(action, ControlAction::BeginSleep);
        assert!(next == Phase::ShuttingDown || next == Phase::Terminated);
    }
}

#[test]
fn settings_reject_a_zero_interval() {
    assert!(SyncSettings::new(0, true, LogLevel::Info).is_none());
    let s = SyncSettings::new(30_000, true, LogLevel::Debug).unwrap();
    assert_eq!(s.interval_ms, 30_000);
    assert!(s.create_directories);
    assert_eq!(s.log_level, LogLevel::Debug);
}
