use mirror_fetch::engine::transfer_rate;
use mirror_fetch::engine::AttemptProgress;
use mirror_fetch::errors::DownloadError;
use mirror_fetch::fallback::FallbackRun;
use mirror_fetch::fallback::RunResult;
use mirror_fetch::mirror::Mirror;

fn mirrors(names: &[&str]) -> Vec<Mirror> {
    names
        .iter()
        .map(|n| Mirror::from_base_url(String::from(*n)))
        .collect()
}

#[test]
fn begin_attempt_needs_content_length() {
    match AttemptProgress::begin_attempt(None) {
        Err(DownloadError::UnknownContentLength) => {}
        _ => panic!("expected UnknownContentLength"),
    }
}

#[test]
fn begin_attempt_starts_at_zero() {
    let p = AttemptProgress::begin_attempt(Some(42)).unwrap();
    assert_eq!(p.total, 42);
    assert_eq!(p.received, 0);
}

#[test]
fn chunks_accumulate_and_clamp() {
    let mut p = AttemptProgress::begin_attempt(Some(10)).unwrap();
    p.record_chunk(6);
    assert_eq!(p.received, 6);
    p.record_chunk(6);
    assert_eq!(p.received, 10);
    p.record_chunk(1);
    assert_eq!(p.received, 10);
    assert_eq!(p.finish(), Ok(10));
}

#[test]
fn short_body_is_interrupted() {
    let mut p = AttemptProgress::begin_attempt(Some(10)).unwrap();
    p.record_chunk(4);
    assert_eq!(p.interrupted(), DownloadError::StreamInterrupted(4));
    assert_eq!(p.finish(), Err(DownloadError::StreamInterrupted(4)));
}

#[test]
fn progress_event_reports_counters() {
    let mut p = AttemptProgress::begin_attempt(Some(8)).unwrap();
    p.record_chunk(3);
    let e = p.event(1500);
    assert_eq!(e.bytes_received, 3);
    assert_eq!(e.total_bytes, 8);
    assert_eq!(e.elapsed_ms, 1500);
}

#[test]
fn transfer_rate_is_bytes_per_second() {
    assert_eq!(transfer_rate(1000, 2000), 500);
    assert_eq!(transfer_rate(4096, 1000), 4096);
    assert_eq!(transfer_rate(123, 0), 0);
    assert_eq!(transfer_rate(u64::MAX, 1), u64::MAX);
}

#[test]
fn fallback_tries_mirrors_in_order_until_success() {
    let mut run = FallbackRun::new(mirrors(&["http://a/", "http://b/", "http://c/"]));
    let mut tried = Vec::new();
    loop {
        let url = match run.current_mirror() {
            Some(m) => m.base_url.clone(),
            None => break,
        };
        tried.push(url);
        if tried.len() < 3 {
            run.record_failure(DownloadError::Transport(String::from("refused")));
        } else {
            run.record_success(777);
            break;
        }
    }
    assert_eq!(tried, vec!["http://a/", "http://b/", "http://c/"]);
    match run.into_result() {
        RunResult::Succeeded { mirror_index, bytes } => {
            assert_eq!(mirror_index, 2);
            assert_eq!(bytes, 777);
        }
        RunResult::AllMirrorsExhausted { .. } => panic!("expected success"),
    }
}

#[test]
fn fallback_exhaustion_records_all_failures_in_order() {
    let mut run = FallbackRun::new(mirrors(&["http://a/", "http://b/", "http://c/"]));
    let reasons = [
        DownloadError::Transport(String::from("refused")),
        DownloadError::UnknownContentLength,
        DownloadError::StreamInterrupted(5),
    ];
    let mut next = 0;
    while !run.is_done() {
        assert!(run.current_mirror().is_some());
        run.record_failure(reasons[next].clone());
        next += 1;
    }
    assert_eq!(run.failure_count(), 3);
    match run.into_result() {
        RunResult::AllMirrorsExhausted { failures } => {
            assert_eq!(failures.len(), 3);
            assert_eq!(failures[0], DownloadError::Transport(String::from("refused")));
            assert_eq!(failures[1], DownloadError::UnknownContentLength);
            assert_eq!(failures[2], DownloadError::StreamInterrupted(5));
        }
        RunResult::Succeeded { .. } => panic!("expected exhaustion"),
    }
}

#[test]
fn fallback_over_no_mirrors_is_immediately_done() {
    let run = FallbackRun::new(Vec::new());
    assert!(run.is_done());
    match run.into_result() {
        RunResult::AllMirrorsExhausted { failures } => assert_eq!(failures.len(), 0),
        RunResult::Succeeded { .. } => panic!("expected exhaustion"),
    }
}
