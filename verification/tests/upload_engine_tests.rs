use vector_sdk::chunking::{chunk_payload, ChunkSource, ProgressCounter};
use vector_sdk::failover::{FailoverPlan, FailoverStep};
use vector_sdk::progress::{percentage_of, AttemptMonitor, TickAction};
use vector_sdk::retry::{RetryRun, UploadError};

#[test]
fn test_chunk_counts_and_final_bytes() {
    // 200,000 bytes at a 65,536-byte bound: three full chunks and one of
    // 3,392 bytes, with every byte counted
    let data: Vec<u8> = (0..200_000u32).map(|i| (i % 251) as u8).collect();
    let mut counter = ProgressCounter::new(200_000);
    let chunks = chunk_payload(data.clone(), 65_536, &mut counter);

    assert_eq!(chunks.len(), 4);
    assert_eq!(chunks[0].len(), 65_536);
    assert_eq!(chunks[1].len(), 65_536);
    assert_eq!(chunks[2].len(), 65_536);
    assert_eq!(chunks[3].len(), 3_392);
    assert_eq!(counter.bytes_sent, 200_000);

    // The chunks are the payload, in order
    let rebuilt: Vec<u8> = chunks.concat();
    assert_eq!(rebuilt, data);
}

#[test]
fn test_chunk_count_is_ceiling() {
    // ceil(10 / 4) = 3, and an exact division has no short chunk
    let data: Vec<u8> = (0..10u8).collect();
    let mut counter = ProgressCounter::new(10);
    let chunks = chunk_payload(data, 4, &mut counter);
    assert_eq!(chunks.len(), 3);
    assert_eq!(chunks[0], vec![0, 1, 2, 3]);
    assert_eq!(chunks[1], vec![4, 5, 6, 7]);
    assert_eq!(chunks[2], vec![8, 9]);

    let data: Vec<u8> = (0..8u8).collect();
    let mut counter = ProgressCounter::new(8);
    let chunks = chunk_payload(data, 4, &mut counter);
    assert_eq!(chunks.len(), 2);
    assert_eq!(counter.bytes_sent, 8);

    let mut counter = ProgressCounter::new(0);
    let chunks = chunk_payload(Vec::new(), 4, &mut counter);
    assert_eq!(chunks.len(), 0);
    assert_eq!(counter.bytes_sent, 0);
}

#[test]
fn test_chunk_source_order() {
    let data: Vec<u8> = (0..9u8).collect();
    let mut source = ChunkSource::new(data, 4);
    assert_eq!(source.next_chunk(), Some(vec![0, 1, 2, 3]));
    assert_eq!(source.next_chunk(), Some(vec![4, 5, 6, 7]));
    assert_eq!(source.next_chunk(), Some(vec![8]));
    assert_eq!(source.next_chunk(), None);
    assert_eq!(source.next_chunk(), None);
}

#[test]
fn test_single_chunk_payload() {
    // A payload smaller than the bound is one chunk
    let mut counter = ProgressCounter::new(5);
    let chunks = chunk_payload(vec![1, 2, 3, 4, 5], 100, &mut counter);
    assert_eq!(chunks, vec![vec![1, 2, 3, 4, 5]]);
    assert_eq!(counter.bytes_sent, 5);
}

#[test]
fn test_empty_payload_progress() {
    // An empty payload never stalls and still closes at exactly 100
    let mut monitor = AttemptMonitor::new(0, 2);
    assert!(matches!(monitor.on_tick(0), TickAction::Quiet));
    assert!(matches!(monitor.on_tick(0), TickAction::Quiet));
    assert!(matches!(monitor.on_tick(0), TickAction::Quiet));
    assert_eq!(monitor.finish(), Some((100, 0)));
}

#[test]
fn test_percentage_formula() {
    assert_eq!(percentage_of(0, 0), 0);
    assert_eq!(percentage_of(0, 200), 0);
    assert_eq!(percentage_of(50, 200), 25);
    assert_eq!(percentage_of(199, 200), 99);
    assert_eq!(percentage_of(200, 200), 100);
    assert_eq!(percentage_of(1, 3), 33);
}

#[test]
fn test_progress_reports_are_strictly_increasing() {
    // A full transfer: every report tops the one before, and the last is 100
    let mut monitor = AttemptMonitor::new(100, 200);
    let observations = [10u64, 10, 50, 50, 75, 100];
    let mut reported: Vec<u8> = vec![0]; // the mandatory 0% start report
    for bytes in observations {
        match monitor.on_tick(bytes) {
            TickAction::Report { percentage, bytes: b } => {
                assert!(percentage > *reported.last().unwrap());
                assert_eq!(b, bytes);
                reported.push(percentage);
            }
            TickAction::Quiet => {}
            TickAction::Abort => panic!("no stall in this trace"),
        }
    }
    if let Some((p, b)) = monitor.finish() {
        assert_eq!(b, 100);
        reported.push(p);
    }
    assert_eq!(reported, vec![0, 10, 50, 75, 100]);
    assert_eq!(*reported.last().unwrap(), 100);
}

#[test]
fn test_forced_completion_report() {
    // The transfer finished before the sampler saw anything: the closing
    // report is exactly 100
    let mut monitor = AttemptMonitor::new(4096, 200);
    assert_eq!(monitor.finish(), Some((100, 4096)));
    // And a second finish has nothing left to say
    assert_eq!(monitor.finish(), None);
}

#[test]
fn test_stall_detection_aborts_after_threshold() {
    // A transport that stops flushing at 50%: with a threshold of two
    // samples the attempt dies on the second progress-free tick
    let mut monitor = AttemptMonitor::new(100, 2);
    match monitor.on_tick(50) {
        TickAction::Report { percentage, .. } => assert_eq!(percentage, 50),
        _ => panic!("first tick reports"),
    }
    assert!(matches!(monitor.on_tick(50), TickAction::Quiet));
    assert!(matches!(monitor.on_tick(50), TickAction::Abort));
}

#[test]
fn test_stall_counter_resets_on_progress() {
    let mut monitor = AttemptMonitor::new(100, 2);
    assert!(matches!(
        monitor.on_tick(10),
        TickAction::Report { percentage: 10, .. }
    ));
    assert!(matches!(monitor.on_tick(10), TickAction::Quiet)); // stall 1
    assert!(matches!(
        monitor.on_tick(20),
        TickAction::Report { percentage: 20, .. }
    )); // progress: counter back to zero
    assert!(matches!(monitor.on_tick(20), TickAction::Quiet)); // stall 1
    assert!(matches!(monitor.on_tick(20), TickAction::Abort)); // stall 2
}

#[test]
fn test_no_stall_at_the_boundaries() {
    // An unchanged counter at 0% or 100% is not a stall
    let mut monitor = AttemptMonitor::new(100, 1);
    assert!(matches!(monitor.on_tick(0), TickAction::Quiet));
    assert!(matches!(monitor.on_tick(0), TickAction::Quiet));
    assert!(matches!(
        monitor.on_tick(100),
        TickAction::Report { percentage: 100, .. }
    ));
    assert!(matches!(monitor.on_tick(100), TickAction::Quiet));
}

#[test]
fn test_retry_budget_is_exact() {
    // retryCount = 2: exactly three attempts, then the last error surfaces
    let mut run = RetryRun::new(2, 1_000);
    let mut attempts = 0;
    while run.should_attempt() {
        assert_eq!(run.wait_before(), attempts > 0);
        attempts += 1;
        run.record_failure(UploadError::TransportError(format!(
            "connection refused on attempt {attempts}"
        )));
    }
    assert_eq!(attempts, 3);
    match run.give_up() {
        UploadError::TransportError(m) => {
            assert_eq!(m, "connection refused on attempt 3");
        }
        other => panic!("unexpected error: {other:?}"),
    }
}

#[test]
fn test_retry_without_attempts() {
    let run = RetryRun::new(3, 500);
    match run.give_up() {
        UploadError::TransportError(m) => assert_eq!(m, "No upload attempts were made"),
        other => panic!("unexpected error: {other:?}"),
    }
}

#[test]
fn test_failover_skips_invalid_and_uses_second_server() {
    // serverList = [invalid-url, good-server]: the upload runs against the
    // second entry and its descriptor is what comes back
    let mut plan = FailoverPlan::new(vec![
        "not a url".to_string(),
        "https://blossom.example.com".to_string(),
    ]);
    let mut winner: Option<String> = None;
    loop {
        match plan.advance() {
            FailoverStep::TryServer(url) => {
                // the mock server accepts at once
                winner = Some(url);
                break;
            }
            FailoverStep::SkipInvalid => continue,
            FailoverStep::Exhausted => break,
        }
    }
    assert_eq!(winner.as_deref(), Some("https://blossom.example.com/"));
}

#[test]
fn test_failover_exhaustion_carries_last_error() {
    let mut plan = FailoverPlan::new(vec![
        "https://one.example.com".to_string(),
        "https://two.example.com".to_string(),
    ]);
    let mut tried = Vec::new();
    loop {
        match plan.advance() {
            FailoverStep::TryServer(url) => {
                tried.push(url.clone());
                plan.record_failure(UploadError::TransportError(format!("{url} unreachable")));
            }
            FailoverStep::SkipInvalid => continue,
            FailoverStep::Exhausted => break,
        }
    }
    assert_eq!(tried.len(), 2);
    match plan.exhausted_error() {
        UploadError::TransportError(m) => {
            assert_eq!(m, "https://two.example.com/ unreachable");
        }
        other => panic!("unexpected error: {other:?}"),
    }
}

#[test]
fn test_failover_with_no_servers() {
    let mut plan = FailoverPlan::new(Vec::new());
    assert!(matches!(plan.advance(), FailoverStep::Exhausted));
    match plan.exhausted_error() {
        UploadError::ValidationError(m) => assert_eq!(m, "No servers available"),
        other => panic!("unexpected error: {other:?}"),
    }
}
