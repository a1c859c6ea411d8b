use whatsapp_rust::backoff::{base_backoff_ms, fibonacci_backoff, with_jitter};
use whatsapp_rust::flush_scope::{FlushScope, FlushStep};
use whatsapp_rust::frames::FrameReader;
use whatsapp_rust::message::process::should_process_skmsg;
use whatsapp_rust::message::session::SessionResult;

#[test]
fn test_mac_failure_prevention_flow_documentation() {
    // Whether a session is to be made, by whether there is one.
    fn should_establish_session(check_result: Result<bool, &'static str>) -> Result<bool, String> {
        match check_result {
            Ok(true) => Ok(false),
            Ok(false) => Ok(true),
            Err(e) => Err(format!("Cannot verify session: {}", e)),
        }
    }

    let result = should_establish_session(Ok(true));
    assert_eq!(result, Ok(false), "Should skip when session exists");

    let result = should_establish_session(Ok(false));
    assert_eq!(result, Ok(true), "Should establish when no session");

    let result = should_establish_session(Err("database error"));
    assert!(result.is_err(), "Should fail when check fails");
}

#[test]
fn test_unified_session_id_calculation() {
    const DAY_MS: i64 = 24 * 60 * 60 * 1000;
    const WEEK_MS: i64 = 7 * DAY_MS;
    const OFFSET_MS: i64 = 3 * DAY_MS;

    fn calculate_session_id(now_ms: i64, server_offset_ms: i64) -> i64 {
        let adjusted_now = now_ms + server_offset_ms;
        (adjusted_now + OFFSET_MS) % WEEK_MS
    }

    let now_ms = 1706000000000_i64;
    let id = calculate_session_id(now_ms, 0);
    assert!((0..WEEK_MS).contains(&id), "Session ID should be in [0, WEEK_MS)");

    let id_with_positive_offset = calculate_session_id(now_ms, 5000);
    assert!((0..WEEK_MS).contains(&id_with_positive_offset), "Session ID should be in [0, WEEK_MS)");

    let id_with_negative_offset = calculate_session_id(now_ms, -5000);
    assert!((0..WEEK_MS).contains(&id_with_negative_offset), "Session ID should be in [0, WEEK_MS)");

    let wrap_test_now = WEEK_MS - OFFSET_MS + 1000;
    let wrapped_id = calculate_session_id(wrap_test_now, 0);
    assert_eq!(wrapped_id, 1000, "Should wrap around correctly");

    let boundary_now = WEEK_MS - OFFSET_MS;
    let boundary_id = calculate_session_id(boundary_now, 0);
    assert_eq!(boundary_id, 0, "At exact boundary should be 0");
}

#[test]
fn test_should_process_skmsg_logic_matches_wa_web() {
    // Chat, no session payloads, one was read, one was read before, expected.
    let test_cases = [
        ("status@broadcast", false, false, false, false),
        ("status@broadcast", false, false, true, true),
        ("status@broadcast", false, true, false, true),
        ("status@broadcast", true, false, false, true),
        ("120363021033254949@g.us", false, false, false, false),
        ("120363021033254949@g.us", false, false, true, true),
        ("120363021033254949@g.us", false, true, false, true),
        ("120363021033254949@g.us", true, false, false, true),
        ("15551234567@s.whatsapp.net", false, false, false, false),
        ("15551234567@s.whatsapp.net", true, false, false, true),
    ];

    for (jid_str, session_empty, session_success, session_dupe, expected) in test_cases {
        let result = SessionResult {
            any_success: session_success,
            any_duplicate: session_dupe,
            dispatched_undecryptable: false,
        };
        assert_eq!(
            should_process_skmsg(!session_empty, result),
            expected,
            "For chat {jid_str} with session_empty={session_empty}, session_success={session_success}, session_dupe={session_dupe}",
        );
    }
}

#[test]
fn test_fibonacci_backoff_sequence() {
    let expected_base_ms = [1000, 1000, 2000, 3000, 5000, 8000, 13000, 21000];
    for (attempt, &base) in expected_base_ms.iter().enumerate() {
        let ms = fibonacci_backoff(attempt as u32);
        let low = base - base / 10;
        let high = base + base / 10;
        assert!(ms >= low && ms <= high, "attempt {attempt}: expected {low}..={high}ms, got {ms}ms");
    }
}

#[test]
fn test_fibonacci_backoff_max_900s() {
    let ms = fibonacci_backoff(100);
    assert!(ms <= 990_000, "should never exceed 900s + 10% jitter, got {ms}ms");
    assert!(ms >= 810_000, "should be at least 900s - 10% jitter, got {ms}ms");
}

#[test]
fn test_fibonacci_backoff_first_attempt_is_1s() {
    let ms = fibonacci_backoff(0);
    assert!((900..=1100).contains(&ms), "first attempt should be about 1s, got {ms}ms");
}

#[test]
fn backoff_without_chance() {
    assert_eq!(base_backoff_ms(0), 1000);
    assert_eq!(base_backoff_ms(4), 5000);
    assert_eq!(base_backoff_ms(7), 21000);
    assert_eq!(base_backoff_ms(100), 900_000);
    assert_eq!(base_backoff_ms(u32::MAX), 900_000);
    assert_eq!(with_jitter(1000, 0), 900);
    assert_eq!(with_jitter(1000, 100), 1000);
    assert_eq!(with_jitter(1000, 200), 1100);
}

#[test]
fn jitter_is_left_to_chance() {
    let waits: Vec<u64> = (0..64).map(|_| fibonacci_backoff(14)).collect();
    assert!(waits.iter().any(|w| *w != waits[0]));
}

#[test]
fn flush_returns_immediately_when_idle() {
    let scope = FlushScope::new();
    assert_eq!(scope.flush(1000), FlushStep::Done);
    assert!(scope.wait_idle());
}

#[test]
fn flush_returns_after_tasks_complete() {
    let mut scope = FlushScope::new();
    for _ in 0..4 {
        assert!(scope.spawn());
    }
    assert_eq!(scope.pending(), 4);
    assert_eq!(scope.flush(2000), FlushStep::Wait(2000));
    for left in [3usize, 2, 1, 0] {
        assert_eq!(scope.task_ended(), left == 0);
        assert_eq!(scope.pending(), left);
    }
    assert_eq!(scope.flush(2000), FlushStep::Done);
}

#[test]
fn close_rejects_new_tasks_until_reopened() {
    let mut scope = FlushScope::new();
    scope.close();
    assert!(!scope.spawn());
    assert_eq!(scope.pending(), 0);
    scope.reopen();
    assert!(scope.spawn());
    assert_eq!(scope.pending(), 1);
}

#[test]
fn flush_honors_timeout_and_logs() {
    let mut scope = FlushScope::new();
    assert!(scope.spawn());
    assert_eq!(scope.flush(0), FlushStep::TimedOut(1));
    assert_eq!(scope.pending(), 1);
}

#[test]
fn closing_keeps_tasks_under_way() {
    let mut scope = FlushScope::new();
    assert!(scope.spawn());
    scope.close();
    assert_eq!(scope.pending(), 1);
    assert!(scope.task_ended());
    assert!(scope.wait_idle());
}

fn framed(payload: &[u8]) -> Vec<u8> {
    let n = payload.len();
    let mut bytes = vec![(n >> 16) as u8, (n >> 8) as u8, n as u8];
    bytes.extend_from_slice(payload);
    bytes
}

#[test]
fn frames_come_out_whole() {
    let long = vec![7u8; 70_000];
    let mut stream = framed(b"first");
    stream.extend(framed(b""));
    stream.extend(framed(&long));

    let mut reader = FrameReader::new();
    reader.feed(&stream);
    assert_eq!(reader.next_frame(), Some(b"first".to_vec()));
    assert_eq!(reader.next_frame(), Some(Vec::new()));
    assert_eq!(reader.next_frame(), Some(long));
    assert_eq!(reader.next_frame(), None);
}

#[test]
fn frames_do_not_depend_on_how_bytes_arrive() {
    let stream = [framed(b"first"), framed(b"second")].concat();
    let mut reader = FrameReader::new();
    let mut frames = Vec::new();
    for byte in stream {
        reader.feed(&vec![byte]);
        while let Some(frame) = reader.next_frame() {
            frames.push(frame);
        }
    }
    assert_eq!(frames, vec![b"first".to_vec(), b"second".to_vec()]);
}

#[test]
fn unfinished_frames_wait() {
    let mut reader = FrameReader::new();
    reader.feed(&vec![0, 0]);
    assert_eq!(reader.next_frame(), None);
    reader.feed(&vec![2, 9]);
    assert_eq!(reader.next_frame(), None);
    reader.feed(&vec![8]);
    assert_eq!(reader.next_frame(), Some(vec![9, 8]));
}
