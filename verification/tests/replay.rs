//! Tests for the replay engine state machine.

use tcpreplay::capture::{CaptureFile, PacketRecord};
use tcpreplay::pacing::RatePolicy;
use tcpreplay::replay::{Action, ReplayConfig, Replayer};

const UNBOUNDED: u64 = u64::MAX;

fn record(ts_us: u64, payload: Vec<u8>) -> PacketRecord {
    PacketRecord { ts_us, payload }
}

fn config(policy: RatePolicy) -> ReplayConfig {
    ReplayConfig {
        policy,
        loop_count: 1,
        loopdelay_ms: 0,
        duration_limit_s: UNBOUNDED,
        packet_limit: UNBOUNDED,
        maxsleep_ms: UNBOUNDED,
    }
}

/// Expect a `Send`, check the payload about to go out, and report a
/// full injection.
fn send_full(r: &mut Replayer, elapsed_us: u64, expected_payload: &[u8]) {
    match r.next(elapsed_us) {
        Action::Send { .. } => {}
        other => panic!("expected a send, got {:?}", other),
    }
    assert_eq!(r.current_payload().as_slice(), expected_payload);
    let n = r.current_payload().len();
    r.injected(n);
}

#[test]
fn two_loops_inject_in_order_with_one_delay() {
    // One file of three records, two loop iterations, top speed, a
    // configured inter-loop delay: six sends in file order, with the
    // delay exactly once, between the iterations.
    let files = vec![CaptureFile {
        records: vec![
            record(10, vec![1]),
            record(20, vec![2]),
            record(30, vec![3]),
        ],
    }];
    let mut cfg = config(RatePolicy::TopSpeed);
    cfg.loop_count = 2;
    cfg.loopdelay_ms = 5;
    let mut r = Replayer::new(cfg, files);

    let mut injected_payloads: Vec<u8> = Vec::new();
    let mut delays = 0;
    loop {
        match r.next(0) {
            Action::Send { sleep_us } => {
                assert_eq!(sleep_us, 0);
                let payload = r.current_payload().clone();
                injected_payloads.push(payload[0]);
                r.injected(payload.len());
            }
            Action::DelayLoop { ms } => {
                assert_eq!(ms, 5);
                delays += 1;
            }
            Action::Finished { aborted } => {
                assert!(!aborted);
                break;
            }
            Action::Prompt { .. } => panic!("no prompt expected at top speed"),
        }
    }
    assert_eq!(injected_payloads, vec![1, 2, 3, 1, 2, 3]);
    assert_eq!(delays, 1);
    assert_eq!(r.packet_cnt, 6);
    assert_eq!(r.byte_cnt, 6);
    assert_eq!(r.truncated_cnt, 0);
}

#[test]
fn no_delay_between_loops_when_not_configured() {
    let files = vec![CaptureFile { records: vec![record(10, vec![1])] }];
    let mut cfg = config(RatePolicy::TopSpeed);
    cfg.loop_count = 3;
    let mut r = Replayer::new(cfg, files);
    let mut sends = 0;
    loop {
        match r.next(0) {
            Action::Send { .. } => {
                let n = r.current_payload().len();
                r.injected(n);
                sends += 1;
            }
            Action::DelayLoop { .. } => panic!("no delay configured"),
            Action::Finished { aborted } => {
                assert!(!aborted);
                break;
            }
            Action::Prompt { .. } => unreachable!(),
        }
    }
    assert_eq!(sends, 3);
}

#[test]
fn loop_count_zero_sends_nothing() {
    let files = vec![CaptureFile { records: vec![record(10, vec![1])] }];
    let mut cfg = config(RatePolicy::TopSpeed);
    cfg.loop_count = 0;
    let mut r = Replayer::new(cfg, files);
    match r.next(0) {
        Action::Finished { aborted } => assert!(!aborted),
        other => panic!("expected an immediate finish, got {:?}", other),
    }
    assert_eq!(r.packet_cnt, 0);
    assert!(r.is_finished());
}

#[test]
fn empty_files_still_delay_between_iterations() {
    let files: Vec<CaptureFile> = Vec::new();
    let mut cfg = config(RatePolicy::TopSpeed);
    cfg.loop_count = 2;
    cfg.loopdelay_ms = 7;
    let mut r = Replayer::new(cfg, files);
    match r.next(0) {
        Action::DelayLoop { ms } => assert_eq!(ms, 7),
        other => panic!("expected the inter-loop delay, got {:?}", other),
    }
    match r.next(0) {
        Action::Finished { aborted } => assert!(!aborted),
        other => panic!("expected the end of the run, got {:?}", other),
    }
}

#[test]
fn packet_limit_zero_still_sends_the_first_record() {
    // The check is strictly-greater-than, so even a limit of zero lets
    // the first record out; the run aborts before the second.
    let files = vec![CaptureFile {
        records: vec![record(10, vec![1]), record(20, vec![2])],
    }];
    let mut cfg = config(RatePolicy::TopSpeed);
    cfg.packet_limit = 0;
    let mut r = Replayer::new(cfg, files);
    send_full(&mut r, 0, &[1]);
    assert_eq!(r.packet_cnt, 1);
    match r.next(0) {
        Action::Finished { aborted } => assert!(aborted),
        other => panic!("expected an abort, got {:?}", other),
    }
    assert!(r.abort);
}

#[test]
fn packet_limit_permits_exactly_one_send_at_the_limit() {
    let files = vec![CaptureFile {
        records: (0..5).map(|k| record(10 * (k + 1), vec![k as u8])).collect(),
    }];
    let mut cfg = config(RatePolicy::TopSpeed);
    cfg.packet_limit = 1;
    let mut r = Replayer::new(cfg, files);
    send_full(&mut r, 0, &[0]);
    send_full(&mut r, 0, &[1]);
    match r.next(0) {
        Action::Finished { aborted } => assert!(aborted),
        other => panic!("expected an abort, got {:?}", other),
    }
    assert!(r.packet_cnt + r.truncated_cnt <= cfg.packet_limit + 1);
    assert_eq!(r.packet_cnt, 2);
}

#[test]
fn duration_limit_aborts_before_the_first_send() {
    let files = vec![CaptureFile { records: vec![record(10, vec![1])] }];
    let mut cfg = config(RatePolicy::TopSpeed);
    cfg.duration_limit_s = 1;
    let mut r = Replayer::new(cfg, files);
    match r.next(1_000_000) {
        Action::Finished { aborted } => assert!(aborted),
        other => panic!("expected an abort, got {:?}", other),
    }
    assert_eq!(r.packet_cnt, 0);
}

#[test]
fn duration_limit_not_reached_lets_the_record_out() {
    let files = vec![CaptureFile { records: vec![record(10, vec![1])] }];
    let mut cfg = config(RatePolicy::TopSpeed);
    cfg.duration_limit_s = 1;
    let mut r = Replayer::new(cfg, files);
    send_full(&mut r, 999_999, &[1]);
    assert_eq!(r.packet_cnt, 1);
}

#[test]
fn short_send_counts_as_truncated() {
    let files = vec![CaptureFile { records: vec![record(10, vec![1, 2, 3, 4])] }];
    let mut r = Replayer::new(config(RatePolicy::TopSpeed), files);
    match r.next(0) {
        Action::Send { .. } => {}
        other => panic!("expected a send, got {:?}", other),
    }
    r.injected(2);
    assert_eq!(r.truncated_cnt, 1);
    assert_eq!(r.packet_cnt, 0);
    assert_eq!(r.byte_cnt, 2);
}

#[test]
fn failed_injection_aborts_the_run() {
    let files = vec![CaptureFile {
        records: vec![record(10, vec![1]), record(20, vec![2])],
    }];
    let mut r = Replayer::new(config(RatePolicy::TopSpeed), files);
    match r.next(0) {
        Action::Send { .. } => {}
        other => panic!("expected a send, got {:?}", other),
    }
    r.inject_failed();
    assert!(r.is_finished());
    assert!(r.abort);
    assert_eq!(r.packet_cnt, 0);
    assert_eq!(r.byte_cnt, 0);
}

#[test]
fn timestamp_replay_waits_the_gap_and_resets_per_file() {
    // Default policy: replay the capture's own gaps (factor one).  The
    // reference timestamp resets at each file, so the first record of
    // the second file goes out at once.
    let files = vec![
        CaptureFile { records: vec![record(1000, vec![1]), record(3500, vec![2])] },
        CaptureFile { records: vec![record(9000, vec![3])] },
    ];
    let mut r = Replayer::new(config(RatePolicy::Multiplier { num: 1, den: 1 }), files);
    match r.next(0) {
        Action::Send { sleep_us } => assert_eq!(sleep_us, 0),
        other => panic!("expected a send, got {:?}", other),
    }
    r.injected(1);
    match r.next(50) {
        Action::Send { sleep_us } => assert_eq!(sleep_us, 2500),
        other => panic!("expected a send, got {:?}", other),
    }
    r.injected(1);
    match r.next(100) {
        Action::Send { sleep_us } => assert_eq!(sleep_us, 0),
        other => panic!("expected a send, got {:?}", other),
    }
    r.injected(1);
    match r.next(150) {
        Action::Finished { aborted } => assert!(!aborted),
        other => panic!("expected the end of the run, got {:?}", other),
    }
}

#[test]
fn mbps_policy_uses_the_running_byte_count() {
    // After 1250 bytes at 10 Mbps the cumulative target is 1000 us.
    let files = vec![CaptureFile {
        records: vec![record(10, vec![0; 1250]), record(20, vec![9])],
    }];
    let mut r = Replayer::new(config(RatePolicy::Mbps { num: 10, den: 1 }), files);
    send_full(&mut r, 0, &vec![0; 1250]);
    assert_eq!(r.byte_cnt, 1250);
    match r.next(300) {
        Action::Send { sleep_us } => assert_eq!(sleep_us, 700),
        other => panic!("expected a send, got {:?}", other),
    }
}

#[test]
fn one_at_a_time_prompts_after_the_first_record() {
    let files = vec![CaptureFile {
        records: vec![record(10, vec![1]), record(20, vec![2]), record(30, vec![3])],
    }];
    let mut r = Replayer::new(config(RatePolicy::OneAtATime), files);

    // The first record of a file bypasses the policy: no prompt.
    send_full(&mut r, 0, &[1]);

    // The second record needs an authorization.
    match r.next(0) {
        Action::Prompt { sent_packets } => assert_eq!(sent_packets, 1),
        other => panic!("expected a prompt, got {:?}", other),
    }
    // The operator authorizes two sends: this record and the next.
    match r.operator_count(2) {
        Action::Send { sleep_us } => assert_eq!(sleep_us, 0),
        other => panic!("expected a send, got {:?}", other),
    }
    let n = r.current_payload().len();
    r.injected(n);

    // The third record consumes the remaining authorization silently.
    match r.next(0) {
        Action::Send { sleep_us } => assert_eq!(sleep_us, 0),
        other => panic!("expected a send without a prompt, got {:?}", other),
    }
    let n = r.current_payload().len();
    r.injected(n);

    match r.next(0) {
        Action::Finished { aborted } => assert!(!aborted),
        other => panic!("expected the end of the run, got {:?}", other),
    }
    assert_eq!(r.packet_cnt, 3);
}

#[test]
fn one_at_a_time_single_authorization_prompts_each_time() {
    let files = vec![CaptureFile {
        records: vec![record(10, vec![1]), record(20, vec![2]), record(30, vec![3])],
    }];
    let mut r = Replayer::new(config(RatePolicy::OneAtATime), files);
    send_full(&mut r, 0, &[1]);
    for expected_sent in [1u64, 2u64] {
        match r.next(0) {
            Action::Prompt { sent_packets } => assert_eq!(sent_packets, expected_sent),
            other => panic!("expected a prompt, got {:?}", other),
        }
        match r.operator_count(1) {
            Action::Send { sleep_us } => assert_eq!(sleep_us, 0),
            other => panic!("expected a send, got {:?}", other),
        }
        let n = r.current_payload().len();
        r.injected(n);
    }
    match r.next(0) {
        Action::Finished { aborted } => assert!(!aborted),
        other => panic!("expected the end of the run, got {:?}", other),
    }
}

#[test]
fn files_are_replayed_in_configured_order() {
    let files = vec![
        CaptureFile { records: vec![record(10, vec![1])] },
        CaptureFile { records: vec![record(20, vec![2])] },
        CaptureFile { records: vec![record(30, vec![3])] },
    ];
    let mut r = Replayer::new(config(RatePolicy::TopSpeed), files);
    for expected in [&[1u8][..], &[2u8][..], &[3u8][..]] {
        send_full(&mut r, 0, expected);
    }
    match r.next(0) {
        Action::Finished { aborted } => assert!(!aborted),
        other => panic!("expected the end of the run, got {:?}", other),
    }
    assert_eq!(r.packet_cnt, 3);
}

#[test]
fn empty_file_in_the_middle_is_skipped() {
    let files = vec![
        CaptureFile { records: vec![record(10, vec![1])] },
        CaptureFile { records: Vec::new() },
        CaptureFile { records: vec![record(30, vec![3])] },
    ];
    let mut r = Replayer::new(config(RatePolicy::TopSpeed), files);
    send_full(&mut r, 0, &[1]);
    send_full(&mut r, 0, &[3]);
    match r.next(0) {
        Action::Finished { aborted } => assert!(!aborted),
        other => panic!("expected the end of the run, got {:?}", other),
    }
}
