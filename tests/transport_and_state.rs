use aether::config::Config;
use aether::crypto::{CryptoError, CryptoManager};
use aether::proxy::{probe_outcome, ProxyManager};
use aether::sanitize::sanitize_log_line;
use aether::state::{completion_delta, observed_status, CounterDelta, SharedState, WorkerStatus};
use aether::task::AttackResult;
use aether::transport::{
    AddressFamily, FragmentPacer, SocketStep, TransportBuilder, WriteStep, HANDSHAKE_CHUNK,
    UNBOUNDED_CHUNK,
};
use aether::worker::{
    body_step, parse_port, reads_slowly, route_target, BodyStep, TargetRoute, TelemetrySync,
    Worker, WorkerError, BODY_CAP,
};
use bytes::BytesMut;

#[test]
fn socket_options_precede_connect() {
    let plan = TransportBuilder::connect_plan(AddressFamily::V4, false);
    assert_eq!(
        plan,
        vec![
            SocketStep::Open(AddressFamily::V4),
            SocketStep::SetLingerZero,
            SocketStep::SetNoDelay,
            SocketStep::SetNonBlocking,
            SocketStep::Connect,
            SocketStep::HandOff,
        ]
    );
    let bound = TransportBuilder::connect_plan(AddressFamily::V6, true);
    let linger = bound.iter().position(|s| *s == SocketStep::SetLingerZero).unwrap();
    let bind = bound.iter().position(|s| *s == SocketStep::BindLocal).unwrap();
    let connect = bound.iter().position(|s| *s == SocketStep::Connect).unwrap();
    assert!(linger < bind && bind < connect);
}

#[test]
fn fragmented_writes_are_capped_and_spaced() {
    let mut pacer = TransportBuilder::wrap_fragmented((), HANDSHAKE_CHUNK).pacer;
    let mut last: Option<u64> = None;
    let mut sent = 0usize;
    let total = 23usize;
    let mut now = 0u64;
    while sent < total {
        match pacer.poll_write(now, total - sent) {
            WriteStep::Write { len } => {
                assert!(len <= HANDSHAKE_CHUNK && len > 0);
                if let Some(t) = last {
                    assert!(now >= t + 5);
                }
                pacer.record_write(now, len);
                last = Some(now);
                sent += len;
            }
            WriteStep::Wait => {}
            WriteStep::WriteZero => panic!("chunk size is positive"),
        }
        now += 1;
    }
    assert_eq!(sent, total);
}

#[test]
fn pacer_edges() {
    let fresh = FragmentPacer::new(0);
    assert_eq!(fresh.poll_write(0, 3), WriteStep::WriteZero);
    assert_eq!(fresh.poll_write(0, 0), WriteStep::Write { len: 0 });
    let mut p = FragmentPacer::new(UNBOUNDED_CHUNK);
    assert_eq!(p.poll_write(10, 4096), WriteStep::Write { len: 4096 });
    p.record_write(10, 0);
    assert_eq!(p.last_write_ms, None);
    p.record_write(10, 4096);
    assert_eq!(p.poll_write(14, 1), WriteStep::Wait);
    assert_eq!(p.poll_write(9, 1), WriteStep::Wait);
    assert_eq!(p.poll_write(15, 1), WriteStep::Write { len: 1 });
    assert_eq!(TransportBuilder::chunk_size_for(true), 5);
    assert_eq!(TransportBuilder::chunk_size_for(false), UNBOUNDED_CHUNK);
}

#[test]
fn completion_moves_counters_once() {
    let shared = SharedState::new(4);
    let result = AttackResult { status_code: 200, latency_us: 1500, size_bytes: 512 };
    let d = shared.record_outcome(Some(result));
    assert_eq!(d, CounterDelta { requests: 1, bytes: 512, errors: 0 });
    assert_eq!(shared.total_requests(), 1);
    assert_eq!(shared.total_bytes(), 512);
    assert_eq!(shared.error_count(), 0);
    shared.record_outcome(None);
    assert_eq!(shared.total_requests(), 1);
    assert_eq!(shared.error_count(), 1);
    assert_eq!(completion_delta(None), CounterDelta { requests: 0, bytes: 0, errors: 1 });
}

#[test]
fn worker_slots_and_heartbeats() {
    let shared = SharedState::new(3);
    assert_eq!(shared.num_workers(), 3);
    shared.set_status(2, WorkerStatus::Handshaking);
    shared.beat(2, 100);
    assert_eq!(shared.status(2), Some(WorkerStatus::Handshaking));
    assert_eq!(shared.observe(2, 105), WorkerStatus::Handshaking);
    assert_eq!(shared.observe(2, 106), WorkerStatus::Dead);
    shared.set_target_rps(5000);
    shared.set_jitter_permille(250);
    assert_eq!(shared.target_rps(), 5000);
    assert_eq!(shared.jitter_permille(), 250);
}

#[test]
fn status_codes_round_trip_and_dead_is_final() {
    for s in [
        WorkerStatus::Idle,
        WorkerStatus::Handshaking,
        WorkerStatus::Sending,
        WorkerStatus::Blocked,
        WorkerStatus::Dead,
    ] {
        assert_eq!(WorkerStatus::from_code(s.code()), Some(s));
        assert_eq!(WorkerStatus::Dead.may_become(s), s == WorkerStatus::Dead);
    }
    assert_eq!(WorkerStatus::from_code(9), None);
    assert!(WorkerStatus::Idle.may_become(WorkerStatus::Handshaking));
    assert!(!WorkerStatus::Idle.may_become(WorkerStatus::Blocked));
    assert!(WorkerStatus::Sending.may_become(WorkerStatus::Blocked));
    assert_eq!(observed_status(WorkerStatus::Sending, 10, 3), WorkerStatus::Sending);
}

#[test]
fn raw_urls_route_with_default_ports() {
    match route_target("raw://example.test").unwrap() {
        TargetRoute::Raw(e) => {
            assert_eq!(e.host, "example.test");
            assert_eq!(e.port, 80);
            assert!(!e.tls);
        }
        TargetRoute::Structured => panic!("raw expected"),
    }
    match route_target("raw-https://example.test:8443/path").unwrap() {
        TargetRoute::Raw(e) => {
            assert_eq!(e.host, "example.test");
            assert_eq!(e.port, 8443);
            assert!(e.tls);
        }
        TargetRoute::Structured => panic!("raw expected"),
    }
    match route_target("raw-https://example.test").unwrap() {
        TargetRoute::Raw(e) => assert_eq!(e.port, 443),
        TargetRoute::Structured => panic!("raw expected"),
    }
    assert!(matches!(route_target("https://example.test"), Ok(TargetRoute::Structured)));
    assert!(matches!(route_target("http://example.test"), Ok(TargetRoute::Structured)));
}

#[test]
fn malformed_raw_urls_are_protocol_errors() {
    assert_eq!(route_target("raw://").unwrap_err(), WorkerError::Protocol);
    assert_eq!(route_target("raw://:80").unwrap_err(), WorkerError::Protocol);
    assert_eq!(route_target("raw://host:").unwrap_err(), WorkerError::Protocol);
    assert_eq!(route_target("raw://host:70000").unwrap_err(), WorkerError::Protocol);
    assert_eq!(route_target("raw://host:8o").unwrap_err(), WorkerError::Protocol);
}

#[test]
fn ports_parse_up_to_65535() {
    assert_eq!(parse_port("0"), Some(0));
    assert_eq!(parse_port("65535"), Some(65535));
    assert_eq!(parse_port("065535"), Some(65535));
    assert_eq!(parse_port("65536"), None);
    assert_eq!(parse_port("99999999999"), None);
    assert_eq!(parse_port(""), None);
    assert_eq!(parse_port("-1"), None);
}

#[test]
fn slow_readers_are_every_tenth_worker() {
    assert!(reads_slowly(0));
    assert!(reads_slowly(30));
    assert!(!reads_slowly(31));
}

#[test]
fn response_body_is_capped() {
    assert_eq!(body_step(0, 4096), BodyStep { keep: 4096, stop: false });
    assert_eq!(body_step(BODY_CAP - 10, 10), BodyStep { keep: 10, stop: false });
    assert_eq!(body_step(BODY_CAP - 10, 11), BodyStep { keep: 10, stop: true });
    assert_eq!(body_step(BODY_CAP, 1), BodyStep { keep: 0, stop: true });
}

#[test]
fn telemetry_syncs_on_count_or_time() {
    let mut t = TelemetrySync::new(0);
    for i in 1..100 {
        assert!(!t.record(10));
        assert_eq!(t.samples, i);
    }
    assert!(t.record(10));
    assert_eq!(t, TelemetrySync { samples: 0, last_sync_ms: 10 });
    assert!(!t.record(1009));
    assert!(t.record(1010));
}

#[test]
fn worker_prepares_payloads_and_books_outcomes() {
    let shared = SharedState::new(2);
    let mut worker = Worker::new(1, "stealth", 0);
    assert_eq!(worker.id(), 1);
    let mut buffer = BytesMut::with_capacity(1 << 20);
    worker.prepare_payload(&mut buffer, "", &aether::task::AttackProfile::legacy());
    assert_eq!(&buffer[..], b"GET / HTTP/1.0\r\n\r\n");
    worker.prepare_payload(&mut buffer, "", &aether::task::AttackProfile::standard());
    assert!(!buffer.is_empty());
    let result = AttackResult { status_code: 200, latency_us: 10, size_bytes: buffer.len() };
    let (delta, sync) = worker.finish_task(&shared, Some(result), 5);
    assert_eq!(delta.requests, 1);
    assert_eq!(delta.bytes, buffer.len() as u64);
    assert!(!sync);
    assert_eq!(shared.status(1), Some(WorkerStatus::Idle));
    let (delta, sync) = worker.finish_task(&shared, None, 2000);
    assert_eq!(delta.errors, 1);
    assert!(!sync);
    assert_eq!(worker.next_provider(), aether::tls::TlsProvider::Native);
    assert_eq!(worker.next_provider(), aether::tls::TlsProvider::Legacy);
}

#[test]
fn sanitizer_strips_escapes_and_keeps_newlines() {
    assert_eq!(sanitize_log_line("\u{1b}[31mred\u{1b}[0m\nnext"), "red\nnext");
    assert_eq!(sanitize_log_line("bell\u{7}tab\t"), "bell\\x07tab\\x09");
    assert_eq!(sanitize_log_line("c1\u{9b}"), "c1\\x9b");
    assert_eq!(sanitize_log_line(""), "");
}

#[test]
fn sanitizer_truncates_with_an_ellipsis() {
    let long = "x".repeat(300);
    let out = sanitize_log_line(&long);
    assert_eq!(out.chars().count(), 128);
    assert!(out.ends_with('\u{2026}'));
    let exact = "y".repeat(128);
    assert_eq!(sanitize_log_line(&exact), exact);
}

#[test]
fn sanitizer_is_idempotent() {
    let inputs = [
        "plain text",
        "\u{1b}[1;32mgreen\u{1b}[0m and \u{0}nul",
        "line one\nline two\r\n",
        "ends with escape \u{1b}",
    ];
    for s in inputs {
        let once = sanitize_log_line(s);
        assert_eq!(sanitize_log_line(&once), once);
    }
    let long = format!("{}\u{7}", "z".repeat(200));
    let once = sanitize_log_line(&long);
    assert_eq!(sanitize_log_line(&once), once);
}

#[test]
fn proxies_start_alive_and_checkout_the_first_live_one() {
    let mut pool = ProxyManager::new(vec![
        "socks5://10.0.0.1:1080".to_string(),
        "socks5://10.0.0.2:1080".to_string(),
    ]);
    assert_eq!(pool.len(), 2);
    assert_eq!(pool.checkout_proxy().unwrap().address, "socks5://10.0.0.1:1080");
    pool.record_health(0, false, 0);
    pool.record_health(1, true, 42);
    let p = pool.checkout_proxy().unwrap();
    assert_eq!(p.address, "socks5://10.0.0.2:1080");
    assert_eq!(p.latency, 42);
    pool.record_health(1, false, 0);
    assert!(pool.checkout_proxy().is_none());
    pool.record_health(7, true, 1);
    assert_eq!(pool.address(1), "socks5://10.0.0.2:1080");
    assert_eq!(probe_outcome(Some(true), 120), (true, 120));
    assert_eq!(probe_outcome(Some(false), 120), (false, 0));
    assert_eq!(probe_outcome(None, 120), (false, 0));
}

#[test]
fn config_defaults() {
    let c = Config::default();
    assert_eq!(c.max_workers, 5);
    assert_eq!(c.max_daily_per_sender, 500);
    assert_eq!(c.proxy_check_interval_secs, 30);
    assert_eq!(c.traffic_strategy, "smooth");
}

#[test]
fn password_hash_round_trip() {
    let hash = CryptoManager::derive_key("correct horse").unwrap();
    assert!(hash.starts_with("$argon2id"));
    assert_eq!(CryptoManager::verify_password("correct horse", &hash).unwrap(), true);
    assert_eq!(CryptoManager::verify_password("wrong horse", &hash).unwrap(), false);
    match CryptoManager::verify_password("x", "not a phc string") {
        Err(CryptoError::MalformedHash(_)) => {}
        other => panic!("unexpected {:?}", other),
    }
}
