use aether::engine::{parse_command, Command, EngineAction, EngineCore};
use aether::rotation::RoundRobin;
use aether::task::AttackProfile;
use aether::tls::{
    alpn_protocols, alpn_wire_bytes, select_alpn, Ja3Cycler, TlsError, TlsFingerprinter,
    TlsProvider, SESSION_CACHE_SIZE,
};
use aether::traffic::{
    GeoLatency, Heartbeat, MicroBurst, Slowloris, SmoothFlow, StealthJitter, Strategy,
    TrafficMetrics, WorkingHours,
};

fn calm() -> TrafficMetrics {
    TrafficMetrics { latency_ms: 100, error_count: 0 }
}

#[test]
fn smooth_flow_adds_jitter_to_300() {
    assert_eq!(SmoothFlow.delay_with_jitter(&calm(), 0), 300);
    assert_eq!(SmoothFlow.delay_with_jitter(&calm(), 49), 349);
    for _ in 0..100 {
        let d = SmoothFlow.calculate_delay(&calm());
        assert!((300..350).contains(&d));
    }
    assert_eq!(SmoothFlow.name(), "SmoothFlow");
}

#[test]
fn stealth_jitter_penalises_errors() {
    let failing = TrafficMetrics { latency_ms: 100, error_count: 3 };
    assert_eq!(StealthJitter.delay_with_jitter(&calm(), 10), 2010);
    assert_eq!(StealthJitter.delay_with_jitter(&failing, 10), 7010);
    for _ in 0..100 {
        assert!((2000..7000).contains(&StealthJitter.calculate_delay(&calm())));
        assert!((7000..12000).contains(&StealthJitter.calculate_delay(&failing)));
    }
    assert_eq!(StealthJitter.name(), "StealthJitter");
}

#[test]
fn slowloris_stays_between_90_and_95_percent() {
    let s = Slowloris { target_ms: 1000 };
    for _ in 0..100 {
        let d = s.calculate_delay();
        assert!((900..=950).contains(&d), "delay {} out of window", d);
    }
    assert_eq!(s.delay_with_jitter(0), 900);
    assert_eq!(s.delay_with_jitter(50), 950);
}

#[test]
fn slowloris_handles_the_largest_target() {
    let s = Slowloris { target_ms: u64::MAX };
    let d = s.calculate_delay();
    let low = ((u64::MAX as u128) * 9 / 10) as u64;
    let high = ((u64::MAX as u128) * 19 / 20) as u64;
    assert!(low <= d && d <= high);
}

#[test]
fn heartbeat_is_exact() {
    assert_eq!(Heartbeat { period_ms: 250 }.calculate_delay(), 250);
}

#[test]
fn micro_burst_fires_only_inside_bursts() {
    let b = MicroBurst { burst_rps: 1000, burst_ms: 100, idle_ms: 900 };
    let mut now: u64 = 0;
    let mut fired = 0;
    while now < 5000 {
        let phase = now % 1000;
        let d = b.delay_at(now);
        if phase < 100 {
            fired += 1;
        } else {
            assert_eq!((now + d) % 1000, 0);
        }
        now += d;
    }
    assert!((450..=550).contains(&fired), "fired {}", fired);
}

#[test]
fn micro_burst_spacing_and_idle_wait() {
    let b = MicroBurst { burst_rps: 1000, burst_ms: 100, idle_ms: 900 };
    assert_eq!(b.delay_at(0), 1);
    assert_eq!(b.delay_at(99), 1);
    assert_eq!(b.delay_at(100), 900);
    assert_eq!(b.delay_at(1750), 250);
}

#[test]
fn geo_latency_adds_base_jitter_and_spacing() {
    let g = GeoLatency { base_ms: 80, rate_per_s: 4 };
    assert_eq!(g.delay_with_jitter(0), 330);
    assert_eq!(g.delay_with_jitter(20), 350);
    let d = g.calculate_delay();
    assert!((330..=350).contains(&d));
}

#[test]
fn working_hours_switch_rates() {
    let w = WorkingHours { start_hour: 9, end_hour: 17, on_rps: 10, off_rps: 0 };
    assert_eq!(w.delay_at_hour(9), 100);
    assert_eq!(w.delay_at_hour(16), 100);
    assert_eq!(w.delay_at_hour(17), 60000);
    assert_eq!(w.delay_at_hour(3), 60000);
    let night = WorkingHours { start_hour: 22, end_hour: 6, on_rps: 2, off_rps: 1 };
    assert_eq!(night.delay_at_hour(23), 500);
    assert_eq!(night.delay_at_hour(5), 500);
    assert_eq!(night.delay_at_hour(12), 1000);
    let d = w.calculate_delay();
    assert!(d == 100 || d == 60000);
}

#[test]
fn strategy_is_chosen_by_name() {
    assert_eq!(Strategy::from_name("stealth"), Strategy::Stealth(StealthJitter));
    assert_eq!(Strategy::from_name("smooth"), Strategy::Smooth(SmoothFlow));
    assert_eq!(Strategy::from_name("Stealth"), Strategy::Smooth(SmoothFlow));
    assert_eq!(Strategy::from_name(""), Strategy::Smooth(SmoothFlow));
    let beat = Strategy::Beat(Heartbeat { period_ms: 7 });
    assert_eq!(beat.next_delay(&calm()), 7);
    assert_eq!(beat.name(), "Heartbeat");
}

#[test]
fn commands_parse_exactly() {
    assert_eq!(parse_command("SHUTDOWN"), Command::Shutdown);
    assert_eq!(parse_command("DISPATCH"), Command::Dispatch(AttackProfile::standard()));
    assert_eq!(parse_command("DISPATCH STEALTH"), Command::Dispatch(AttackProfile::stealth()));
    assert_eq!(parse_command("DISPATCH LEGACY"), Command::Dispatch(AttackProfile::legacy()));
    assert_eq!(parse_command("dispatch"), Command::Unknown);
    assert_eq!(parse_command("DISPATCH NOW"), Command::Unknown);
    assert_eq!(parse_command(""), Command::Unknown);
}

#[test]
fn profiles_match_their_commands() {
    let s = AttackProfile::stealth();
    assert!(s.force_http1 && s.use_0rtt && s.fragment_handshake);
    assert!(!s.force_http10 && !s.force_tls11);
    let l = AttackProfile::legacy();
    assert!(l.force_http1 && l.force_tls11 && l.force_http10);
    assert!(!l.use_0rtt && !l.fragment_handshake);
    let d = AttackProfile::standard();
    assert!(d.force_http1 && !d.force_http10 && !d.force_tls11 && !d.use_0rtt);
}

#[test]
fn round_robin_dispatch_fills_inboxes_evenly() {
    let mut engine = EngineCore::new(10);
    let mut inbox = [0usize; 10];
    for _ in 0..1000 {
        match engine.handle_command("DISPATCH") {
            EngineAction::Send { worker, profile } => {
                assert!(profile.force_http1);
                inbox[worker] += 1;
            }
            other => panic!("unexpected {:?}", other),
        }
    }
    assert!(inbox.iter().all(|&n| n == 100));
}

#[test]
fn uneven_dispatch_differs_by_at_most_one() {
    let mut engine = EngineCore::new(7);
    let mut inbox = [0usize; 7];
    let n = 99;
    for _ in 0..n {
        if let EngineAction::Send { worker, .. } = engine.handle_command("DISPATCH STEALTH") {
            inbox[worker] += 1;
        }
    }
    let max = *inbox.iter().max().unwrap();
    let min = *inbox.iter().min().unwrap();
    assert!(max - min <= 1);
    assert_eq!(inbox.iter().sum::<usize>(), n);
}

#[test]
fn shutdown_and_unknown_do_not_dispatch() {
    let mut engine = EngineCore::new(3);
    assert_eq!(engine.handle_command("HELLO"), EngineAction::Ignore);
    assert_eq!(engine.handle_command("SHUTDOWN"), EngineAction::Stop);
    assert_eq!(
        engine.handle_command("DISPATCH"),
        EngineAction::Send { worker: 0, profile: AttackProfile::standard() }
    );
    assert_eq!(engine.num_workers(), 3);
}

#[test]
fn round_robin_counter_wraps_around_slots() {
    let mut r = RoundRobin::new(3);
    let picks: Vec<usize> = (0..7).map(|_| r.pick()).collect();
    assert_eq!(picks, vec![0, 1, 2, 0, 1, 2, 0]);
    assert_eq!(r.issued(), 7);
    assert_eq!(r.slots(), 3);
}

#[test]
fn ja3_cycler_rotates_strictly() {
    let mut cycler =
        Ja3Cycler::new(vec![TlsProvider::Native, TlsProvider::Legacy, TlsProvider::Chrome]);
    let mut counts = [0usize; 3];
    for _ in 0..100 {
        match cycler.next_provider() {
            TlsProvider::Native => counts[0] += 1,
            TlsProvider::Legacy => counts[1] += 1,
            TlsProvider::Chrome => counts[2] += 1,
        }
    }
    for c in counts {
        assert!(c == 33 || c == 34);
    }
    assert_eq!(counts[0], 34);
}

#[test]
fn forced_http1_negotiates_http11_against_h2_peer() {
    let client = alpn_protocols(true);
    let server = vec![b"h2".to_vec(), b"http/1.1".to_vec()];
    assert_eq!(select_alpn(&client, &server), Some(b"http/1.1".to_vec()));
}

#[test]
fn dual_alpn_negotiates_the_server_preference() {
    let client = alpn_protocols(false);
    assert_eq!(client, vec![b"h2".to_vec(), b"http/1.1".to_vec()]);
    let server = vec![b"h2".to_vec(), b"http/1.1".to_vec()];
    assert_eq!(select_alpn(&client, &server), Some(b"h2".to_vec()));
    let h2_only = vec![b"h2".to_vec()];
    assert_eq!(select_alpn(&alpn_protocols(true), &h2_only), None);
}

#[test]
fn alpn_wire_is_length_prefixed() {
    assert_eq!(alpn_wire_bytes(true), b"\x08http/1.1".to_vec());
    assert_eq!(alpn_wire_bytes(false), b"\x02h2\x08http/1.1".to_vec());
}

#[test]
fn providers_apply_the_profile() {
    let legacy = AttackProfile::legacy();
    assert_eq!(
        TlsProvider::Native.settings_for(&legacy).unwrap_err(),
        TlsError::Configuration
    );
    assert_eq!(
        TlsProvider::Chrome.settings_for(&AttackProfile::standard()).unwrap_err(),
        TlsError::Unavailable
    );
    let s = TlsProvider::Legacy.settings_for(&legacy).unwrap();
    assert!(s.tls11 && !s.tls10 && !s.tls12 && !s.tls13);
    assert_eq!(s.alpn, vec![b"http/1.1".to_vec()]);
    let n = TlsProvider::Native.settings_for(&AttackProfile::stealth()).unwrap();
    assert!(n.early_data && n.tls12 && n.tls13 && !n.tls11);
    assert_eq!(n.session_cache_size, SESSION_CACHE_SIZE);
    assert_eq!(n.alpn_wire, b"\x08http/1.1".to_vec());
}

#[test]
fn cycler_settings_follow_the_rotation() {
    let mut cycler = Ja3Cycler::new(vec![TlsProvider::Native, TlsProvider::Chrome]);
    let (p0, s0) = cycler.settings_for(&AttackProfile::standard());
    let (p1, s1) = cycler.settings_for(&AttackProfile::standard());
    assert_eq!(p0, TlsProvider::Native);
    assert!(s0.is_ok());
    assert_eq!(p1, TlsProvider::Chrome);
    assert_eq!(s1.unwrap_err(), TlsError::Unavailable);
}

#[test]
fn chrome_fingerprint_placeholder() {
    assert_eq!(TlsFingerprinter::get_chrome_fingerprint(), vec![0x00, 0x01]);
}

#[test]
fn every_strategy_kind_computes_a_delay() {
    let burst = Strategy::Burst(MicroBurst { burst_rps: 1000, burst_ms: 100, idle_ms: 900 });
    assert!(burst.is_usable());
    let d = burst.next_delay(&calm());
    assert!(d == 1 || d <= 1000);
    assert_eq!(burst.name(), "MicroBurst");
    let geo = Strategy::Geo(GeoLatency { base_ms: 80, rate_per_s: 4 });
    assert!((330..=350).contains(&geo.next_delay(&calm())));
    assert_eq!(geo.name(), "GeoLatency");
    let hours = Strategy::Hours(WorkingHours { start_hour: 0, end_hour: 24, on_rps: 5, off_rps: 5 });
    assert_eq!(hours.next_delay(&calm()), 200);
    assert_eq!(hours.name(), "WorkingHours");
    assert_eq!(Strategy::Slow(Slowloris { target_ms: 1000 }).name(), "Slowloris");
    let failing = TrafficMetrics { latency_ms: 0, error_count: 1 };
    let d = Strategy::Stealth(StealthJitter).next_delay(&failing);
    assert!((7000..12000).contains(&d));
}

#[test]
fn unusable_strategies_are_reported() {
    assert!(!Strategy::Burst(MicroBurst { burst_rps: 0, burst_ms: 100, idle_ms: 900 }).is_usable());
    assert!(!Strategy::Burst(MicroBurst { burst_rps: 5, burst_ms: 0, idle_ms: 0 }).is_usable());
    assert!(!Strategy::Burst(MicroBurst { burst_rps: 5, burst_ms: u64::MAX, idle_ms: 1 }).is_usable());
    assert!(!Strategy::Geo(GeoLatency { base_ms: 0, rate_per_s: 0 }).is_usable());
    assert!(!Strategy::Geo(GeoLatency { base_ms: u64::MAX, rate_per_s: 1 }).is_usable());
    assert!(Strategy::Smooth(SmoothFlow).is_usable());
}
