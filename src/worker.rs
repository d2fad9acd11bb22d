//! A worker's decisions around one task: which transport a URL selects and
//! where it points, what payload goes out, how the outcome moves the shared
//! counters, when the local latency samples are shipped, and how much of a
//! response body is read.
use vstd::prelude::*;

use crate::buffer::{ascii_bytes, bytes_of, buf_clear, buf_push_ascii};
use crate::fuzz::{catalog_outcome, gzip_variant_fails, valid_draw, PolyglotFuzzer};
use crate::state::{delta_for, CounterDelta, SharedState, WorkerStatus};
use crate::task::{AttackProfile, AttackResult};
use crate::text::{has_prefix, starts_with};
use crate::rotation::occurrences;
use crate::tls::{Ja3Cycler, TlsProvider};
use crate::traffic::{strategy_named, Strategy};

verus! {

/// Ship the local histogram after this many samples...
pub const SYNC_SAMPLES: u64 = 100;

/// ...or after this many milliseconds, whichever comes first.
pub const SYNC_INTERVAL_MS: u64 = 1000;

/// Most bytes of a response body that are read.
pub const BODY_CAP: usize = 10485760;

/// Workers whose id is a multiple of this read responses one byte at a time.
pub const SLOW_READ_EVERY: usize = 10;

#[derive(Clone, Copy, Debug, PartialEq, Eq, Structural)]
pub enum WorkerError {
    /// The profile asks for what the chosen provider cannot do.
    Configuration,
    /// No address was resolved.
    Resolution,
    /// The connection was refused or timed out.
    Transport,
    /// The TLS handshake failed.
    Tls,
    /// Malformed method or unparseable URL.
    Protocol,
}

/// A raw-transport destination.
#[derive(Clone, Debug)]
pub struct RawEndpoint {
    pub host: String,
    pub port: u16,
    pub tls: bool,
}

/// The transport a URL selects.
#[derive(Clone, Debug)]
pub enum TargetRoute {
    /// `http://` and `https://`: a high-level HTTP client.
    Structured,
    /// `raw://` and `raw-https://`: bit-banging over TCP, with TLS for the latter.
    Raw(RawEndpoint),
}

/// Index of the first `c` in `s`, or the length of `s` when there is none.
pub open spec fn first_index(s: Seq<char>, c: char) -> nat
    decreases s.len(),
{
    if s.len() == 0 {
        0
    } else if s[0] == c {
        0
    } else {
        1 + first_index(s.drop_first(), c)
    }
}

pub open spec fn all_digits(s: Seq<char>) -> bool {
    forall|i: int| 0 <= i < s.len() ==> '0' <= #[trigger] s[i] && s[i] <= '9'
}

pub open spec fn digits_value(s: Seq<char>) -> int
    decreases s.len(),
{
    if s.len() == 0 {
        0
    } else {
        digits_value(s.drop_last()) * 10 + (s.last() as int - '0' as int)
    }
}

/// What follows the scheme: everything before the first `/`.
pub open spec fn authority(rest: Seq<char>) -> Seq<char> {
    rest.subrange(0, first_index(rest, '/') as int)
}

pub open spec fn host_part(auth: Seq<char>) -> Seq<char> {
    auth.subrange(0, first_index(auth, ':') as int)
}

pub open spec fn has_port(auth: Seq<char>) -> bool {
    first_index(auth, ':') < auth.len()
}

pub open spec fn port_text(auth: Seq<char>) -> Seq<char> {
    auth.subrange(first_index(auth, ':') as int + 1, auth.len() as int)
}

pub open spec fn valid_port_text(t: Seq<char>) -> bool {
    0 < t.len() && all_digits(t) && digits_value(t) <= 65535
}

/// Whether the text after the scheme names a usable raw endpoint.
pub open spec fn raw_endpoint_ok(rest: Seq<char>) -> bool {
    let auth = authority(rest);
    host_part(auth).len() > 0 && (!has_port(auth) || valid_port_text(port_text(auth)))
}

pub open spec fn raw_port(rest: Seq<char>, default_port: u16) -> int {
    let auth = authority(rest);
    if has_port(auth) {
        digits_value(port_text(auth))
    } else {
        default_port as int
    }
}

proof fn lemma_first_index_bound(s: Seq<char>, c: char)
    ensures
        first_index(s, c) <= s.len(),
        first_index(s, c) < s.len() ==> s[first_index(s, c) as int] == c,
        forall|k: int| 0 <= k < first_index(s, c) ==> s[k] != c,
    decreases s.len(),
{
    if s.len() > 0 && s[0] != c {
        lemma_first_index_bound(s.drop_first(), c);
        assert forall|k: int| 0 <= k < first_index(s, c) implies s[k] != c by {
            if k > 0 {
                assert(s[k] == s.drop_first()[k - 1]);
            }
        }
    }
}

proof fn lemma_first_index_exact(s: Seq<char>, c: char, i: int)
    requires
        0 <= i <= s.len(),
        i < s.len() ==> s[i] == c,
        forall|k: int| 0 <= k < i ==> s[k] != c,
    ensures
        first_index(s, c) == i,
    decreases s.len(),
{
    if s.len() > 0 && s[0] != c {
        assert(i > 0);
        lemma_first_index_exact(s.drop_first(), c, i - 1);
    }
}

/// Index of the first `c` in `s`, or its length.
fn find_char(s: &str, c: char) -> (r: usize)
    ensures
        r == first_index(s@, c),
{
    let n = s.unicode_len();
    let mut i: usize = 0;
    while i < n
        invariant
            n == s@.len(),
            i <= n,
            forall|k: int| 0 <= k < i ==> s@[k] != c,
        decreases n - i,
    {
        if s.get_char(i) == c {
            proof {
                lemma_first_index_exact(s@, c, i as int);
            }
            return i;
        }
        i = i + 1;
    }
    proof {
        lemma_first_index_exact(s@, c, n as int);
    }
    n
}

/// The decimal value of a port, or `None` when the text is empty, holds a
/// non-digit, or exceeds 65535.
pub fn parse_port(t: &str) -> (r: Option<u16>)
    ensures
        r is Some <==> valid_port_text(t@),
        r matches Some(p) ==> p == digits_value(t@),
{
    let n = t.unicode_len();
    if n == 0 {
        return None;
    }
    let mut value: u32 = 0;
    let mut i: usize = 0;
    while i < n
        invariant
            n == t@.len(),
            0 < n,
            i <= n,
            all_digits(t@.subrange(0, i as int)),
            value == digits_value(t@.subrange(0, i as int)),
            value <= 65535,
        decreases n - i,
    {
        let c = t.get_char(i);
        let ghost prefix = t@.subrange(0, i as int + 1);
        assert(prefix.drop_last() =~= t@.subrange(0, i as int));
        if c < '0' || c > '9' {
            assert(!all_digits(t@)) by {
                assert(t@[i as int] == c);
            }
            return None;
        }
        let d = (c as u32) - ('0' as u32);
        let next = value * 10 + d;
        assert(next == digits_value(prefix));
        if next > 65535 {
            proof {
                lemma_digits_value_grows(t@, i as int + 1);
            }
            return None;
        }
        value = next;
        i = i + 1;
    }
    assert(t@.subrange(0, n as int) =~= t@);
    Some(value as u16)
}

/// The value of a digit string is at least the value of any of its prefixes.
proof fn lemma_digits_value_grows(s: Seq<char>, k: int)
    requires
        0 <= k <= s.len(),
    ensures
        all_digits(s) ==> digits_value(s.subrange(0, k)) <= digits_value(s),
    decreases s.len() - k,
{
    if all_digits(s) {
        if k == s.len() {
            assert(s.subrange(0, k) =~= s);
        } else {
            lemma_digits_value_grows(s, k + 1);
            let p = s.subrange(0, k + 1);
            let q = s.subrange(0, k);
            assert(p.drop_last() =~= q);
            assert(p.last() == s[k]);
            assert(all_digits(q)) by {
                assert forall|i: int| 0 <= i < q.len() implies '0' <= #[trigger] q[i] && q[i]
                    <= '9' by {
                    assert(q[i] == s[i]);
                }
            }
            lemma_digits_value_nonneg(q);
            assert(digits_value(p) == digits_value(q) * 10 + (s[k] as int - '0' as int));
        }
    }
}

proof fn lemma_digits_value_nonneg(s: Seq<char>)
    requires
        all_digits(s),
    ensures
        digits_value(s) >= 0,
    decreases s.len(),
{
    if s.len() > 0 {
        assert(all_digits(s.drop_last())) by {
            assert forall|i: int| 0 <= i < s.drop_last().len() implies '0' <= #[trigger] s.drop_last()[i]
                && s.drop_last()[i] <= '9' by {
                assert(s.drop_last()[i] == s[i]);
            }
        }
        lemma_digits_value_nonneg(s.drop_last());
    }
}

pub open spec fn is_raw_tls(url: Seq<char>) -> bool {
    has_prefix(url, "raw-https://"@)
}

pub open spec fn is_raw_plain(url: Seq<char>) -> bool {
    has_prefix(url, "raw://"@)
}

/// The text after the scheme of a raw URL.
pub open spec fn after_scheme(url: Seq<char>) -> Seq<char> {
    if is_raw_tls(url) {
        url.subrange(12, url.len() as int)
    } else {
        url.subrange(6, url.len() as int)
    }
}

/// The endpoint named by `rest`, the text after a raw scheme.
fn parse_endpoint(rest: &str, tls: bool) -> (r: Result<RawEndpoint, WorkerError>)
    ensures
        r is Ok <==> raw_endpoint_ok(rest@),
        r matches Ok(e) ==> e.host@ == host_part(authority(rest@)) && e.port == raw_port(
            rest@,
            if tls {
                443u16
            } else {
                80u16
            },
        ) && e.tls == tls,
        r matches Err(e) ==> e == WorkerError::Protocol,
{
    let slash = find_char(rest, '/');
    proof {
        lemma_first_index_bound(rest@, '/');
    }
    let auth = rest.substring_char(0, slash);
    let colon = find_char(auth, ':');
    proof {
        lemma_first_index_bound(auth@, ':');
    }
    if colon == 0 {
        return Err(WorkerError::Protocol);
    }
    let host_text = auth.substring_char(0, colon);
    let port: u16 = if colon < auth.unicode_len() {
        let text = auth.substring_char(colon + 1, auth.unicode_len());
        match parse_port(text) {
            Some(p) => p,
            None => {
                return Err(WorkerError::Protocol);
            },
        }
    } else if tls {
        443
    } else {
        80
    };
    Ok(RawEndpoint { host: host_text.to_owned(), port, tls })
}

/// The transport that `url` selects, with its destination for the raw ones.
/// A raw URL without a host, or with a port that is not a number up to
/// 65535, is a protocol error; the default ports are 80 and 443.
pub fn route_target(url: &str) -> (r: Result<TargetRoute, WorkerError>)
    ensures
        !is_raw_tls(url@) && !is_raw_plain(url@) ==> r matches Ok(TargetRoute::Structured),
        is_raw_tls(url@) || is_raw_plain(url@) ==> {
            &&& (r is Ok <==> raw_endpoint_ok(after_scheme(url@)))
            &&& r is Err ==> r == Err::<TargetRoute, WorkerError>(WorkerError::Protocol)
            &&& r matches Ok(TargetRoute::Raw(e)) ==> {
                &&& e.tls == is_raw_tls(url@)
                &&& e.host@ == host_part(authority(after_scheme(url@)))
                &&& e.port == raw_port(
                    after_scheme(url@),
                    if is_raw_tls(url@) {
                        443u16
                    } else {
                        80u16
                    },
                )
            }
            &&& !(r matches Ok(TargetRoute::Structured))
        },
{
    proof {
        reveal_strlit("raw-https://");
        reveal_strlit("raw://");
    }
    if starts_with(url, "raw-https://") {
        let rest = url.substring_char(12, url.unicode_len());
        match parse_endpoint(rest, true) {
            Ok(e) => Ok(TargetRoute::Raw(e)),
            Err(e) => Err(e),
        }
    } else if starts_with(url, "raw://") {
        let rest = url.substring_char(6, url.unicode_len());
        match parse_endpoint(rest, false) {
            Ok(e) => Ok(TargetRoute::Raw(e)),
            Err(e) => Err(e),
        }
    } else {
        Ok(TargetRoute::Structured)
    }
}

/// Whether a worker reads responses one byte at a time.
pub fn reads_slowly(worker_id: usize) -> (r: bool)
    ensures
        r == (worker_id % SLOW_READ_EVERY == 0),
{
    worker_id % SLOW_READ_EVERY == 0
}

pub open spec fn http10_request() -> Seq<u8> {
    ascii_bytes("GET / HTTP/1.0\r\n\r\n"@)
}

/// How much of a body chunk to keep, and whether to stop reading.
#[derive(Clone, Copy, Debug, PartialEq, Eq, Structural)]
pub struct BodyStep {
    pub keep: usize,
    pub stop: bool,
}

/// Having read `total` bytes, a chunk of `chunk` bytes is kept up to the cap;
/// reading stops once a chunk would pass it.
pub fn body_step(total: usize, chunk: usize) -> (r: BodyStep)
    requires
        total <= BODY_CAP,
    ensures
        total + chunk <= BODY_CAP ==> r == (BodyStep { keep: chunk, stop: false }),
        total + chunk > BODY_CAP ==> r == (BodyStep { keep: (BODY_CAP - total) as usize, stop: true }),
        total + r.keep <= BODY_CAP,
{
    if chunk <= BODY_CAP - total {
        BodyStep { keep: chunk, stop: false }
    } else {
        BodyStep { keep: BODY_CAP - total, stop: true }
    }
}

/// Samples recorded since the last shipment of the local histogram.
#[derive(Clone, Copy, Debug, PartialEq, Eq, Structural)]
pub struct TelemetrySync {
    pub samples: u64,
    pub last_sync_ms: u64,
}

pub open spec fn sync_due(samples: u64, last_sync_ms: u64, now_ms: u64) -> bool {
    samples >= SYNC_SAMPLES || now_ms >= last_sync_ms + SYNC_INTERVAL_MS
}

/// One recorded sample: when the shipment is due, the sync flag and a
/// counter started over at `now_ms`; otherwise one more sample.
pub open spec fn sync_step(t: TelemetrySync, now_ms: u64) -> (bool, TelemetrySync) {
    if t.samples == u64::MAX || sync_due((t.samples + 1) as u64, t.last_sync_ms, now_ms) {
        (true, TelemetrySync { samples: 0, last_sync_ms: now_ms })
    } else {
        (false, TelemetrySync { samples: (t.samples + 1) as u64, last_sync_ms: t.last_sync_ms })
    }
}

impl TelemetrySync {
    pub fn new(now_ms: u64) -> (r: TelemetrySync)
        ensures
            r == (TelemetrySync { samples: 0, last_sync_ms: now_ms }),
    {
        TelemetrySync { samples: 0, last_sync_ms: now_ms }
    }

    /// Counts one sample; when 100 samples have accumulated or a second has
    /// passed since the last shipment, returns true and starts over.
    pub fn record(&mut self, now_ms: u64) -> (r: bool)
        ensures
            (r, *final(self)) == sync_step(*old(self), now_ms),
    {
        if self.samples == u64::MAX {
            self.samples = 0;
            self.last_sync_ms = now_ms;
            return true;
        }
        let samples = self.samples + 1;
        let due = samples >= SYNC_SAMPLES || (now_ms >= self.last_sync_ms && now_ms
            - self.last_sync_ms >= SYNC_INTERVAL_MS);
        if due {
            self.samples = 0;
            self.last_sync_ms = now_ms;
        } else {
            self.samples = samples;
        }
        due
    }
}

/// What one worker owns for its lifetime.
pub struct Worker {
    id: usize,
    strategy: Strategy,
    fuzzer: PolyglotFuzzer,
    cycler: Ja3Cycler,
    telemetry: TelemetrySync,
}

impl Worker {
    pub closed spec fn worker_id(self) -> usize {
        self.id
    }

    pub closed spec fn shaping(self) -> Strategy {
        self.strategy
    }

    pub fn id(&self) -> (r: usize)
        ensures
            r == self.worker_id(),
    {
        self.id
    }

    pub fn strategy(&self) -> (r: Strategy)
        ensures
            r == self.shaping(),
    {
        self.strategy
    }

    pub closed spec fn handshakes(self) -> nat {
        self.cycler.handshakes()
    }

    pub closed spec fn providers(self) -> Seq<TlsProvider> {
        self.cycler.provider_list()
    }

    /// The index of the provider of every handshake so far, in order.
    pub closed spec fn tls_choices(self) -> Seq<int> {
        self.cycler.chosen()
    }

    /// Over all the handshakes a worker made, its three providers were each
    /// used `n / 3` or `n / 3 + 1` times.
    pub proof fn lemma_handshakes_balanced(self, i: int, j: int)
        requires
            self.rotation_ok(),
            0 <= i < 3,
            0 <= j < 3,
        ensures
            self.tls_choices().len() == self.handshakes(),
            occurrences(self.tls_choices(), i) <= occurrences(self.tls_choices(), j) + 1,
            self.handshakes() / 3 <= occurrences(self.tls_choices(), i) <= self.handshakes() / 3
                + 1,
    {
        self.cycler.lemma_rotation_balanced(i, j);
    }

    /// The rotation of a worker cycles through its three providers.
    pub closed spec fn rotation_ok(self) -> bool {
        self.cycler.rotation_size() == 3 && self.cycler.provider_list().len() == 3
    }

    pub closed spec fn telemetry_state(self) -> TelemetrySync {
        self.telemetry
    }

    /// A worker with the strategy of the given name (`stealth`, or smooth
    /// otherwise), rotating through the native, legacy and Chrome providers.
    pub fn new(id: usize, strategy_type: &str, now_ms: u64) -> (r: Worker)
        ensures
            r.worker_id() == id,
            r.shaping() == strategy_named(strategy_type@),
            r.handshakes() == 0,
            r.tls_choices() == Seq::<int>::empty(),
            r.rotation_ok(),
            r.providers() == seq![TlsProvider::Native, TlsProvider::Legacy, TlsProvider::Chrome],
            r.telemetry_state() == (TelemetrySync { samples: 0, last_sync_ms: now_ms }),
    {
        let mut providers: Vec<TlsProvider> = Vec::new();
        providers.push(TlsProvider::Native);
        providers.push(TlsProvider::Legacy);
        providers.push(TlsProvider::Chrome);
        assert(providers@ =~= seq![TlsProvider::Native, TlsProvider::Legacy, TlsProvider::Chrome]);
        Worker {
            id,
            strategy: Strategy::from_name(strategy_type),
            fuzzer: PolyglotFuzzer::new(),
            cycler: Ja3Cycler::new(providers),
            telemetry: TelemetrySync::new(now_ms),
        }
    }

    /// Fills the buffer with the bytes to send: a catalog variant, or the
    /// bare HTTP/1.0 request line when the profile forces HTTP/1.0.
    pub fn prepare_payload(
        &self,
        buffer: &mut bytes::BytesMut,
        template: &str,
        profile: &AttackProfile,
    )
        ensures
            profile.force_http10 ==> bytes_of(*final(buffer)) == http10_request(),
            !profile.force_http10 ==> exists|variant: u64, pick: u64, high: u8|
                valid_draw(variant, pick, high) && #[trigger] catalog_outcome(
                    variant,
                    pick,
                    high,
                    bytes_of(*final(buffer)),
                ),
            !profile.force_http10 && !gzip_variant_fails() ==> bytes_of(*final(buffer)).len() > 0,
    {
        self.fuzzer.generate_into(buffer, template);
        if profile.force_http10 {
            proof {
                reveal_strlit("GET / HTTP/1.0\r\n\r\n");
            }
            buf_clear(buffer);
            buf_push_ascii(buffer, "GET / HTTP/1.0\r\n\r\n");
            assert(bytes_of(*buffer) =~= http10_request());
        }
    }

    pub fn handshake_count(&self) -> (r: u64)
        ensures
            r == self.handshakes(),
    {
        self.cycler.handshake_count()
    }

    /// The TLS provider for the next raw-TLS handshake, in strict rotation.
    pub fn next_provider(&mut self) -> (r: TlsProvider)
        requires
            old(self).handshakes() < u64::MAX,
        ensures
            r == old(self).providers()[(old(self).handshakes() % old(self).providers().len()) as int],
            final(self).providers() == old(self).providers(),
            final(self).handshakes() == old(self).handshakes() + 1,
            old(self).rotation_ok() ==> final(self).rotation_ok() && final(self).tls_choices()
                == old(self).tls_choices().push((old(self).handshakes() % 3) as int),
    {
        self.cycler.next_provider()
    }

    /// Books a finished task: the shared counters move by `delta_for`, the
    /// status returns to idle, and a completed request is counted towards the
    /// next histogram shipment, which is due when this returns true.
    pub fn finish_task(
        &mut self,
        shared: &SharedState,
        outcome: Option<AttackResult>,
        now_ms: u64,
    ) -> (r: (CounterDelta, bool))
        requires
            old(self).worker_id() < shared.slot_count(),
        ensures
            r.0 == delta_for(outcome),
            outcome is None ==> !r.1 && final(self).telemetry_state() == old(self).telemetry_state(),
            outcome is Some ==> (r.1, final(self).telemetry_state()) == sync_step(
                old(self).telemetry_state(),
                now_ms,
            ),
            final(self).worker_id() == old(self).worker_id(),
            final(self).shaping() == old(self).shaping(),
            final(self).handshakes() == old(self).handshakes(),
            final(self).providers() == old(self).providers(),
            final(self).tls_choices() == old(self).tls_choices(),
            final(self).rotation_ok() == old(self).rotation_ok(),
    {
        let delta = shared.record_outcome(outcome);
        shared.set_status(self.id, WorkerStatus::Idle);
        let sync = match outcome {
            Some(_) => self.telemetry.record(now_ms),
            None => false,
        };
        (delta, sync)
    }
}

} // verus!
