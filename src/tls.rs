//! TLS impersonation: which provider handles a handshake, which protocols it
//! advertises, and what the peer can negotiate from that.
use vstd::prelude::*;

use crate::buffer::{ascii_bytes, ascii_of};
use crate::rotation::{lemma_picks_balanced, occurrences, RoundRobin};
use crate::task::AttackProfile;

verus! {

/// Size of the TLS session cache shared by the native configurations.
pub const SESSION_CACHE_SIZE: usize = 256;

pub open spec fn http11_id() -> Seq<u8> {
    ascii_bytes("http/1.1"@)
}

pub open spec fn h2_id() -> Seq<u8> {
    ascii_bytes("h2"@)
}

/// The protocols advertised in ALPN: `http/1.1` alone when HTTP/1.1 is
/// forced, otherwise `h2` then `http/1.1`.
pub open spec fn alpn_list(force_http1: bool) -> Seq<Seq<u8>> {
    if force_http1 {
        seq![http11_id()]
    } else {
        seq![h2_id(), http11_id()]
    }
}

/// ALPN protocol names as the wire carries them, each preceded by its length.
pub open spec fn alpn_wire(protocols: Seq<Seq<u8>>) -> Seq<u8>
    decreases protocols.len(),
{
    if protocols.len() == 0 {
        Seq::empty()
    } else {
        seq![protocols[0].len() as u8] + protocols[0] + alpn_wire(protocols.drop_first())
    }
}

/// The protocol a server settles on: the first of its own preferences that
/// the client offered, if any.
pub open spec fn negotiated(client: Seq<Seq<u8>>, server: Seq<Seq<u8>>) -> Option<Seq<u8>>
    decreases server.len(),
{
    if server.len() == 0 {
        None
    } else if client.contains(server[0]) {
        Some(server[0])
    } else {
        negotiated(client, server.drop_first())
    }
}

proof fn lemma_negotiated_offered(client: Seq<Seq<u8>>, server: Seq<Seq<u8>>)
    ensures
        negotiated(client, server) matches Some(p) ==> client.contains(p),
    decreases server.len(),
{
    if server.len() > 0 && !client.contains(server[0]) {
        lemma_negotiated_offered(client, server.drop_first());
    }
}

/// With HTTP/1.1 forced, whatever a server prefers, the protocol it can
/// negotiate is `http/1.1` or none: never `h2`.
pub proof fn lemma_forced_http1_never_h2(server: Seq<Seq<u8>>)
    ensures
        negotiated(alpn_list(true), server) matches Some(p) ==> p == http11_id(),
        negotiated(alpn_list(true), server) != Some(h2_id()),
{
    reveal_strlit("http/1.1");
    reveal_strlit("h2");
    lemma_negotiated_offered(alpn_list(true), server);
    assert(h2_id().len() != http11_id().len());
}

fn http11_bytes() -> (r: Vec<u8>)
    ensures
        r@ == http11_id(),
{
    proof {
        reveal_strlit("http/1.1");
    }
    vstd::slice::slice_to_vec(ascii_of("http/1.1"))
}

fn h2_bytes() -> (r: Vec<u8>)
    ensures
        r@ == h2_id(),
{
    proof {
        reveal_strlit("h2");
    }
    vstd::slice::slice_to_vec(ascii_of("h2"))
}

pub open spec fn views(v: Seq<Vec<u8>>) -> Seq<Seq<u8>> {
    v.map_values(|x: Vec<u8>| x@)
}

/// The protocols to advertise for a profile.
pub fn alpn_protocols(force_http1: bool) -> (r: Vec<Vec<u8>>)
    ensures
        views(r@) == alpn_list(force_http1),
{
    let mut r: Vec<Vec<u8>> = Vec::new();
    if !force_http1 {
        r.push(h2_bytes());
    }
    r.push(http11_bytes());
    assert(views(r@) =~= alpn_list(force_http1));
    r
}

/// The length-prefixed wire form of the protocols for a profile.
pub fn alpn_wire_bytes(force_http1: bool) -> (r: Vec<u8>)
    ensures
        r@ == alpn_wire(alpn_list(force_http1)),
{
    proof {
        reveal_strlit("http/1.1");
        reveal_strlit("h2");
    }
    let mut r: Vec<u8> = Vec::new();
    if !force_http1 {
        r.push(2);
        r.extend_from_slice(ascii_of("h2"));
    }
    r.push(8);
    r.extend_from_slice(ascii_of("http/1.1"));
    proof {
        reveal_with_fuel(alpn_wire, 3);
        let l = alpn_list(force_http1);
        if force_http1 {
            assert(l.drop_first() =~= Seq::<Seq<u8>>::empty());
        } else {
            assert(l.drop_first() =~= seq![http11_id()]);
            assert(l.drop_first().drop_first() =~= Seq::<Seq<u8>>::empty());
        }
    }
    assert(r@ =~= alpn_wire(alpn_list(force_http1)));
    r
}

/// The protocol a server with preferences `server` settles on when offered
/// `client`.
pub fn select_alpn(client: &Vec<Vec<u8>>, server: &Vec<Vec<u8>>) -> (r: Option<Vec<u8>>)
    ensures
        r matches Some(v) ==> negotiated(views(client@), views(server@)) == Some(v@),
        r is None ==> negotiated(views(client@), views(server@)) is None,
{
    let ghost c = views(client@);
    let ghost sv = views(server@);
    assert(sv.subrange(0, sv.len() as int) =~= sv);
    let mut i: usize = 0;
    while i < server.len()
        invariant
            i <= server@.len(),
            c == views(client@),
            sv == views(server@),
            negotiated(c, sv) == negotiated(c, sv.subrange(i as int, sv.len() as int)),
        decreases server.len() - i,
    {
        let ghost rest = sv.subrange(i as int, sv.len() as int);
        assert(rest[0] == server@[i as int]@);
        assert(rest.drop_first() =~= sv.subrange(i as int + 1, sv.len() as int));
        let mut j: usize = 0;
        while j < client.len()
            invariant
                j <= client@.len(),
                i < server@.len(),
                c == views(client@),
                sv == views(server@),
                rest == sv.subrange(i as int, sv.len() as int),
                rest[0] == server@[i as int]@,
                negotiated(c, sv) == negotiated(c, rest),
                forall|k: int| 0 <= k < j ==> c[k] != rest[0],
            decreases client.len() - j,
        {
            if bytes_equal(&client[j], &server[i]) {
                assert(c[j as int] == rest[0]);
                assert(c.contains(rest[0]));
                let chosen = vstd::slice::slice_to_vec(server[i].as_slice());
                return Some(chosen);
            }
            j = j + 1;
        }
        assert(!c.contains(rest[0]));
        i = i + 1;
    }
    None
}

fn bytes_equal(a: &Vec<u8>, b: &Vec<u8>) -> (r: bool)
    ensures
        r == (a@ == b@),
{
    if a.len() != b.len() {
        return false;
    }
    let mut i: usize = 0;
    while i < a.len()
        invariant
            a@.len() == b@.len(),
            i <= a@.len(),
            forall|k: int| 0 <= k < i ==> a@[k] == b@[k],
        decreases a.len() - i,
    {
        if a[i] != b[i] {
            return false;
        }
        i = i + 1;
    }
    assert(a@ =~= b@);
    true
}

/// The TLS implementations a handshake can go through.
#[derive(Clone, Copy, Debug, PartialEq, Eq, Structural)]
pub enum TlsProvider {
    /// A modern TLS stack with two fixed client configurations.
    Native,
    /// A legacy TLS stack whose protocol versions can be switched off.
    Legacy,
    /// Reserved for a browser-accurate fingerprint; not available.
    Chrome,
}

#[derive(Clone, Copy, Debug, PartialEq, Eq, Structural)]
pub enum TlsError {
    /// The profile asks for something the provider cannot do.
    Configuration,
    /// The provider has no implementation.
    Unavailable,
}

/// The client settings a provider uses for one handshake.
#[derive(Clone, Debug)]
pub struct ClientSettings {
    pub alpn: Vec<Vec<u8>>,
    pub alpn_wire: Vec<u8>,
    pub early_data: bool,
    pub session_cache_size: usize,
    pub tls10: bool,
    pub tls11: bool,
    pub tls12: bool,
    pub tls13: bool,
}

/// The native provider's settings: the ALPN of the profile, early data, the
/// shared session cache, TLS 1.2 and 1.3 only.
pub open spec fn native_settings(s: ClientSettings, profile: AttackProfile) -> bool {
    &&& views(s.alpn@) == alpn_list(profile.force_http1)
    &&& s.alpn_wire@ == alpn_wire(alpn_list(profile.force_http1))
    &&& s.early_data
    &&& s.session_cache_size == SESSION_CACHE_SIZE
    &&& !s.tls10 && !s.tls11 && s.tls12 && s.tls13
}

/// The legacy provider's settings: the ALPN of the profile, early data as the
/// profile asks, and every version but TLS 1.1 off when TLS 1.1 is forced.
pub open spec fn legacy_settings(s: ClientSettings, profile: AttackProfile) -> bool {
    &&& views(s.alpn@) == alpn_list(profile.force_http1)
    &&& s.alpn_wire@ == alpn_wire(alpn_list(profile.force_http1))
    &&& s.early_data == profile.use_0rtt
    &&& s.session_cache_size == SESSION_CACHE_SIZE
    &&& s.tls11
    &&& s.tls10 == !profile.force_tls11
    &&& s.tls12 == !profile.force_tls11
    &&& s.tls13 == !profile.force_tls11
}

/// What a provider's settings for a profile are: the Chrome provider is
/// unavailable, the native one refuses TLS 1.1, and otherwise each gives its
/// own settings.
pub open spec fn provider_settings(
    p: TlsProvider,
    profile: AttackProfile,
    r: Result<ClientSettings, TlsError>,
) -> bool {
    match p {
        TlsProvider::Chrome => r == Err::<ClientSettings, TlsError>(TlsError::Unavailable),
        TlsProvider::Native => if profile.force_tls11 {
            r == Err::<ClientSettings, TlsError>(TlsError::Configuration)
        } else {
            r matches Ok(s) && native_settings(s, profile)
        },
        TlsProvider::Legacy => r matches Ok(s) && legacy_settings(s, profile),
    }
}

impl TlsProvider {
    /// The settings this provider uses for `profile`. The native provider
    /// refuses TLS 1.1, the legacy one keeps only TLS 1.1 when it is forced,
    /// and the Chrome provider always fails.
    pub fn settings_for(&self, profile: &AttackProfile) -> (r: Result<ClientSettings, TlsError>)
        ensures
            *self is Chrome ==> r == Err::<ClientSettings, TlsError>(TlsError::Unavailable),
            *self is Native && profile.force_tls11 ==> r == Err::<ClientSettings, TlsError>(
                TlsError::Configuration,
            ),
            *self is Native && !profile.force_tls11 ==> (r matches Ok(s) && native_settings(
                s,
                *profile,
            )),
            *self is Legacy ==> (r matches Ok(s) && legacy_settings(s, *profile)),
            provider_settings(*self, *profile, r),
    {
        match self {
            TlsProvider::Chrome => Err(TlsError::Unavailable),
            TlsProvider::Native => {
                if profile.force_tls11 {
                    Err(TlsError::Configuration)
                } else {
                    Ok(
                        ClientSettings {
                            alpn: alpn_protocols(profile.force_http1),
                            alpn_wire: alpn_wire_bytes(profile.force_http1),
                            early_data: true,
                            session_cache_size: SESSION_CACHE_SIZE,
                            tls10: false,
                            tls11: false,
                            tls12: true,
                            tls13: true,
                        },
                    )
                }
            },
            TlsProvider::Legacy => {
                let modern = !profile.force_tls11;
                Ok(
                    ClientSettings {
                        alpn: alpn_protocols(profile.force_http1),
                        alpn_wire: alpn_wire_bytes(profile.force_http1),
                        early_data: profile.use_0rtt,
                        session_cache_size: SESSION_CACHE_SIZE,
                        tls10: modern,
                        tls11: true,
                        tls12: modern,
                        tls13: modern,
                    },
                )
            },
        }
    }
}

/// Rotates through an ordered list of providers, strictly round-robin.
pub struct Ja3Cycler {
    providers: Vec<TlsProvider>,
    rotation: RoundRobin,
}

impl Ja3Cycler {
    #[verifier::type_invariant]
    spec fn matches_rotation(self) -> bool {
        self.providers@.len() == self.rotation.slot_count()
    }

    pub closed spec fn provider_list(self) -> Seq<TlsProvider> {
        self.providers@
    }

    /// How many handshakes were routed so far.
    pub closed spec fn handshakes(self) -> nat {
        self.rotation.issued_count()
    }

    /// The index of the provider of every handshake so far, in order.
    pub closed spec fn chosen(self) -> Seq<int> {
        self.rotation.history()
    }

    /// After any number of handshakes, no two providers were used a number of
    /// times differing by more than one, and each was used `n / N` or
    /// `n / N + 1` times.
    pub proof fn lemma_rotation_balanced(self, i: int, j: int)
        requires
            0 <= i < self.rotation_size(),
            0 <= j < self.rotation_size(),
        ensures
            self.chosen().len() == self.handshakes(),
            occurrences(self.chosen(), i) <= occurrences(self.chosen(), j) + 1,
            self.handshakes() / self.rotation_size() <= occurrences(self.chosen(), i)
                <= self.handshakes() / self.rotation_size() + 1,
    {
        self.rotation.lemma_history();
        lemma_picks_balanced(self.handshakes(), self.rotation_size(), i, j);
    }

    /// The number of slots the rotation cycles through; every constructor and
    /// method keeps it equal to the number of providers.
    pub closed spec fn rotation_size(self) -> nat {
        self.rotation.slot_count()
    }

    pub fn new(providers: Vec<TlsProvider>) -> (r: Ja3Cycler)
        requires
            providers@.len() > 0,
        ensures
            r.chosen() == Seq::<int>::empty(),
            r.rotation_size() == providers@.len(),
            r.provider_list() == providers@,
            r.handshakes() == 0,
    {
        let rotation = RoundRobin::new(providers.len());
        Ja3Cycler { providers, rotation }
    }

    pub fn handshake_count(&self) -> (r: u64)
        ensures
            r == self.handshakes(),
    {
        self.rotation.issued()
    }

    /// The provider for the next handshake: the one at the number of earlier
    /// handshakes modulo the number of providers.
    pub fn next_provider(&mut self) -> (r: TlsProvider)
        requires
            old(self).handshakes() < u64::MAX,
        ensures
            r == old(self).provider_list()[(old(self).handshakes() % old(
                self,
            ).provider_list().len()) as int],
            final(self).provider_list() == old(self).provider_list(),
            final(self).handshakes() == old(self).handshakes() + 1,
            final(self).rotation_size() == old(self).rotation_size(),
            old(self).rotation_size() == old(self).provider_list().len() ==> final(self).chosen()
                == old(self).chosen().push(
                (old(self).handshakes() % old(self).provider_list().len()) as int,
            ),
        no_unwind
    {
        proof {
            use_type_invariant(&*self);
        }
        let i = self.rotation.pick();
        self.providers[i]
    }

    /// The settings of the next provider in the rotation for `profile`.
    pub fn settings_for(&mut self, profile: &AttackProfile) -> (r: (
        TlsProvider,
        Result<ClientSettings, TlsError>,
    ))
        requires
            old(self).handshakes() < u64::MAX,
        ensures
            r.0 == old(self).provider_list()[(old(self).handshakes() % old(
                self,
            ).provider_list().len()) as int],
            final(self).provider_list() == old(self).provider_list(),
            final(self).handshakes() == old(self).handshakes() + 1,
            final(self).rotation_size() == old(self).rotation_size(),
            old(self).rotation_size() == old(self).provider_list().len() ==> final(self).chosen()
                == old(self).chosen().push(
                (old(self).handshakes() % old(self).provider_list().len()) as int,
            ),
            provider_settings(r.0, *profile, r.1),
    {
        let provider = self.next_provider();
        let settings = provider.settings_for(profile);
        (provider, settings)
    }
}

/// Placeholder fingerprint material for the browser-accurate provider.
pub struct TlsFingerprinter;

impl TlsFingerprinter {
    pub fn get_chrome_fingerprint() -> (r: Vec<u8>)
        ensures
            r@ == seq![0x00u8, 0x01u8],
    {
        let mut r: Vec<u8> = Vec::new();
        r.push(0x00);
        r.push(0x01);
        assert(r@ =~= seq![0x00u8, 0x01u8]);
        r
    }
}

} // verus!
