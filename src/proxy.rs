//! The proxy pool: which proxies are alive and which one a request uses.
use vstd::prelude::*;

verus! {

#[derive(Debug)]
pub struct Proxy {
    /// For example `socks5://1.2.3.4:1080`.
    pub address: String,
    pub latency: u64,
    pub is_alive: bool,
}

impl Proxy {
    pub fn copy(&self) -> (r: Proxy)
        ensures
            r.address@ == self.address@,
            r.latency == self.latency,
            r.is_alive == self.is_alive,
    {
        Proxy { address: self.address.clone(), latency: self.latency, is_alive: self.is_alive }
    }
}

/// Index of the first live proxy, if any.
pub open spec fn first_alive(ps: Seq<Proxy>) -> Option<int>
    decreases ps.len(),
{
    if ps.len() == 0 {
        None
    } else if ps[0].is_alive {
        Some(0)
    } else {
        match first_alive(ps.drop_first()) {
            Some(i) => Some(i + 1),
            None => None,
        }
    }
}

proof fn lemma_first_alive_step(ps: Seq<Proxy>, i: int)
    requires
        0 <= i < ps.len(),
        ps[i].is_alive,
        forall|k: int| 0 <= k < i ==> !(#[trigger] ps[k]).is_alive,
    ensures
        first_alive(ps) == Some(i),
    decreases i,
{
    if i > 0 {
        let rest = ps.drop_first();
        assert forall|k: int| 0 <= k < i - 1 implies !(#[trigger] rest[k]).is_alive by {
            assert(rest[k] == ps[k + 1]);
        }
        lemma_first_alive_step(rest, i - 1);
    }
}

/// Outcome of one health probe: alive with the measured latency when the
/// probe got a success status, dead with latency 0 otherwise.
pub fn probe_outcome(success_status: Option<bool>, elapsed_ms: u64) -> (r: (bool, u64))
    ensures
        success_status == Some(true) ==> r == (true, elapsed_ms),
        success_status != Some(true) ==> r == (false, 0u64),
{
    match success_status {
        Some(true) => (true, elapsed_ms),
        _ => (false, 0),
    }
}

/// The proxy pool.
pub struct ProxyManager {
    proxies: Vec<Proxy>,
}

impl ProxyManager {
    pub closed spec fn pool(self) -> Seq<Proxy> {
        self.proxies@
    }

    /// Every address starts alive with latency 0.
    pub fn new(proxy_list: Vec<String>) -> (r: ProxyManager)
        ensures
            r.pool().len() == proxy_list@.len(),
            forall|i: int|
                0 <= i < proxy_list@.len() ==> (#[trigger] r.pool()[i]).address@ == proxy_list@[i]@
                    && r.pool()[i].is_alive && r.pool()[i].latency == 0,
    {
        let mut proxies: Vec<Proxy> = Vec::new();
        let mut i: usize = 0;
        while i < proxy_list.len()
            invariant
                i <= proxy_list@.len(),
                proxies@.len() == i,
                forall|k: int|
                    0 <= k < i ==> (#[trigger] proxies@[k]).address@ == proxy_list@[k]@
                        && proxies@[k].is_alive && proxies@[k].latency == 0,
            decreases proxy_list.len() - i,
        {
            proxies.push(Proxy { address: proxy_list[i].clone(), latency: 0, is_alive: true });
            i = i + 1;
        }
        ProxyManager { proxies }
    }

    pub fn len(&self) -> (r: usize)
        ensures
            r == self.pool().len(),
    {
        self.proxies.len()
    }

    pub fn address(&self, idx: usize) -> (r: &String)
        requires
            idx < self.pool().len(),
        ensures
            r@ == self.pool()[idx as int].address@,
    {
        &self.proxies[idx]
            .address
    }

    /// Stores the result of a health probe of the proxy at `idx`; an index
    /// past the end changes nothing.
    pub fn record_health(&mut self, idx: usize, alive: bool, latency: u64)
        ensures
            final(self).pool().len() == old(self).pool().len(),
            idx < old(self).pool().len() ==> final(self).pool()[idx as int].is_alive == alive
                && final(self).pool()[idx as int].latency == latency
                && final(self).pool()[idx as int].address@ == old(self).pool()[idx as int].address@,
            forall|k: int|
                0 <= k < old(self).pool().len() && k != idx ==> #[trigger] final(self).pool()[k]
                    == old(self).pool()[k],
    {
        if idx < self.proxies.len() {
            let address = self.proxies[idx].address.clone();
            self.proxies.set(idx, Proxy { address, latency, is_alive: alive });
        }
    }

    /// The first live proxy, if any.
    pub fn checkout_proxy(&self) -> (r: Option<Proxy>)
        ensures
            first_alive(self.pool()) is None ==> r is None,
            first_alive(self.pool()) matches Some(i) ==> r matches Some(p) && p.address@
                == self.pool()[i].address@ && p.latency == self.pool()[i].latency && p.is_alive,
    {
        let mut i: usize = 0;
        while i < self.proxies.len()
            invariant
                i <= self.pool().len(),
                forall|k: int| 0 <= k < i ==> !(#[trigger] self.pool()[k]).is_alive,
            decreases self.proxies.len() - i,
        {
            if self.proxies[i].is_alive {
                proof {
                    lemma_first_alive_step(self.pool(), i as int);
                }
                return Some(self.proxies[i].copy());
            }
            i = i + 1;
        }
        proof {
            lemma_no_alive(self.pool());
        }
        None
    }
}

proof fn lemma_no_alive(ps: Seq<Proxy>)
    requires
        forall|k: int| 0 <= k < ps.len() ==> !(#[trigger] ps[k]).is_alive,
    ensures
        first_alive(ps) is None,
    decreases ps.len(),
{
    if ps.len() > 0 {
        let rest = ps.drop_first();
        assert forall|k: int| 0 <= k < rest.len() implies !(#[trigger] rest[k]).is_alive by {
            assert(rest[k] == ps[k + 1]);
        }
        lemma_no_alive(rest);
    }
}

} // verus!
