//! One name resolved per consultation: service records carry their own port,
//! address records take the configured one.

use vstd::prelude::*;
use vstd::string::*;

use crate::config;
use crate::discovery;
use crate::discovery::push_distinct;
use crate::text;
use crate::text::decimal_text;

verus! {

/// The backend.
#[derive(Debug, Clone)]
pub struct DnsDiscovery {
    pub name: String,
    /// The port of address records.
    pub port: u16,
}

/// A service record.
#[derive(Debug, Clone)]
pub struct SrvRecord {
    pub target: String,
    pub port: u16,
}

/// An address record: the address, and whether it is an IPv6 one.
#[derive(Debug, Clone)]
pub struct IpRecord {
    pub ip: String,
    pub v6: bool,
}

/// A target without its root dot.
pub open spec fn rootless(target: Seq<char>) -> Seq<char> {
    if target.len() > 0 && target.last() == '.' {
        target.drop_last()
    } else {
        target
    }
}

/// The candidates of the service records.
pub open spec fn srv_addrs(records: Seq<SrvRecord>) -> Seq<Seq<char>> {
    records.map_values(
        |s: SrvRecord| rootless(s.target@) + ":"@ + text::decimal(s.port as nat),
    )
}

/// The candidates of the address records.
pub open spec fn ip_addrs(records: Seq<IpRecord>, port: u16) -> Seq<Seq<char>> {
    records.map_values(|r: IpRecord| config::authority(r.ip@, r.v6, port))
}

fn srv_candidate(record: &SrvRecord) -> (r: String)
    ensures
        r@ == rootless(record.target@) + ":"@ + text::decimal(record.port as nat),
{
    let t = record.target.as_str();
    let n: usize = t.unicode_len();
    let host = if n > 0 && t.get_char(n - 1) == '.' {
        assert(t@.subrange(0, n - 1) =~= t@.drop_last());
        t.substring_char(0, n - 1)
    } else {
        t
    };
    host.to_owned().concat(":").concat(decimal_text(record.port as u64).as_str())
}

fn ip_candidate(record: &IpRecord, port: u16) -> (r: String)
    ensures
        r@ == config::authority(record.ip@, record.v6, port),
{
    if record.v6 {
        "[".to_owned().concat(record.ip.as_str()).concat("]:").concat(
            decimal_text(port as u64).as_str(),
        )
    } else {
        record.ip.as_str().to_owned().concat(":").concat(decimal_text(port as u64).as_str())
    }
}

impl DnsDiscovery {
    /// The backend for a name. A blank one is refused here: it would fail at
    /// every consultation, which discovery swallows.
    pub fn new(name: String, port: u16) -> (r: Result<DnsDiscovery, String>)
        ensures
            if text::blank(name@) {
                r matches Err(e) && e@ == "dns discovery name must not be empty"@
            } else {
                r matches Ok(d) && d.name == name && d.port == port
            },
    {
        proof {
            text::trimmed_empty_iff_blank(name@);
        }
        if text::trim(name.as_str()).is_empty() {
            return Err("dns discovery name must not be empty".to_owned());
        }
        Ok(DnsDiscovery { name, port })
    }

    /// The candidates of one consultation: the service records', then the
    /// address records', each once. A lookup that failed gives no records.
    pub fn candidates(&self, srv: &Vec<SrvRecord>, ips: &Vec<IpRecord>) -> (r: Vec<String>)
        ensures
            text::views(r@) == discovery::distinct(srv_addrs(srv@) + ip_addrs(ips@, self.port)),
    {
        let ghost all = srv_addrs(srv@) + ip_addrs(ips@, self.port);
        let mut out: Vec<String> = Vec::new();
        assert(text::views(out@) =~= discovery::distinct(all.subrange(0, 0)));
        let mut i: usize = 0;
        while i < srv.len()
            invariant
                i <= srv@.len(),
                all == srv_addrs(srv@) + ip_addrs(ips@, self.port),
                text::views(out@) == discovery::distinct(all.subrange(0, i as int)),
            decreases srv@.len() - i,
        {
            assert(all.subrange(0, i + 1).drop_last() =~= all.subrange(0, i as int));
            let c = srv_candidate(&srv[i]);
            assert(all[i as int] == c@);
            push_distinct(&mut out, c);
            i = i + 1;
        }
        let mut k: usize = 0;
        while k < ips.len()
            invariant
                k <= ips@.len(),
                all == srv_addrs(srv@) + ip_addrs(ips@, self.port),
                text::views(out@) == discovery::distinct(all.subrange(0, srv@.len() + k)),
            decreases ips@.len() - k,
        {
            assert(all.subrange(0, srv@.len() + k + 1).drop_last() =~= all.subrange(
                0,
                srv@.len() + k,
            ));
            let c = ip_candidate(&ips[k], self.port);
            assert(all[srv@.len() + k] == c@);
            push_distinct(&mut out, c);
            k = k + 1;
        }
        assert(all.subrange(0, all.len() as int) =~= all);
        out
    }
}

/// A consultation finds exactly what its records name, each once: service
/// records under their own port and without a root dot, address records under
/// the configured port.
pub proof fn records_are_the_candidates(
    d: DnsDiscovery,
    srv: Vec<SrvRecord>,
    ips: Vec<IpRecord>,
    i: int,
    r: Vec<String>,
)
    requires
        call_ensures(DnsDiscovery::candidates, (&d, &srv, &ips), r),
    ensures
        text::views(r@).no_duplicates(),
        0 <= i < srv@.len() && (srv@[i].target@.len() == 0 || srv@[i].target@.last() != '.')
            ==> text::views(r@).contains(
            srv@[i].target@ + ":"@ + text::decimal(srv@[i].port as nat),
        ),
        0 <= i < srv@.len() && srv@[i].target@.len() > 0 && srv@[i].target@.last() == '.'
            ==> text::views(r@).contains(
            srv@[i].target@.drop_last() + ":"@ + text::decimal(srv@[i].port as nat),
        ),
        0 <= i < ips@.len() && !ips@[i].v6 ==> text::views(r@).contains(
            ips@[i].ip@ + ":"@ + text::decimal(d.port as nat),
        ),
        0 <= i < ips@.len() && ips@[i].v6 ==> text::views(r@).contains(
            "["@ + ips@[i].ip@ + "]:"@ + text::decimal(d.port as nat),
        ),
        r@.len() <= srv@.len() + ips@.len(),
{
    let all = srv_addrs(srv@) + ip_addrs(ips@, d.port);
    discovery::distinct_keeps_each_once(all);
    at_most_all(all);
    assert(text::views(r@).len() == r@.len());
    if 0 <= i < srv@.len() {
        assert(all.contains(all[i]));
        assert(all[i] == rootless(srv@[i].target@) + ":"@ + text::decimal(srv@[i].port as nat));
    }
    if 0 <= i < ips@.len() {
        assert(all.contains(all[srv@.len() + i]));
        assert(all[srv@.len() + i] == config::authority(ips@[i].ip@, ips@[i].v6, d.port));
    }
}

proof fn at_most_all(s: Seq<Seq<char>>)
    ensures
        discovery::distinct(s).len() <= s.len(),
    decreases s.len(),
{
    if s.len() > 0 {
        at_most_all(s.drop_last());
    }
}

/// A name is refused exactly when there is nothing to look up in it.
pub proof fn a_blank_name_is_refused(name: String, port: u16, r: Result<DnsDiscovery, String>)
    requires
        call_ensures(DnsDiscovery::new, (name, port), r),
    ensures
        r is Err <==> forall|i: int| 0 <= i < name@.len() ==> text::white(#[trigger] name@[i]),
        r matches Ok(d) ==> d.name@ == name@ && d.port == port,
{
}

} // verus!
