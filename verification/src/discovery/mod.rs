//! Discovery: who may be a coordinator, as dialable raft addresses.
//!
//! The answer is advisory. It seeds whom a converging process asks; raft
//! membership stays the sole authority. A backend that is stale, partial or
//! down may delay convergence and must never wedge it, so every failure
//! degrades to fewer candidates.

use vstd::prelude::*;

use crate::config::{BackendKind, DiscoveryConfig};
use crate::discovery::dns::DnsDiscovery;
use crate::discovery::ec2_asg::{Ec2AsgDiscovery, ATTESTOR_SNAPSHOT_TTL_SECS};
use crate::discovery::file::FileDiscovery;
use crate::text;
use crate::time::SECOND;

pub mod dns;
pub mod ec2_asg;
pub mod file;

verus! {

/// The texts, each once, in the order they first occur.
pub open spec fn distinct(s: Seq<Seq<char>>) -> Seq<Seq<char>>
    decreases s.len(),
{
    if s.len() == 0 {
        seq![]
    } else {
        let before = distinct(s.drop_last());
        if before.contains(s.last()) {
            before
        } else {
            before.push(s.last())
        }
    }
}

/// Nothing occurs twice, and nothing is lost or added.
pub proof fn distinct_keeps_each_once(s: Seq<Seq<char>>)
    ensures
        distinct(s).no_duplicates(),
        forall|x: Seq<char>| distinct(s).contains(x) <==> s.contains(x),
    decreases s.len(),
{
    if s.len() > 0 {
        let before = distinct(s.drop_last());
        distinct_keeps_each_once(s.drop_last());
        assert forall|x: Seq<char>| distinct(s).contains(x) <==> s.contains(x) by {
            if s.contains(x) {
                let i = choose|i: int| 0 <= i < s.len() && s[i] == x;
                if i < s.len() - 1 {
                    assert(s.drop_last()[i] == x);
                    assert(s.drop_last().contains(x));
                    assert(before.contains(x));
                    let j = choose|j: int| 0 <= j < before.len() && before[j] == x;
                    assert(distinct(s)[j] == x);
                } else if !before.contains(x) {
                    assert(distinct(s)[before.len() as int] == x);
                }
            }
            if distinct(s).contains(x) {
                let i = choose|i: int| 0 <= i < distinct(s).len() && distinct(s)[i] == x;
                if i < before.len() {
                    assert(before[i] == x);
                    assert(before.contains(x));
                    assert(s.drop_last().contains(x));
                    let j = choose|j: int| 0 <= j < s.drop_last().len() && s.drop_last()[j] == x;
                    assert(s[j] == x);
                } else {
                    assert(s[s.len() - 1] == x);
                }
            }
        }
    }
}

/// Append a text that is not there yet.
pub(crate) fn push_distinct(out: &mut Vec<String>, s: String)
    ensures
        text::views(final(out)@) == (if text::views(old(out)@).contains(s@) {
            text::views(old(out)@)
        } else {
            text::views(old(out)@).push(s@)
        }),
{
    if text::listed(out, s.as_str()) {
        return;
    }
    assert(text::views(old(out)@.push(s)) =~= text::views(old(out)@).push(s@));
    out.push(s);
}

/// A discovery backend.
#[derive(Debug, Clone)]
pub enum Discovery {
    Static(Vec<String>),
    Dns(DnsDiscovery),
    File(FileDiscovery),
    Ec2Asg(Ec2AsgDiscovery),
}

/// The backend a section names. No backend touches the network here. A static
/// list may be left out; the other backends need their own table.
pub fn build(config: &DiscoveryConfig) -> (r: Result<Discovery, String>)
    requires
        config.backend != BackendKind::Static ==> config.has_table(config.backend),
    ensures
        match config.backend {
            BackendKind::Static => r matches Ok(Discovery::Static(addrs)) && addrs@ == (
            match config.static_backend {
                Some(s) => s.addrs@,
                None => Seq::empty(),
            }),
            BackendKind::Dns => if text::blank(config.dns->0.name@) {
                r matches Err(e) && e@ == "dns discovery name must not be empty"@
            } else {
                r matches Ok(Discovery::Dns(d)) && d.name@ == config.dns->0.name@ && d.port
                    == config.dns->0.port
            },
            BackendKind::File => r matches Ok(Discovery::File(f)) && f.dir@ == config.file->0.dir@,
            BackendKind::Ec2Asg => r matches Ok(Discovery::Ec2Asg(e)) && e.port
                == config.ec2_asg->0.port && e.timeout == config.ec2_asg->0.timeout && e.region
                is Some == config.ec2_asg->0.region is Some && (e.region is Some ==> e.region->0@
                == config.ec2_asg->0.region->0@) && e.attestor.never_fed() && e.attestor.ttl@
                == ATTESTOR_SNAPSHOT_TTL_SECS * SECOND,
        },
{
    match config.backend {
        BackendKind::Static => Ok(Discovery::Static(config.static_addrs())),
        BackendKind::Dns => {
            let dns = config.dns.as_ref().unwrap();
            match DnsDiscovery::new(dns.name.clone(), dns.port) {
                Ok(d) => Ok(Discovery::Dns(d)),
                Err(e) => Err(e),
            }
        },
        BackendKind::File => {
            let file = config.file.as_ref().unwrap();
            Ok(Discovery::File(FileDiscovery::new(file.dir.clone())))
        },
        BackendKind::Ec2Asg => {
            let e = config.ec2_asg.as_ref().unwrap();
            let region = match &e.region {
                Some(region) => Some(region.clone()),
                None => None,
            };
            Ok(Discovery::Ec2Asg(Ec2AsgDiscovery::new(e.port, region, e.timeout)))
        },
    }
}

impl Discovery {
    /// Whether this backend can attest that someone is gone. Only group
    /// membership can; a stale registration or an unedited list says nothing.
    pub fn attests_liveness(&self) -> (r: bool)
        ensures
            r == (self is Ec2Asg),
    {
        match self {
            Discovery::Ec2Asg(_) => true,
            _ => false,
        }
    }
}

/// A section makes the backend it names, with the table it names, and a blank
/// name is the only refusal.
pub proof fn a_section_makes_the_backend_it_names(
    config: DiscoveryConfig,
    r: Result<Discovery, String>,
)
    requires
        call_ensures(build, (&config,), r),
    ensures
        r is Err <==> config.backend == BackendKind::Dns && forall|i: int|
            0 <= i < config.dns->0.name@.len() ==> text::white(#[trigger] config.dns->0.name@[i]),
        r is Ok ==> (config.backend == BackendKind::Static <==> r->Ok_0 is Static),
        r is Ok ==> (config.backend == BackendKind::Dns <==> r->Ok_0 is Dns),
        r is Ok ==> (config.backend == BackendKind::File <==> r->Ok_0 is File),
        r is Ok ==> (config.backend == BackendKind::Ec2Asg <==> r->Ok_0 is Ec2Asg),
        r matches Ok(Discovery::Ec2Asg(e)) ==> e.attestor.ttl@ == 30_000_000_000 && e.port
            == config.ec2_asg->0.port && e.timeout == config.ec2_asg->0.timeout,
        r matches Ok(Discovery::Static(addrs)) ==> (config.static_backend is Some ==> addrs@
            == config.static_backend->0.addrs@) && (config.static_backend is None ==> addrs@.len()
            == 0),
{
}

/// Group membership alone attests that someone is gone.
pub proof fn only_the_group_knows_who_is_gone(d: Discovery, r: bool)
    requires
        call_ensures(Discovery::attests_liveness, (&d,), r),
    ensures
        d is Ec2Asg ==> r,
        d is Static || d is Dns || d is File ==> !r,
{
}

} // verus!
