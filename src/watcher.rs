//! Rebinding of the uplink when a controller domain name resolves elsewhere.
use vstd::prelude::*;

verus! {

/// Seconds between two resolutions of the controller domain names.
pub const INTERVAL: u64 = 5;

/// Whether a resolution of a domain name moves its position to a new
/// address: it resolved to at least one address, none of which is the
/// current one.
pub open spec fn moved(current: Seq<char>, resolved: Option<Seq<Seq<char>>>) -> bool {
    match resolved {
        Some(addrs) => addrs.len() > 0 && !addrs.contains(current),
        None => false,
    }
}

/// The address a position holds after a resolution.
pub open spec fn next_ip(current: Seq<char>, resolved: Option<Seq<Seq<char>>>) -> Seq<char> {
    if moved(current, resolved) {
        resolved->0[0]
    } else {
        current
    }
}

/// What a resolution result holds: its addresses, or nothing when the
/// lookup failed.
pub open spec fn resolved_view(r: Option<Vec<String>>) -> Option<Seq<Seq<char>>> {
    match r {
        Some(v) => Some(v.deep_view()),
        None => None,
    }
}

/// Whether `s` is one of the strings in `v`.
pub fn contains_string(v: &Vec<String>, s: &String) -> (r: bool)
    ensures
        r == v.deep_view().contains(s@),
{
    let mut i: usize = 0;
    while i < v.len()
        invariant
            i <= v.len(),
            forall|k: int| 0 <= k < i ==> v@[k]@ != s@,
        decreases v.len() - i,
    {
        if v[i] == *s {
            proof {
                assert(v.deep_view()[i as int] == s@);
            }
            return true;
        }
        i = i + 1;
    }
    proof {
        if v.deep_view().contains(s@) {
            let k = choose|k: int| 0 <= k < v.deep_view().len() && v.deep_view()[k] == s@;
            assert(v@[k]@ == s@);
        }
    }
    false
}

/// Watches the controller domain names and rebinds the uplink when one of
/// them resolves elsewhere.
#[derive(Clone, Debug)]
pub struct DomainNameListener {
    ips: Vec<String>,
    domain_names: Vec<String>,
    running: bool,
}

impl DomainNameListener {
    pub closed spec fn ips_view(&self) -> Seq<Seq<char>> {
        self.ips.deep_view()
    }

    pub closed spec fn domains_view(&self) -> Seq<Seq<char>> {
        self.domain_names.deep_view()
    }

    pub closed spec fn is_running(&self) -> bool {
        self.running
    }

    /// Every domain name has a current address.
    pub open spec fn wf(&self) -> bool {
        self.domains_view().len() <= self.ips_view().len()
    }

    /// A stopped watcher over `domain_names`, whose addresses start as the
    /// positionally matching `ips`.
    pub fn new(domain_names: Vec<String>, ips: Vec<String>) -> (r: Option<DomainNameListener>)
        ensures
            r is Some <==> domain_names@.len() <= ips@.len(),
            r matches Some(l) ==> {
                &&& l.wf()
                &&& l.domains_view() == domain_names.deep_view()
                &&& l.ips_view() == ips.deep_view()
                &&& !l.is_running()
            },
    {
        if domain_names.len() > ips.len() {
            return None;
        }
        Some(DomainNameListener { ips, domain_names, running: false })
    }

    /// The current controller addresses.
    pub fn ips(&self) -> (r: &Vec<String>)
        ensures
            r.deep_view() == self.ips_view(),
    {
        &self.ips
    }

    /// The watched domain names.
    pub fn domain_names(&self) -> (r: &Vec<String>)
        ensures
            r.deep_view() == self.domains_view(),
    {
        &self.domain_names
    }

    /// Starts the watcher. Returns whether a watcher thread is to be
    /// spawned: not when one already runs, nor when there is no domain name
    /// to watch.
    pub fn start(&mut self) -> (spawn: bool)
        ensures
            spawn == (!old(self).is_running() && old(self).domains_view().len() > 0),
            final(self).is_running() == (old(self).is_running() || spawn),
            final(self).ips_view() == old(self).ips_view(),
            final(self).domains_view() == old(self).domains_view(),
    {
        if self.running || self.domain_names.len() == 0 {
            return false;
        }
        self.running = true;
        true
    }

    /// Stops the watcher. Returns whether a running thread is to be
    /// signalled and joined.
    pub fn stop(&mut self) -> (join: bool)
        ensures
            join == old(self).is_running(),
            !final(self).is_running(),
            final(self).ips_view() == old(self).ips_view(),
            final(self).domains_view() == old(self).domains_view(),
    {
        let join = self.running;
        self.running = false;
        join
    }

    /// Takes one round of resolutions, `resolved[i]` for domain name `i`
    /// (`None` when its lookup failed), and moves each position whose
    /// current address is not among the resolved ones to the first of them.
    /// Returns the new address list when any position moved: the session,
    /// the stats remotes and the log sink are then to be rebound to it.
    pub fn run(&mut self, resolved: &Vec<Option<Vec<String>>>) -> (r: Option<Vec<String>>)
        requires
            old(self).wf(),
            resolved@.len() == old(self).domains_view().len(),
        ensures
            final(self).wf(),
            final(self).domains_view() == old(self).domains_view(),
            final(self).is_running() == old(self).is_running(),
            final(self).ips_view().len() == old(self).ips_view().len(),
            forall|i: int| 0 <= i < resolved@.len() ==> #[trigger] final(self).ips_view()[i] == next_ip(
                old(self).ips_view()[i],
                resolved_view(resolved@[i]),
            ),
            forall|i: int| resolved@.len() <= i < old(self).ips_view().len() ==> #[trigger] final(self).ips_view()[i]
                == old(self).ips_view()[i],
            r is Some <==> exists|i: int| 0 <= i < resolved@.len() && moved(
                #[trigger] old(self).ips_view()[i],
                resolved_view(resolved@[i]),
            ),
            r matches Some(v) ==> v.deep_view() == final(self).ips_view(),
    {
        let ghost old_ips = self.ips.deep_view();
        let mut changed = false;
        let mut i: usize = 0;
        while i < resolved.len()
            invariant
                i <= resolved@.len(),
                resolved@.len() <= old_ips.len(),
                self.ips.deep_view().len() == old_ips.len(),
                self.domain_names == old(self).domain_names,
                self.running == old(self).running,
                old(self).domain_names.deep_view().len() == resolved@.len(),
                forall|k: int| 0 <= k < i ==> #[trigger] self.ips.deep_view()[k] == next_ip(old_ips[k], resolved_view(resolved@[k])),
                forall|k: int| i <= k < old_ips.len() ==> #[trigger] self.ips.deep_view()[k] == old_ips[k],
                changed <==> exists|k: int| 0 <= k < i && moved(#[trigger] old_ips[k], resolved_view(resolved@[k])),
            decreases resolved@.len() - i,
        {
            proof {
                assert(self.ips.deep_view()[i as int] == old_ips[i as int]);
                assert(self.ips@[i as int]@ == self.ips.deep_view()[i as int]);
            }
            match &resolved[i] {
                Some(addrs) => {
                    proof {
                        assert(resolved_view(resolved@[i as int]) == Some(addrs.deep_view()));
                    }
                    if addrs.len() > 0 && !contains_string(addrs, &self.ips[i]) {
                        let first = addrs[0].clone();
                        let ghost before = self.ips.deep_view();
                        self.ips.set(i, first);
                        proof {
                            assert(self.ips.deep_view() =~= before.update(i as int, addrs.deep_view()[0]));
                        }
                        changed = true;
                    }
                },
                None => {},
            }
            proof {
                assert(self.ips.deep_view()[i as int] == next_ip(old_ips[i as int], resolved_view(resolved@[i as int])));
            }
            i = i + 1;
        }
        if changed {
            let ips = self.ips.clone();
            proof {
                assert(ips.deep_view() =~= self.ips.deep_view());
            }
            Some(ips)
        } else {
            None
        }
    }
}

} // verus!
