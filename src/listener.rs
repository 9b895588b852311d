//! Fan-out of a hot reconfiguration into the running dispatcher listeners.
use vstd::prelude::*;

use crate::config::{DispatcherConfig, IfMacSource, TapMode, TapType};
use crate::names::{select_links, selected_links, Link};

verus! {

/// A copy of a list of plain values.
pub fn copy_vec<T: Copy>(v: &Vec<T>) -> (r: Vec<T>)
    ensures
        r@ == v@,
{
    let mut r: Vec<T> = Vec::new();
    let mut i: usize = 0;
    while i < v.len()
        invariant
            i <= v.len(),
            r@ == v@.subrange(0, i as int),
        decreases v.len() - i,
    {
        r.push(v[i]);
        proof {
            assert(v@.subrange(0, i + 1) =~= v@.subrange(0, i as int).push(v@[i as int]));
        }
        i = i + 1;
    }
    proof {
        assert(v@.subrange(0, v.len() as int) =~= v@);
    }
    r
}

/// Compares the tap types in use with a new list, by length and then
/// element by element. When they differ, the cache takes the new list and
/// the list to hand to the tap typer is returned; otherwise nothing is.
pub fn parse_tap_type(cur: &mut Vec<TapType>, tap_types: Vec<TapType>) -> (r: Option<Vec<TapType>>)
    ensures
        final(cur)@ == tap_types@,
        r is Some <==> old(cur)@ != tap_types@,
        r matches Some(v) ==> v@ == tap_types@,
{
    let mut updated = false;
    if cur.len() != tap_types.len() {
        updated = true;
    } else {
        let mut i: usize = 0;
        while i < tap_types.len()
            invariant_except_break
                !updated,
            invariant
                cur.len() == tap_types.len(),
                i <= tap_types.len(),
                forall|k: int| 0 <= k < i ==> cur@[k] == tap_types@[k],
            ensures
                !updated ==> forall|k: int| 0 <= k < tap_types.len() ==> cur@[k] == tap_types@[k],
                updated ==> cur@ != tap_types@,
            decreases tap_types.len() - i,
        {
            if cur[i] != tap_types[i] {
                updated = true;
                proof {
                    assert(cur@[i as int] != tap_types@[i as int]);
                }
                break;
            }
            i = i + 1;
        }
        proof {
            if !updated {
                assert(cur@ =~= tap_types@);
            }
        }
    }
    if updated {
        let notify = copy_vec(&tap_types);
        *cur = tap_types;
        Some(notify)
    } else {
        proof {
            assert(cur@ =~= tap_types@);
        }
        *cur = tap_types;
        None
    }
}

/// The tap interfaces pushed to a dispatcher listener.
#[derive(Debug)]
pub struct TapInterfaceUpdate {
    pub interfaces: Vec<Link>,
    pub if_mac_source: IfMacSource,
    pub agent_type: u32,
    pub blacklist: Vec<u64>,
}

/// What one dispatcher listener receives on a hot reconfiguration, before
/// the new dispatcher configuration itself.
#[derive(Debug)]
pub struct ListenerUpdate {
    pub tap_interfaces: Option<TapInterfaceUpdate>,
    pub vm_macs: Option<Vec<u64>>,
}

/// The whole fan-out of a hot reconfiguration.
#[derive(Debug)]
pub struct Fanout {
    /// One update per listener, in listener order.
    pub updates: Vec<ListenerUpdate>,
    /// The tap types to hand to the tap typer, when they changed.
    pub tap_types: Option<Vec<TapType>>,
}

/// The interfaces a listener is given in a capture mode, from the links
/// visible in its namespace.
pub open spec fn interfaces_for(mode: TapMode, regex: Seq<char>, links: Seq<Link>) -> Seq<Link> {
    if mode == TapMode::Local {
        selected_links(regex, links)
    } else {
        Seq::empty()
    }
}

/// The MAC source a listener is given in a capture mode.
pub open spec fn mac_source_for(mode: TapMode, conf: IfMacSource) -> IfMacSource {
    if mode == TapMode::Local {
        conf
    } else {
        IfMacSource::IfMac
    }
}

/// Capture modes that push interfaces and VM MACs to the listeners.
pub open spec fn pushes_interfaces(mode: TapMode) -> bool {
    mode == TapMode::Local || mode == TapMode::Mirror || mode == TapMode::Analyzer
}

/// Routes a hot reconfiguration into the running dispatchers. For listener
/// `i`, `listener_links[i]` holds the links visible in its namespace. In
/// local mode each listener gets the links that the interface pattern
/// selects, with the configured MAC source; in mirror and analyzer modes an
/// empty interface list with MACs taken from the interfaces; then the VM
/// MACs. In analyzer mode the tap types are compared with the cached ones.
/// Other modes push nothing.
pub fn dispatcher_listener_callback(
    conf: &DispatcherConfig,
    tap_mode: TapMode,
    listener_links: &Vec<Vec<Link>>,
    blacklist: &Vec<u64>,
    vm_mac_addrs: &Vec<u64>,
    tap_types: Vec<TapType>,
    cur_tap_types: &mut Vec<TapType>,
) -> (r: Fanout)
    ensures
        r.updates@.len() == listener_links@.len(),
        forall|i: int| 0 <= i < listener_links@.len() ==> {
            let u = #[trigger] r.updates@[i];
            if pushes_interfaces(tap_mode) {
                &&& u.tap_interfaces matches Some(t) && {
                    &&& t.interfaces@ == interfaces_for(tap_mode, conf.tap_interface_regex@, listener_links@[i]@)
                    &&& t.if_mac_source == mac_source_for(tap_mode, conf.if_mac_source)
                    &&& t.agent_type == conf.agent_type
                    &&& t.blacklist@ == blacklist@
                }
                &&& u.vm_macs matches Some(v) && v@ == vm_mac_addrs@
            } else {
                u.tap_interfaces is None && u.vm_macs is None
            }
        },
        tap_mode == TapMode::Analyzer ==> {
            &&& final(cur_tap_types)@ == tap_types@
            &&& r.tap_types is Some <==> old(cur_tap_types)@ != tap_types@
            &&& r.tap_types matches Some(v) ==> v@ == tap_types@
        },
        tap_mode != TapMode::Analyzer ==> final(cur_tap_types)@ == old(cur_tap_types)@ && r.tap_types is None,
{
    let pushes = tap_mode == TapMode::Local || tap_mode == TapMode::Mirror || tap_mode == TapMode::Analyzer;
    let mut updates: Vec<ListenerUpdate> = Vec::new();
    let mut i: usize = 0;
    while i < listener_links.len()
        invariant
            i <= listener_links@.len(),
            pushes == pushes_interfaces(tap_mode),
            updates@.len() == i,
            forall|k: int| 0 <= k < i ==> {
                let u = #[trigger] updates@[k];
                if pushes_interfaces(tap_mode) {
                    &&& u.tap_interfaces matches Some(t) && {
                        &&& t.interfaces@ == interfaces_for(tap_mode, conf.tap_interface_regex@, listener_links@[k]@)
                        &&& t.if_mac_source == mac_source_for(tap_mode, conf.if_mac_source)
                        &&& t.agent_type == conf.agent_type
                        &&& t.blacklist@ == blacklist@
                    }
                    &&& u.vm_macs matches Some(v) && v@ == vm_mac_addrs@
                } else {
                    u.tap_interfaces is None && u.vm_macs is None
                }
            },
        decreases listener_links@.len() - i,
    {
        let update = if pushes {
            let (interfaces, if_mac_source) = if tap_mode == TapMode::Local {
                (select_links(&conf.tap_interface_regex, &listener_links[i]), conf.if_mac_source)
            } else {
                (Vec::new(), IfMacSource::IfMac)
            };
            proof {
                if tap_mode != TapMode::Local {
                    assert(interfaces@ =~= Seq::<Link>::empty());
                }
            }
            ListenerUpdate {
                tap_interfaces: Some(TapInterfaceUpdate {
                    interfaces,
                    if_mac_source,
                    agent_type: conf.agent_type,
                    blacklist: copy_vec(blacklist),
                }),
                vm_macs: Some(copy_vec(vm_mac_addrs)),
            }
        } else {
            ListenerUpdate { tap_interfaces: None, vm_macs: None }
        };
        updates.push(update);
        i = i + 1;
    }
    let changed = if tap_mode == TapMode::Analyzer {
        parse_tap_type(cur_tap_types, tap_types)
    } else {
        None
    };
    Fanout { updates, tap_types: changed }
}

} // verus!
