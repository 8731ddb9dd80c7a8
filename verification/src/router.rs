//! The dynamic router's decision: map an inbound request's virtual host to
//! the backend address of the device it names. The decision is verified as
//! an exact function of the two store lookups a request makes; the lookups
//! themselves read the live shared table, so what they observe is fixed only
//! at the moment of each call.

use vstd::prelude::*;

use crate::devices::DeviceState;
use crate::devices::DeviceStateView;
use crate::ip::ip_text;
use crate::ip::IpAddress;
use crate::store::DeviceStatesReader;
use crate::strings::find_char_from;
use crate::strings::find_from;
use crate::strings::push_char;

verus! {

/// The candidate device name of a virtual host: everything before the first
/// `.`, or the whole host when it has none.
pub open spec fn first_label(h: Seq<char>) -> Seq<char> {
    h.subrange(0, find_from(h, 0, '.'))
}

/// A label with every `-` replaced by `_`: virtual-host labels commonly
/// forbid the underscores that device hostnames use.
pub open spec fn normalized(l: Seq<char>) -> Seq<char> {
    Seq::new(l.len(), |i: int| if l[i] == '-' { '_' } else { l[i] })
}

/// The backend address for a device's state: `http://{ip}` when an address
/// is recorded, nothing for a known but not yet resolved device.
pub open spec fn backend_of(st: DeviceStateView) -> Option<Seq<char>> {
    match st.ip {
        Some(addr) => Some("http://"@ + ip_text(addr)),
        None => None,
    }
}

/// The per-request decision over the two observed lookups: the entry under
/// the host's first label when one was found, else the entry under its
/// normalized form; a miss when neither exists or the entry has no address.
pub open spec fn route_decision_model(
    primary: Option<DeviceStateView>,
    fallback: Option<DeviceStateView>,
) -> Option<Seq<char>> {
    match primary {
        Some(st) => backend_of(st),
        None => match fallback {
            Some(st) => backend_of(st),
            None => None,
        },
    }
}

/// Where a request for a virtual host routes against one consistent snapshot
/// of the table.
pub open spec fn route_model(m: Map<Seq<char>, DeviceStateView>, host: Seq<char>) -> Option<
    Seq<char>,
> {
    let label = first_label(host);
    if m.contains_key(label) {
        backend_of(m[label])
    } else if m.contains_key(normalized(label)) {
        backend_of(m[normalized(label)])
    } else {
        None
    }
}

/// The view of an observed lookup result.
pub open spec fn state_view(o: Option<DeviceState>) -> Option<DeviceStateView> {
    match o {
        Some(st) => Some(st@),
        None => None,
    }
}

/// Applied to the two lookups of one consistent snapshot, the per-request
/// decision equals the routing model of that snapshot.
pub proof fn lemma_route_decision_matches_model(m: Map<Seq<char>, DeviceStateView>, host: Seq<char>)
    ensures
        ({
            let label = first_label(host);
            let primary = if m.contains_key(label) {
                Some(m[label])
            } else {
                None
            };
            let fallback = if m.contains_key(normalized(label)) {
                Some(m[normalized(label)])
            } else {
                None
            };
            route_decision_model(primary, fallback) == route_model(m, host)
        }),
{
}

/// Replaces every `-` of a label by `_`.
fn normalize_label(s: &str) -> (r: String)
    ensures
        r@ == normalized(s@),
{
    let n = s.unicode_len();
    let mut out = String::new();
    let mut i: usize = 0;
    while i < n
        invariant
            0 <= i <= n,
            n == s@.len(),
            out@ =~= normalized(s@).subrange(0, i as int),
        decreases n - i,
    {
        let c = s.get_char(i);
        if c == '-' {
            push_char(&mut out, '_');
        } else {
            push_char(&mut out, c);
        }
        assert(out@ =~= normalized(s@).subrange(0, i + 1 as int));
        i = i + 1;
    }
    assert(out@ =~= normalized(s@));
    out
}

/// Decides a request from the two observed lookups, per
/// `route_decision_model`.
pub fn route_decision(primary: Option<DeviceState>, fallback: Option<DeviceState>) -> (r: Option<
    String,
>)
    ensures
        match r {
            Some(addr) => route_decision_model(state_view(primary), state_view(fallback))
                matches Some(b) && addr@ == b,
            None => route_decision_model(state_view(primary), state_view(fallback)) is None,
        },
{
    let chosen = match primary {
        Some(st) => Some(st),
        None => fallback,
    };
    match chosen {
        Some(state) => match state.ip() {
            Some(addr) => {
                let mut out = String::from_str("http://");
                let text = addr.to_text();
                out.append(text.as_str());
                Some(out)
            },
            None => None,
        },
        None => None,
    }
}

/// Resolves a request's virtual host against the live table: looks up the
/// host's first label, then its normalized form, at call time, and decides
/// exactly per `route_decision`. The table is shared with the discovery
/// writer, so the contract states only what holds of every outcome: a
/// success is `http://` followed by a dotted-quad address. A miss is final
/// for this request.
pub fn resolve(states: &DeviceStatesReader, host: &str) -> (r: Option<String>)
    ensures
        r matches Some(addr) ==> exists|ip: IpAddress| addr@ == "http://"@ + ip_text(ip),
{
    let dot = find_char_from(host, 0, '.');
    let label = host.substring_char(0, dot);
    let primary = states.get(label);
    let fallback = match primary {
        Some(_) => None,
        None => {
            let norm = normalize_label(label);
            states.get(norm.as_str())
        },
    };
    let r = route_decision(primary, fallback);
    proof {
        let pv = state_view(primary);
        let fv = state_view(fallback);
        if r is Some {
            let st = if pv is Some {
                pv->0
            } else {
                fv->0
            };
            assert(r->0@ == "http://"@ + ip_text(st.ip->0));
        }
    }
    r
}

} // verus!
