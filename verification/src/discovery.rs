//! The discovery engine's decision logic: what one inbound bus message does
//! to the device-state store, and what the caller must do next. The caller
//! owns the bus session; it polls messages in order, hands each one here, and
//! performs the returned action.

use vstd::prelude::*;

use crate::devices::fresh_state;
use crate::devices::parse_result_document;
use crate::devices::result_document_of;
use crate::devices::update_model;
use crate::devices::Device;
use crate::devices::DeviceStateView;
use crate::devices::ResultDocumentView;
use crate::ip::extract_ip;
use crate::ip::extracted_ip;
use crate::store::store_contents;
use crate::store::DeviceStates;
use crate::strings::str_eq;
use crate::topic::parse_topic_view;
use crate::topic::Topic;
use crate::topic::TopicView;

verus! {

/// Seconds a newly online device is given to finish booting before it is
/// queried.
pub const DISCOVERY_GRACE_SECS: u64 = 5;

/// Seconds between the end of one bus session and the next connection
/// attempt.
pub const RECONNECT_PAUSE_SECS: u64 = 1;

/// What the message handler asks its caller to do next. Failures the
/// handler contains are named here so the caller can log them: a payload
/// that is no document, and an address value whose token did not parse.
pub enum DiscoveryAction {
    /// The device came online: after the grace period, publish its two query
    /// commands (see `query_topics`), without blocking the message loop.
    Query(Device),
    /// The device went offline; its state has been removed.
    Removed(Device),
    /// A result document has been applied to the device's state.
    /// `malformed_ip` notes that the document supplied an address value
    /// whose token did not parse; that field was left untouched.
    Updated { device: Device, malformed_ip: bool },
    /// A result payload that did not parse as a document; the message was
    /// skipped and no state changed.
    Unparseable(Device),
    /// The message asked for nothing.
    Ignored,
}

/// The state a known device keeps, or a fresh one for a device seen for the
/// first time.
pub open spec fn stored_or_fresh(
    m: Map<Seq<char>, DeviceStateView>,
    host: Seq<char>,
) -> DeviceStateView {
    if m.contains_key(host) {
        m[host]
    } else {
        fresh_state()
    }
}

/// Handles one inbound message: an `Online` last will asks for a delayed
/// query and touches nothing, an `Offline` last will removes the device's
/// state at once, a parseable result document is applied to the device's
/// (possibly fresh) state, and every other message is ignored.
pub fn handle_message(states: &mut DeviceStates, topic: &str, payload: &str) -> (r:
    DiscoveryAction)
    ensures
        ({
            let m0 = store_contents(*old(states));
            let m1 = store_contents(*final(states));
            match parse_topic_view(topic@) {
                TopicView::Lwt { host } => {
                    if payload@ == "Online"@ {
                        &&& m1 == m0
                        &&& r matches DiscoveryAction::Query(d) && d@ == host
                    } else if payload@ == "Offline"@ {
                        &&& m1 == m0.remove(host)
                        &&& r matches DiscoveryAction::Removed(d) && d@ == host
                    } else {
                        m1 == m0 && r is Ignored
                    }
                },
                TopicView::CommandResult { host } => {
                    match result_document_of(payload@) {
                        Some(doc) => {
                            &&& m1 == m0.insert(host, update_model(stored_or_fresh(m0, host), doc))
                            &&& r matches DiscoveryAction::Updated { device, malformed_ip }
                                && device@ == host && malformed_ip == (match doc.ip_field {
                                Some(t) => extracted_ip(t) is None,
                                None => false,
                            })
                        },
                        None => m1 == m0 && (r matches DiscoveryAction::Unparseable(d) && d@
                            == host),
                    }
                },
                _ => m1 == m0 && r is Ignored,
            }
        }),
{
    let parsed = Topic::from(topic);
    match parsed {
        Topic::LWT(device) => {
            if str_eq(payload, "Online") {
                DiscoveryAction::Query(device)
            } else if str_eq(payload, "Offline") {
                states.remove(device.hostname.as_str());
                DiscoveryAction::Removed(device)
            } else {
                DiscoveryAction::Ignored
            }
        },
        Topic::Result(device) => {
            match parse_result_document(payload) {
                Some(doc) => {
                    let ghost m0 = store_contents(*states);
                    let malformed_ip = match &doc.ip_field {
                        Some(t) => extract_ip(t.as_str()).is_none(),
                        None => false,
                    };
                    let mut st = states.entry_or_default(device.hostname.as_str());
                    st.update(&doc);
                    states.insert(device.hostname.as_str(), st);
                    proof {
                        let host = device.hostname@;
                        let v = update_model(stored_or_fresh(m0, host), doc@);
                        if !m0.contains_key(host) {
                            assert(m0.insert(host, fresh_state()).insert(host, v) =~= m0.insert(
                                host,
                                v,
                            ));
                        }
                    }
                    DiscoveryAction::Updated { device, malformed_ip }
                },
                None => DiscoveryAction::Unparseable(device),
            }
        },
        _ => DiscoveryAction::Ignored,
    }
}

/// Handling the same result document for the same device twice leaves the
/// same store contents as handling it once.
pub proof fn lemma_result_update_idempotent(
    m: Map<Seq<char>, DeviceStateView>,
    host: Seq<char>,
    doc: ResultDocumentView,
)
    ensures
        ({
            let once = m.insert(host, update_model(stored_or_fresh(m, host), doc));
            once.insert(host, update_model(stored_or_fresh(once, host), doc)) == once
        }),
{
    let once = m.insert(host, update_model(stored_or_fresh(m, host), doc));
    crate::devices::lemma_update_idempotent(stored_or_fresh(m, host), doc);
    assert(once.insert(host, update_model(stored_or_fresh(once, host), doc)) =~= once);
}

/// The two wildcard subscriptions discovery opens on every session: last-will
/// announcements and command results for any hostname.
pub fn subscription_topics() -> (r: (String, String))
    ensures
        r.0@ == "tele/+/LWT"@,
        r.1@ == "stat/+/RESULT"@,
{
    (String::from_str("tele/+/LWT"), String::from_str("stat/+/RESULT"))
}

/// The two command topics a newly online device is queried on: first its
/// address, then its display name.
pub fn query_topics(device: &Device) -> (r: (String, String))
    ensures
        r.0@ == "cmnd"@ + seq!['/'] + device@ + seq!['/'] + "IPADDRESS"@,
        r.1@ == "cmnd"@ + seq!['/'] + device@ + seq!['/'] + "DeviceName"@,
{
    (device.get_topic("cmnd", "IPADDRESS"), device.get_topic("cmnd", "DeviceName"))
}

} // verus!
