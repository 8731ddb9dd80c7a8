//! Device identity and per-device discovered state, with the rule that
//! applies a command-result document to the state.

use vstd::prelude::*;

use crate::ip::extract_ip;
use crate::ip::extracted_ip;
use crate::ip::IpAddress;
use crate::strings::push_char;

verus! {

/// A device on the bus, named by its stable hostname.
#[derive(Debug, Eq, PartialEq, Clone, Hash)]
pub struct Device {
    pub hostname: String,
}

impl View for Device {
    type V = Seq<char>;

    open spec fn view(&self) -> Seq<char> {
        self.hostname@
    }
}

impl Device {
    /// The canonical outgoing topic `{prefix}/{hostname}/{command}`.
    pub fn get_topic(&self, prefix: &str, command: &str) -> (r: String)
        ensures
            r@ == prefix@ + seq!['/'] + self.hostname@ + seq!['/'] + command@,
    {
        let mut out = String::from_str(prefix);
        push_char(&mut out, '/');
        out.append(self.hostname.as_str());
        push_char(&mut out, '/');
        out.append(command);
        assert(out@ =~= prefix@ + seq!['/'] + self.hostname@ + seq!['/'] + command@);
        out
    }
}

/// The mathematical value of a device's discovered state.
#[verifier::ext_equal]
pub struct DeviceStateView {
    pub name: Seq<char>,
    pub ip: Option<IpAddress>,
}

/// The state a device starts in when first observed: both fields empty.
pub open spec fn fresh_state() -> DeviceStateView {
    DeviceStateView { name: Seq::empty(), ip: None }
}

/// What discovery has learned about one device: an optional display name
/// (empty when unknown) and its current address.
#[derive(Clone, Debug)]
pub struct DeviceState {
    name: String,
    pub ip: Option<IpAddress>,
}

impl View for DeviceState {
    type V = DeviceStateView;

    closed spec fn view(&self) -> DeviceStateView {
        DeviceStateView { name: self.name@, ip: self.ip }
    }
}

impl Default for DeviceState {
    fn default() -> (r: Self)
        ensures
            r@ == fresh_state(),
    {
        let r = DeviceState { name: String::new(), ip: None };
        assert(r@ =~= fresh_state());
        r
    }
}

/// The two fields of a command-result document that discovery reads: the
/// display name and the address value, each absent when the document does not
/// carry it.
#[derive(Clone, Debug)]
pub struct ResultDocument {
    pub device_name: Option<String>,
    pub ip_field: Option<String>,
}

/// The mathematical value of a command-result document.
#[verifier::ext_equal]
pub struct ResultDocumentView {
    pub device_name: Option<Seq<char>>,
    pub ip_field: Option<Seq<char>>,
}

impl View for ResultDocument {
    type V = ResultDocumentView;

    open spec fn view(&self) -> ResultDocumentView {
        ResultDocumentView {
            device_name: match self.device_name {
                Some(n) => Some(n@),
                None => None,
            },
            ip_field: match self.ip_field {
                Some(t) => Some(t@),
                None => None,
            },
        }
    }
}

/// How a result document changes a device's state: the name is overwritten
/// only by a non-empty supplied name, the address only by a supplied value
/// whose token parses as an address; everything else is left untouched.
pub open spec fn update_model(s: DeviceStateView, d: ResultDocumentView) -> DeviceStateView {
    let name = match d.device_name {
        Some(n) => if n.len() > 0 {
            n
        } else {
            s.name
        },
        None => s.name,
    };
    let ip = match d.ip_field {
        Some(t) => match extracted_ip(t) {
            Some(addr) => Some(addr),
            None => s.ip,
        },
        None => s.ip,
    };
    DeviceStateView { name, ip }
}

impl DeviceState {
    /// Applies a result document to this state, per `update_model`.
    pub fn update(&mut self, doc: &ResultDocument)
        ensures
            final(self)@ == update_model(old(self)@, doc@),
    {
        match &doc.device_name {
            Some(n) => {
                if !n.as_str().is_empty() {
                    self.name = n.clone();
                }
            },
            None => {},
        }
        match &doc.ip_field {
            Some(t) => {
                match extract_ip(t.as_str()) {
                    Some(addr) => {
                        self.ip = Some(addr);
                    },
                    None => {},
                }
            },
            None => {},
        }
        assert(self@ =~= update_model(old(self)@, doc@));
    }

    /// The recorded address, if discovery has resolved one.
    pub fn ip(&self) -> (r: Option<IpAddress>)
        ensures
            r == self@.ip,
    {
        self.ip
    }

    /// The recorded display name; empty while none has been reported.
    pub fn name(&self) -> (r: &String)
        ensures
            r@ == self@.name,
    {
        &self.name
    }
}

/// The two fields a command-result payload carries, when it parses as a
/// document at all; what each field holds depends on the payload text alone.
pub uninterp spec fn result_document_of(payload: Seq<char>) -> Option<ResultDocumentView>;

/// Relies on `json::parse` and `JsonValue` member access: a payload that is
/// well-formed JSON yields a document whose `DeviceName` field is that
/// member's text when the member is a string, and whose `IPAddress1` field is
/// that member's display text when the member is non-empty; any other payload
/// yields nothing.
#[verifier::external_body]
pub(crate) fn parse_result_document(payload: &str) -> (r: Option<ResultDocument>)
    ensures
        r is Some <==> result_document_of(payload@) is Some,
        r matches Some(d) ==> result_document_of(payload@) matches Some(m) && d@ == m,
{
    match json::parse(payload) {
        Ok(doc) => {
            let device_name = doc["DeviceName"].as_str().map(|s| s.to_string());
            let ip_field = if doc["IPAddress1"].is_empty() {
                None
            } else {
                Some(doc["IPAddress1"].to_string())
            };
            Some(ResultDocument { device_name, ip_field })
        },
        Err(_) => None,
    }
}

/// Applying the same result document twice leaves the same state as applying
/// it once.
pub proof fn lemma_update_idempotent(s: DeviceStateView, d: ResultDocumentView)
    ensures
        update_model(update_model(s, d), d) == update_model(s, d),
{
    assert(update_model(update_model(s, d), d) =~= update_model(s, d));
}

/// A document without a name leaves the name untouched, one without an
/// address value leaves the address untouched, and one with neither leaves
/// the whole state untouched.
pub proof fn lemma_update_partial(s: DeviceStateView, d: ResultDocumentView)
    ensures
        d.device_name is None ==> update_model(s, d).name == s.name,
        d.ip_field is None ==> update_model(s, d).ip == s.ip,
        d.device_name is None && d.ip_field is None ==> update_model(s, d) == s,
{
    if d.device_name is None && d.ip_field is None {
        assert(update_model(s, d) =~= s);
    }
}

} // verus!
