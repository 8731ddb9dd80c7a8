//! The inbound topic protocol: `{prefix}/{hostname}/{command}`, with four
//! recognized (prefix, command) pairs and a catch-all for everything else.

use vstd::prelude::*;

use crate::devices::Device;
use crate::strings::find_char_from;
use crate::strings::find_from;
use crate::strings::str_eq;

verus! {

/// The parsed meaning of an inbound topic.
#[derive(Debug, Eq, PartialEq)]
pub enum Topic {
    LWT(Device),
    State(Device),
    Sensor(Device),
    Result(Device),
    Other(String),
}

/// The mathematical value of a parsed topic.
#[verifier::ext_equal]
pub enum TopicView {
    Lwt { host: Seq<char> },
    State { host: Seq<char> },
    Sensor { host: Seq<char> },
    CommandResult { host: Seq<char> },
    Other { raw: Seq<char> },
}

impl View for Topic {
    type V = TopicView;

    open spec fn view(&self) -> TopicView {
        match self {
            Topic::LWT(d) => TopicView::Lwt { host: d@ },
            Topic::State(d) => TopicView::State { host: d@ },
            Topic::Sensor(d) => TopicView::Sensor { host: d@ },
            Topic::Result(d) => TopicView::CommandResult { host: d@ },
            Topic::Other(s) => TopicView::Other { raw: s@ },
        }
    }
}

/// How a raw topic parses: it is split on `/` into `prefix`, `hostname` and
/// `command`; with fewer than three segments, or an unrecognized
/// (prefix, command) pair, the whole string is carried unchanged.
pub open spec fn parse_topic_view(s: Seq<char>) -> TopicView {
    let e0 = find_from(s, 0, '/');
    let e1 = find_from(s, e0 + 1, '/');
    let e2 = find_from(s, e1 + 1, '/');
    if e0 == s.len() || e1 == s.len() {
        TopicView::Other { raw: s }
    } else {
        let prefix = s.subrange(0, e0);
        let host = s.subrange(e0 + 1, e1);
        let cmd = s.subrange(e1 + 1, e2);
        if prefix == "tele"@ && cmd == "LWT"@ {
            TopicView::Lwt { host }
        } else if prefix == "tele"@ && cmd == "STATE"@ {
            TopicView::State { host }
        } else if prefix == "tele"@ && cmd == "SENSOR"@ {
            TopicView::Sensor { host }
        } else if prefix == "stat"@ && cmd == "RESULT"@ {
            TopicView::CommandResult { host }
        } else {
            TopicView::Other { raw: s }
        }
    }
}

impl Topic {
    /// Parses a raw topic string; every string parses to some variant.
    pub fn from(raw: &str) -> (r: Topic)
        ensures
            r@ == parse_topic_view(raw@),
    {
        let n = raw.unicode_len();
        let e0 = find_char_from(raw, 0, '/');
        if e0 == n {
            return Topic::Other(String::from_str(raw));
        }
        let e1 = find_char_from(raw, e0 + 1, '/');
        if e1 == n {
            return Topic::Other(String::from_str(raw));
        }
        let e2 = find_char_from(raw, e1 + 1, '/');
        let prefix = raw.substring_char(0, e0);
        let host = raw.substring_char(e0 + 1, e1);
        let cmd = raw.substring_char(e1 + 1, e2);
        let device = Device { hostname: String::from_str(host) };
        if str_eq(prefix, "tele") && str_eq(cmd, "LWT") {
            Topic::LWT(device)
        } else if str_eq(prefix, "tele") && str_eq(cmd, "STATE") {
            Topic::State(device)
        } else if str_eq(prefix, "tele") && str_eq(cmd, "SENSOR") {
            Topic::Sensor(device)
        } else if str_eq(prefix, "stat") && str_eq(cmd, "RESULT") {
            Topic::Result(device)
        } else {
            Topic::Other(String::from_str(raw))
        }
    }
}

} // verus!
