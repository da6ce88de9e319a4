//! The MQTT feed of a company: which topic carries what, how incoming
//! publications become unsolicited messages, and the decisions of the
//! backend that relays them.
use vstd::prelude::*;
use crate::codec::remote_control::response::Response as RemoteControlResponse;
use crate::codec::report::{Report, ReportParseError};
use crate::text::{decimal, lemma_decimal_injective, is_prefix_of, push_char, push_decimal, push_str, starts_with};

verus! {

/// A command for the backend: publish `data` on `topic`.
#[derive(Debug)]
pub enum Command {
    Publish { topic: String, data: Vec<u8> },
}

/// A publication that could not be read, by its payload.
#[derive(Debug, Clone)]
pub enum BadFormat {
    Report(Vec<u8>),
    RemoteControl(Vec<u8>),
}

/// What the feed hands to its listeners.
#[derive(Debug, Clone)]
pub enum Unsolicited {
    Connect,
    Disconnect,
    Report(Report),
    RemoteControl(RemoteControlResponse),
    BadFormat(BadFormat),
}

/// An event of the MQTT connection, as far as the feed looks at it.
#[derive(Debug)]
pub enum MqttEvent {
    /// A publication received on `topic`.
    Publish { topic: String, payload: Vec<u8> },
    /// The broker accepted the connection.
    ConnAck,
    /// The broker closed the connection.
    Disconnect,
    /// Anything else.
    Other,
}

/// What to do with an event.
#[derive(Debug)]
pub enum Incoming {
    /// Hand this message to the listeners.
    Deliver(Unsolicited),
    /// Read these bytes as a report, then hand on the outcome
    /// ([`report_unsolicited`]).
    ParseReport(Vec<u8>),
    /// Read these bytes as a remote control response, then hand on the
    /// outcome ([`remote_control_unsolicited`]).
    ParseRemoteControl(Vec<u8>),
    /// A publication on a topic the feed does not know; nothing is handed
    /// on.
    UnknownTopic(String),
    /// Nothing to hand on.
    Skip,
}

/// `/applink/{company}{suffix}`.
pub open spec fn applink_topic(company: Seq<char>, suffix: Seq<char>) -> Seq<char> {
    "/applink/"@ + company + suffix
}

/// Writes `/applink/{company}{suffix}`.
pub fn make_applink_topic(company: &str, suffix: &str) -> (r: String)
    ensures
        r@ == applink_topic(company@, suffix@),
{
    let mut s = String::new();
    push_str(&mut s, "/applink/");
    push_str(&mut s, company);
    push_str(&mut s, suffix);
    s
}

/// The topic filter the feed subscribes to: `/applink/{company}/#`.
pub open spec fn subscription_spec(company: Seq<char>) -> Seq<char> {
    applink_topic(company, "/#"@)
}

/// The topic filter that covers everything of a company.
pub fn subscription(company: &str) -> (r: String)
    ensures
        r@ == subscription_spec(company@),
{
    make_applink_topic(company, "/#")
}

/// Where reports come: `/applink/{company}/report`.
pub open spec fn report_topic(company: Seq<char>) -> Seq<char> {
    applink_topic(company, "/report"@)
}

/// Where remote control responses come:
/// `/applink/{company}/remotectrl/response/`.
pub open spec fn remote_control_response_topic(company: Seq<char>) -> Seq<char> {
    applink_topic(company, "/remotectrl/response/"@)
}

/// What the feed does with an event: a publication whose topic starts
/// with the report topic is read as a report, one whose topic starts with
/// the remote control response topic as a response, any other publication
/// is of an unknown topic; a connection and a disconnection are handed on,
/// anything else is skipped.
pub open spec fn route_spec(company: Seq<char>, event: MqttEvent) -> Incoming {
    match event {
        MqttEvent::Publish { topic, payload } => if is_prefix_of(report_topic(company), topic@) {
            Incoming::ParseReport(payload)
        } else if is_prefix_of(remote_control_response_topic(company), topic@) {
            Incoming::ParseRemoteControl(payload)
        } else {
            Incoming::UnknownTopic(topic)
        },
        MqttEvent::ConnAck => Incoming::Deliver(Unsolicited::Connect),
        MqttEvent::Disconnect => Incoming::Deliver(Unsolicited::Disconnect),
        MqttEvent::Other => Incoming::Skip,
    }
}

/// A publication on `/applink/{company}/report...` is read as a report, one
/// on `/applink/{company}/remotectrl/response/...` as a remote control
/// response.
pub proof fn lemma_route_topics(company: Seq<char>, rest: Seq<char>, topic: String, payload: Vec<u8>)
    ensures
        topic@ == "/applink/"@ + company + "/report"@ + rest ==> route_spec(
            company,
            (MqttEvent::Publish { topic, payload }),
        ) == Incoming::ParseReport(payload),
        topic@ == "/applink/"@ + company + "/remotectrl/response/"@ + rest ==> route_spec(
            company,
            (MqttEvent::Publish { topic, payload }),
        ) == Incoming::ParseRemoteControl(payload),
{
    let p = "/applink/"@ + company;
    if topic@ == p + "/report"@ + rest {
        assert(topic@.subrange(0, (p + "/report"@).len() as int) =~= p + "/report"@);
    }
    if topic@ == p + "/remotectrl/response/"@ + rest {
        let q = p + "/remotectrl/response/"@;
        assert(topic@.subrange(0, q.len() as int) =~= q);
        reveal_strlit("/report");
        reveal_strlit("/remotectrl/response/");
        assert(topic@[p.len() + 1int] == 'r');
        assert(topic@[p.len() + 2int] == 'e');
        assert(topic@[p.len() + 3int] == 'm');
        assert(!is_prefix_of(report_topic(company), topic@)) by {
            if is_prefix_of(report_topic(company), topic@) {
                assert(topic@.subrange(0, (p + "/report"@).len() as int)[p.len() + 3int] == 'p');
            }
        }
    }
}

/// Decides what to do with an event of the connection.
pub fn route(company: &str, event: MqttEvent) -> (r: Incoming)
    ensures
        r == route_spec(company@, event),
{
    match event {
        MqttEvent::Publish { topic, payload } => {
            let report = make_applink_topic(company, "/report");
            let response = make_applink_topic(company, "/remotectrl/response/");
            if starts_with(topic.as_str(), report.as_str()) {
                Incoming::ParseReport(payload)
            } else if starts_with(topic.as_str(), response.as_str()) {
                Incoming::ParseRemoteControl(payload)
            } else {
                Incoming::UnknownTopic(topic)
            }
        },
        MqttEvent::ConnAck => Incoming::Deliver(Unsolicited::Connect),
        MqttEvent::Disconnect => Incoming::Deliver(Unsolicited::Disconnect),
        MqttEvent::Other => Incoming::Skip,
    }
}

/// The message for a report payload: the report if it was read, otherwise
/// the payload as a bad format.
pub fn report_unsolicited(parsed: Result<Report, ReportParseError>, data: Vec<u8>) -> (r:
    Unsolicited)
    ensures
        match parsed {
            Ok(report) => r == Unsolicited::Report(report),
            Err(_) => r == Unsolicited::BadFormat(BadFormat::Report(data)),
        },
{
    match parsed {
        Ok(report) => Unsolicited::Report(report),
        Err(_) => Unsolicited::BadFormat(BadFormat::Report(data)),
    }
}

/// The message for a remote control payload: the response if it was read,
/// otherwise the payload as a bad format.
pub fn remote_control_unsolicited<E>(parsed: Result<RemoteControlResponse, E>, data: Vec<u8>) -> (r:
    Unsolicited)
    ensures
        match parsed {
            Ok(resp) => r == Unsolicited::RemoteControl(resp),
            Err(_) => r == Unsolicited::BadFormat(BadFormat::RemoteControl(data)),
        },
{
    match parsed {
        Ok(resp) => Unsolicited::RemoteControl(resp),
        Err(_) => Unsolicited::BadFormat(BadFormat::RemoteControl(data)),
    }
}

/// The remote control response a request waits for: the first one that
/// arrives.
pub fn remote_control_answer(u: Unsolicited) -> (r: Option<RemoteControlResponse>)
    ensures
        match u {
            Unsolicited::RemoteControl(resp) => r == Some(resp),
            _ => r is None,
        },
{
    match u {
        Unsolicited::RemoteControl(resp) => Some(resp),
        _ => None,
    }
}

/// How a step of the backend ended.
#[derive(Debug, Clone, Copy, PartialEq, Eq, Structural)]
pub enum MaintainResult {
    /// Go on with the next step.
    Continue,
    /// Wait to be woken.
    Pending,
    /// A channel is closed: the backend stops.
    Closed,
}

/// What the backend keeps between steps; `U` is the kind of message it
/// hands on.
#[derive(Debug)]
pub struct Backend<U> {
    pub company: String,
    /// A publication that the client could not take yet.
    pub pending_request: Option<(String, Vec<u8>)>,
    /// A message that the listeners could not take yet.
    pub pending_unsolicited: Option<U>,
}

impl<U> Backend<U> {
    /// A backend for a company, with nothing pending.
    pub fn new(company: String) -> (r: Backend<U>)
        ensures
            r.company == company,
            r.pending_request is None,
            r.pending_unsolicited is None,
    {
        Backend { company, pending_request: None, pending_unsolicited: None }
    }

    /// The publication to send next, if one is waiting; it is taken out.
    /// When none is, the next command is to be received.
    pub fn take_pending_request(&mut self) -> (r: Option<(String, Vec<u8>)>)
        ensures
            r == old(self).pending_request,
            final(self).pending_request is None,
            final(self).company == old(self).company,
            final(self).pending_unsolicited == old(self).pending_unsolicited,
    {
        self.pending_request.take()
    }

    /// After a publication was offered to the client: sent, the backend
    /// goes on; refused, it is kept for the next step and the backend
    /// waits.
    pub fn published(&mut self, topic: String, data: Vec<u8>, sent: bool) -> (r: MaintainResult)
        ensures
            final(self).company == old(self).company,
            final(self).pending_unsolicited == old(self).pending_unsolicited,
            sent ==> r == MaintainResult::Continue && final(self).pending_request
                == old(self).pending_request,
            !sent ==> r == MaintainResult::Pending && final(self).pending_request == Some(
                (topic, data),
            ),
    {
        if sent {
            MaintainResult::Continue
        } else {
            self.pending_request = Some((topic, data));
            MaintainResult::Pending
        }
    }

    /// A message that the listeners cannot take yet is kept, and the
    /// backend waits.
    pub fn hold_unsolicited(&mut self, u: U) -> (r: MaintainResult)
        ensures
            r == MaintainResult::Pending,
            final(self).pending_unsolicited == Some(u),
            final(self).company == old(self).company,
            final(self).pending_request == old(self).pending_request,
    {
        self.pending_unsolicited = Some(u);
        MaintainResult::Pending
    }
}

/// How requests are numbered by a client: `{id}-{sn}`, the serial number
/// counting up from 1.
#[derive(Debug, Clone, Copy, PartialEq, Eq, Structural)]
pub struct RequestIds {
    pub id: usize,
    pub request_sn: usize,
}

/// `{id}-{sn}`.
pub open spec fn request_id_spec(id: nat, sn: nat) -> Seq<char> {
    decimal(id) + seq!['-'] + decimal(sn)
}

impl RequestIds {
    /// The numbering of a new client: id 0, no request yet.
    pub fn new() -> (r: RequestIds)
        ensures
            r.id == 0,
            r.request_sn == 0,
    {
        RequestIds { id: 0, request_sn: 0 }
    }

    /// The identifier of the next request: the serial number goes up by
    /// one first.
    pub fn next(&mut self) -> (r: String)
        requires
            old(self).request_sn < usize::MAX,
        ensures
            final(self).id == old(self).id,
            final(self).request_sn == old(self).request_sn + 1,
            r@ == request_id_spec(final(self).id as nat, final(self).request_sn as nat),
    {
        self.request_sn = self.request_sn + 1;
        let mut s = String::new();
        push_decimal(&mut s, self.id as u64);
        push_char(&mut s, '-');
        push_decimal(&mut s, self.request_sn as u64);
        s
    }
}

/// Requests of one client get different identifiers: the identifiers of
/// two different serial numbers differ.
pub proof fn lemma_request_ids_distinct(id: nat, sn1: nat, sn2: nat)
    requires
        sn1 != sn2,
    ensures
        request_id_spec(id, sn1) != request_id_spec(id, sn2),
{
    let p = decimal(id) + seq!['-'];
    assert(request_id_spec(id, sn1) =~= p + decimal(sn1));
    assert(request_id_spec(id, sn2) =~= p + decimal(sn2));
    assert((p + decimal(sn1)).skip(p.len() as int) =~= decimal(sn1));
    assert((p + decimal(sn2)).skip(p.len() as int) =~= decimal(sn2));
    lemma_decimal_injective(sn1, sn2);
}

/// The topic of a remote control request:
/// `/applink/{company}/remotectrl/request/{request_id}`.
pub open spec fn remote_control_request_topic(company: Seq<char>, rid: Seq<char>) -> Seq<char> {
    applink_topic(company, "/remotectrl/request/"@ + rid)
}

/// Writes the topic of a remote control request.
pub fn make_remote_control_request_topic(company: &str, rid: &str) -> (r: String)
    ensures
        r@ == remote_control_request_topic(company@, rid@),
{
    let mut s = make_applink_topic(company, "/remotectrl/request/");
    push_str(&mut s, rid);
    assert(s@ =~= remote_control_request_topic(company@, rid@));
    s
}

} // verus!
