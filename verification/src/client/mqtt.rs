//! The MQTT feed as the client reads it: publications must be UTF-8 text,
//! reports, remote control responses and macro messages come on topics of
//! their own, and requests are numbered per client.
use vstd::prelude::*;
use vstd::utf8::{decode_utf8, valid_utf8};
use crate::client::codec::remote_control::response::{
    Response as RemoteControlResponse, ResponseError as RemoteControlError,
};
use crate::codec::report::{Report, ReportParseError};
use crate::client::codec::wizzi_macro::response::{
    Message as MacroMessage, Response as MacroResponse, ResponseError as MacroError, Status,
};
pub use crate::mqtt::{
    applink_topic, make_applink_topic, remote_control_request_topic,
    remote_control_response_topic, report_topic, subscription, subscription_spec, Backend,
    Command, MaintainResult, MqttEvent,
};
use crate::mqtt::make_remote_control_request_topic;
use crate::text::{lemma_not_prefix, decimal, lemma_decimal_injective, lemma_decimal_no_dash, is_prefix_of, push_char, push_decimal, push_str, starts_with, str_eq, str_from_utf8};

verus! {

/// A publication that could not be read.
#[derive(Debug, Clone)]
pub enum BadFormat {
    /// The payload is not UTF-8.
    Utf8 { topic: String, data: Vec<u8> },
    Report(ReportParseError),
    RemoteControl(RemoteControlError),
    Macro(MacroError),
}

/// What the feed hands to its listeners.
#[derive(Debug, Clone)]
pub enum Unsolicited {
    Connect,
    Disconnect,
    Report(Report),
    RemoteControl(RemoteControlResponse),
    Macro(MacroResponse),
    BadFormat(BadFormat),
}

/// What to do with an event.
#[derive(Debug)]
pub enum Incoming {
    /// Hand this message to the listeners.
    Deliver(Unsolicited),
    /// Read this text as a report ([`report_unsolicited`]).
    ParseReport(String),
    /// Read this text as a remote control response
    /// ([`remote_control_unsolicited`]).
    ParseRemoteControl(String),
    /// Read this text as a macro message ([`macro_unsolicited`]).
    ParseMacro(String),
    /// A publication on a topic the feed does not know; nothing is handed
    /// on.
    UnknownTopic(String),
    /// Nothing to hand on.
    Skip,
}

/// Where macro messages come: `/applink/{company}/macro/response/`.
pub open spec fn macro_response_topic(company: Seq<char>) -> Seq<char> {
    applink_topic(company, "/macro/response/"@)
}

/// Where the remote control requests of all clients pass:
/// `/applink/{company}/remotectrl/request/`.
pub open spec fn remote_control_requests_topic(company: Seq<char>) -> Seq<char> {
    applink_topic(company, "/remotectrl/request/"@)
}

/// Where the macro requests of all clients pass:
/// `/applink/{company}/macro/request/`.
pub open spec fn macro_requests_topic(company: Seq<char>) -> Seq<char> {
    applink_topic(company, "/macro/request/"@)
}

/// What the feed does with an event: a publication that is not UTF-8 is a
/// bad format; otherwise its text goes by the first topic its topic starts
/// with: reports, then remote control responses, then macro messages are
/// read, requests are skipped, and any other topic is unknown. A
/// connection and a disconnection are handed on, anything else is skipped.
pub open spec fn route_spec(company: Seq<char>, event: MqttEvent, r: Incoming) -> bool {
    match event {
        MqttEvent::Publish { topic, payload } => if !valid_utf8(payload@) {
            r == Incoming::Deliver(
                Unsolicited::BadFormat(BadFormat::Utf8 { topic, data: payload }),
            )
        } else {
            let text = decode_utf8(payload@);
            let t = topic@;
            if is_prefix_of(report_topic(company), t) {
                r matches Incoming::ParseReport(s) && s@ == text
            } else if is_prefix_of(remote_control_response_topic(company), t) {
                r matches Incoming::ParseRemoteControl(s) && s@ == text
            } else if is_prefix_of(macro_response_topic(company), t) {
                r matches Incoming::ParseMacro(s) && s@ == text
            } else if is_prefix_of(remote_control_requests_topic(company), t) || is_prefix_of(
                macro_requests_topic(company),
                t,
            ) {
                r == Incoming::Skip
            } else {
                r == Incoming::UnknownTopic(topic)
            }
        },
        MqttEvent::ConnAck => r == Incoming::Deliver(Unsolicited::Connect),
        MqttEvent::Disconnect => r == Incoming::Deliver(Unsolicited::Disconnect),
        MqttEvent::Other => r == Incoming::Skip,
    }
}

/// A publication whose payload is UTF-8 text is read by its topic: on
/// `/applink/{company}/report...` as a report, on
/// `.../remotectrl/response/...` as a remote control response, on
/// `.../macro/response/...` as a macro message, and requests on
/// `.../remotectrl/request/...` and `.../macro/request/...` are skipped; a
/// payload that is not UTF-8 is a bad format whatever its topic.
pub proof fn lemma_route_topics(
    company: Seq<char>,
    rest: Seq<char>,
    topic: String,
    payload: Vec<u8>,
    r: Incoming,
)
    requires
        route_spec(company, (MqttEvent::Publish { topic, payload }), r),
    ensures
        !valid_utf8(payload@) ==> r == Incoming::Deliver(
            Unsolicited::BadFormat((BadFormat::Utf8 { topic, data: payload })),
        ),
        valid_utf8(payload@) && topic@ == "/applink/"@ + company + "/report"@ + rest ==> (r matches Incoming::ParseReport(t) && t@ == decode_utf8(payload@)),
        valid_utf8(payload@) && topic@ == "/applink/"@ + company + "/remotectrl/response/"@ + rest ==> (r matches Incoming::ParseRemoteControl(t) && t@ == decode_utf8(payload@)),
        valid_utf8(payload@) && topic@ == "/applink/"@ + company + "/macro/response/"@ + rest ==> (r matches Incoming::ParseMacro(t) && t@ == decode_utf8(payload@)),
        valid_utf8(payload@) && topic@ == "/applink/"@ + company + "/remotectrl/request/"@ + rest ==> r == Incoming::Skip,
        valid_utf8(payload@) && topic@ == "/applink/"@ + company + "/macro/request/"@ + rest ==> r == Incoming::Skip,
{
    reveal_strlit("/applink/");
    reveal_strlit("/report");
    reveal_strlit("/remotectrl/response/");
    reveal_strlit("/remotectrl/request/");
    reveal_strlit("/macro/response/");
    reveal_strlit("/macro/request/");
    let p = "/applink/"@ + company;
    let t = topic@;
    let rep = report_topic(company);
    let rcr = remote_control_response_topic(company);
    let mcr = macro_response_topic(company);
    let rcq = remote_control_requests_topic(company);
    let mcq = macro_requests_topic(company);
    let n = p.len() as int;
    if t == p + "/report"@ + rest {
        assert(t.subrange(0, rep.len() as int) =~= rep);
    }
    if t == p + "/remotectrl/response/"@ + rest {
        assert(t.subrange(0, rcr.len() as int) =~= rcr);
        assert(t[n + 3] == 'm' && rep[n + 3] == 'p');
        lemma_not_prefix(rep, t, n + 3);
    }
    if t == p + "/macro/response/"@ + rest {
        assert(t.subrange(0, mcr.len() as int) =~= mcr);
        assert(t[n + 1] == 'm' && rep[n + 1] == 'r' && rcr[n + 1] == 'r');
        lemma_not_prefix(rep, t, n + 1);
        lemma_not_prefix(rcr, t, n + 1);
    }
    if t == p + "/remotectrl/request/"@ + rest {
        assert(t.subrange(0, rcq.len() as int) =~= rcq);
        assert(t[n + 3] == 'm' && rep[n + 3] == 'p');
        lemma_not_prefix(rep, t, n + 3);
        assert(t[n + 14] == 'q' && rcr[n + 14] == 's');
        lemma_not_prefix(rcr, t, n + 14);
        assert(t[n + 1] == 'r' && mcr[n + 1] == 'm');
        lemma_not_prefix(mcr, t, n + 1);
    }
    if t == p + "/macro/request/"@ + rest {
        assert(t.subrange(0, mcq.len() as int) =~= mcq);
        assert(t[n + 1] == 'm' && rep[n + 1] == 'r' && rcr[n + 1] == 'r');
        lemma_not_prefix(rep, t, n + 1);
        lemma_not_prefix(rcr, t, n + 1);
        assert(t[n + 9] == 'q' && mcr[n + 9] == 's');
        lemma_not_prefix(mcr, t, n + 9);
    }
}

/// Decides what to do with an event of the connection.
pub fn route(company: &str, event: MqttEvent) -> (r: Incoming)
    ensures
        route_spec(company@, event, r),
{
    match event {
        MqttEvent::Publish { topic, payload } => {
            let text = match str_from_utf8(payload.as_slice()) {
                Ok(t) => t.to_string(),
                Err(_) => {
                    return Incoming::Deliver(
                        Unsolicited::BadFormat(BadFormat::Utf8 { topic, data: payload }),
                    );
                },
            };
            let report = make_applink_topic(company, "/report");
            let rc_response = make_applink_topic(company, "/remotectrl/response/");
            let rc_request = make_applink_topic(company, "/remotectrl/request/");
            let macro_request = make_applink_topic(company, "/macro/request/");
            let macro_response = make_applink_topic(company, "/macro/response/");
            let t = topic.as_str();
            if starts_with(t, report.as_str()) {
                Incoming::ParseReport(text)
            } else if starts_with(t, rc_response.as_str()) {
                Incoming::ParseRemoteControl(text)
            } else if starts_with(t, macro_response.as_str()) {
                Incoming::ParseMacro(text)
            } else if starts_with(t, rc_request.as_str()) || starts_with(t, macro_request.as_str()) {
                Incoming::Skip
            } else {
                Incoming::UnknownTopic(topic)
            }
        },
        MqttEvent::ConnAck => Incoming::Deliver(Unsolicited::Connect),
        MqttEvent::Disconnect => Incoming::Deliver(Unsolicited::Disconnect),
        MqttEvent::Other => Incoming::Skip,
    }
}

/// The message for a report text: the report, or why it could not be
/// read.
pub fn report_unsolicited(parsed: Result<Report, ReportParseError>) -> (r: Unsolicited)
    ensures
        match parsed {
            Ok(report) => r == Unsolicited::Report(report),
            Err(e) => r == Unsolicited::BadFormat(BadFormat::Report(e)),
        },
{
    match parsed {
        Ok(report) => Unsolicited::Report(report),
        Err(e) => Unsolicited::BadFormat(BadFormat::Report(e)),
    }
}

/// The message for a remote control text: the response, or why it could
/// not be read.
pub fn remote_control_unsolicited(parsed: Result<RemoteControlResponse, RemoteControlError>) -> (r:
    Unsolicited)
    ensures
        match parsed {
            Ok(resp) => r == Unsolicited::RemoteControl(resp),
            Err(e) => r == Unsolicited::BadFormat(BadFormat::RemoteControl(e)),
        },
{
    match parsed {
        Ok(resp) => Unsolicited::RemoteControl(resp),
        Err(e) => Unsolicited::BadFormat(BadFormat::RemoteControl(e)),
    }
}

/// The message for a macro text: the macro message, or why it could not
/// be read.
pub fn macro_unsolicited(parsed: Result<MacroResponse, MacroError>) -> (r: Unsolicited)
    ensures
        match parsed {
            Ok(resp) => r == Unsolicited::Macro(resp),
            Err(e) => r == Unsolicited::BadFormat(BadFormat::Macro(e)),
        },
{
    match parsed {
        Ok(resp) => Unsolicited::Macro(resp),
        Err(e) => Unsolicited::BadFormat(BadFormat::Macro(e)),
    }
}

/// The answer a remote control request waits for: the first response
/// that carries its request identifier.
pub fn remote_control_answer(u: Unsolicited, rid: &str) -> (r: Option<RemoteControlResponse>)
    ensures
        match u {
            Unsolicited::RemoteControl(resp) => if resp.meta.rid@ == rid@ {
                r == Some(resp)
            } else {
                r is None
            },
            _ => r is None,
        },
{
    match u {
        Unsolicited::RemoteControl(resp) => if str_eq(resp.meta.rid.as_str(), rid) {
            Some(resp)
        } else {
            None
        },
        _ => None,
    }
}

/// What a running macro does with a message of the feed.
#[derive(Debug)]
pub enum MacroAnswer {
    /// Not one of its messages.
    Ignore,
    /// One of its messages; more follow.
    Forward(MacroResponse),
    /// Its last message: the macro ended.
    Last(MacroResponse),
}

/// Whether a macro message ends the macro: its end, or the error that
/// stopped it.
pub open spec fn ends_macro(m: MacroMessage) -> bool {
    ||| m matches MacroMessage::Status { status: Status::End }
    ||| m matches MacroMessage::Status { status: Status::Error { .. } }
}

/// Exactly the status messages other than the start end a macro: its end
/// and every error status; progress and device statuses never do.
pub proof fn lemma_macro_ends(m: MacroMessage)
    ensures
        ends_macro(m) <==> (m is Status && !(m->status is Start)),
{
}

/// Sorts a message of the feed for the macro with request identifier
/// `rid`: its messages are forwarded, and the one that ends it (its end or
/// an error status) comes last.
pub fn macro_answer(u: Unsolicited, rid: &str) -> (r: MacroAnswer)
    ensures
        match u {
            Unsolicited::Macro(resp) => if resp.meta.rid@ != rid@ {
                r is Ignore
            } else if ends_macro(resp.msg) {
                r == MacroAnswer::Last(resp)
            } else {
                r == MacroAnswer::Forward(resp)
            },
            _ => r is Ignore,
        },
{
    match u {
        Unsolicited::Macro(resp) => {
            if !str_eq(resp.meta.rid.as_str(), rid) {
                return MacroAnswer::Ignore;
            }
            let done = match &resp.msg {
                MacroMessage::Status { status: Status::End } => true,
                MacroMessage::Status { status: Status::Error { .. } } => true,
                _ => false,
            };
            if done {
                MacroAnswer::Last(resp)
            } else {
                MacroAnswer::Forward(resp)
            }
        },
        _ => MacroAnswer::Ignore,
    }
}

/// The outcome of a device as written down: success, or an error text.
pub open spec fn outcome_view(o: Result<(), String>) -> Result<(), Seq<char>> {
    match o {
        Ok(()) => Ok(()),
        Err(e) => Err(e@),
    }
}

/// The outcome of each device after a macro's messages, in order: each
/// device status sets the outcome of its device, a later one replacing an
/// earlier one.
pub open spec fn outcomes_map(rs: Seq<MacroResponse>) -> Map<Seq<char>, Result<(), Seq<char>>>
    decreases rs.len(),
{
    if rs.len() == 0 {
        Map::empty()
    } else {
        let m = outcomes_map(rs.drop_last());
        match rs.last().msg {
            MacroMessage::DstatusOk { uid } => m.insert(uid@, Ok(())),
            MacroMessage::DstatusError { uid, err } => m.insert(uid@, Err(err@)),
            _ => m,
        }
    }
}

/// Each device status sets the outcome of its device, replacing any
/// earlier one: success for a device success, the error text for a device
/// error; other messages change no outcome, and before any message no
/// device has one.
pub proof fn lemma_outcomes_step(rs: Seq<MacroResponse>, m: MacroResponse)
    ensures
        outcomes_map(Seq::empty()) == Map::<Seq<char>, Result<(), Seq<char>>>::empty(),
        m.msg matches MacroMessage::DstatusOk { uid } ==> outcomes_map(rs.push(m)) == outcomes_map(
            rs,
        ).insert(uid@, Ok(())),
        m.msg matches MacroMessage::DstatusError { uid, err } ==> outcomes_map(rs.push(m))
            == outcomes_map(rs).insert(uid@, Err(err@)),
        !(m.msg is DstatusOk) && !(m.msg is DstatusError) ==> outcomes_map(rs.push(m))
            == outcomes_map(rs),
{
    assert(rs.push(m).drop_last() =~= rs);
}

/// No device occurs twice among the entries.
pub open spec fn keys_distinct(v: Seq<(String, Result<(), String>)>) -> bool {
    forall|i: int, j: int| 0 <= i < j < v.len() ==> #[trigger] v[i].0@ != #[trigger] v[j].0@
}

/// The entries hold exactly the outcomes of `m`.
pub open spec fn entries_match(
    v: Seq<(String, Result<(), String>)>,
    m: Map<Seq<char>, Result<(), Seq<char>>>,
) -> bool {
    &&& forall|i: int|
        0 <= i < v.len() ==> m.contains_key(#[trigger] v[i].0@) && m[v[i].0@] == outcome_view(
            v[i].1,
        )
    &&& forall|k: Seq<char>|
        #[trigger] m.contains_key(k) ==> exists|i: int| 0 <= i < v.len() && #[trigger] v[i].0@ == k
}

/// Sets the outcome of one device among distinct entries.
fn set_outcome(
    out: &mut Vec<(String, Result<(), String>)>,
    key: String,
    val: Result<(), String>,
    Ghost(m): Ghost<Map<Seq<char>, Result<(), Seq<char>>>>,
)
    requires
        keys_distinct(old(out)@),
        entries_match(old(out)@, m),
    ensures
        keys_distinct(final(out)@),
        entries_match(final(out)@, m.insert(key@, outcome_view(val))),
{
    let ghost v0 = out@;
    let ghost m1 = m.insert(key@, outcome_view(val));
    let mut j: usize = 0;
    while j < out.len()
        invariant
            j <= out@.len(),
            out@ == v0,
            keys_distinct(v0),
            entries_match(v0, m),
            m1 == m.insert(key@, outcome_view(val)),
            forall|t: int| 0 <= t < j ==> #[trigger] v0[t].0@ != key@,
        decreases out@.len() - j,
    {
        if str_eq(out[j].0.as_str(), key.as_str()) {
            let ghost jj = j as int;
            out.set(j, (key, val));
            proof {
                let v1 = out@;
                assert(v1 =~= v0.update(jj, v1[jj]));
                assert forall|i: int, k: int| 0 <= i < k < v1.len() implies #[trigger] v1[i].0@
                    != #[trigger] v1[k].0@ by {
                    assert(v0[i].0@ != v0[k].0@);
                }
                assert forall|i: int| 0 <= i < v1.len() implies m1.contains_key(
                    #[trigger] v1[i].0@,
                ) && m1[v1[i].0@] == outcome_view(v1[i].1) by {
                    if i != jj {
                        assert(v0[i].0@ != v0[jj].0@);
                        assert(m.contains_key(v0[i].0@));
                    }
                }
                assert forall|k: Seq<char>| #[trigger] m1.contains_key(k) implies exists|i: int|
                    0 <= i < v1.len() && #[trigger] v1[i].0@ == k by {
                    if k == key@ {
                        assert(v1[jj].0@ == k);
                    } else {
                        assert(m.contains_key(k));
                        let i = choose|i: int| 0 <= i < v0.len() && #[trigger] v0[i].0@ == k;
                        assert(v1[i].0@ == k);
                    }
                }
            }
            return;
        }
        j = j + 1;
    }
    out.push((key, val));
    proof {
        let v1 = out@;
        let n = v0.len() as int;
        assert(v1 =~= v0.push(v1[n]));
        assert forall|i: int, k: int| 0 <= i < k < v1.len() implies #[trigger] v1[i].0@
            != #[trigger] v1[k].0@ by {
            if k < n {
                assert(v0[i].0@ != v0[k].0@);
            } else {
                assert(v0[i].0@ != key@);
            }
        }
        assert forall|i: int| 0 <= i < v1.len() implies m1.contains_key(#[trigger] v1[i].0@)
            && m1[v1[i].0@] == outcome_view(v1[i].1) by {
            if i < n {
                assert(v0[i].0@ != key@);
                assert(m.contains_key(v0[i].0@));
            }
        }
        assert forall|k: Seq<char>| #[trigger] m1.contains_key(k) implies exists|i: int|
            0 <= i < v1.len() && #[trigger] v1[i].0@ == k by {
            if k == key@ {
                assert(v1[n].0@ == k);
            } else {
                assert(m.contains_key(k));
                let i = choose|i: int| 0 <= i < v0.len() && #[trigger] v0[i].0@ == k;
                assert(v1[i].0@ == k);
            }
        }
    }
}

/// The outcome of each device after a macro (`Client::wizzi_macro`): each
/// device once, with the outcome of its last device status.
pub fn macro_outcomes(responses: &Vec<MacroResponse>) -> (r: Vec<(String, Result<(), String>)>)
    ensures
        keys_distinct(r@),
        entries_match(r@, outcomes_map(responses@)),
{
    let mut out: Vec<(String, Result<(), String>)> = Vec::new();
    let mut i: usize = 0;
    assert(responses@.take(0) =~= Seq::<MacroResponse>::empty());
    while i < responses.len()
        invariant
            i <= responses@.len(),
            keys_distinct(out@),
            entries_match(out@, outcomes_map(responses@.take(i as int))),
        decreases responses@.len() - i,
    {
        let ghost m = outcomes_map(responses@.take(i as int));
        assert(responses@.take(i + 1).drop_last() =~= responses@.take(i as int));
        assert(responses@.take(i + 1).last() == responses@[i as int]);
        match &responses[i].msg {
            MacroMessage::DstatusOk { uid } => {
                set_outcome(&mut out, uid.clone(), Ok(()), Ghost(m));
            },
            MacroMessage::DstatusError { uid, err } => {
                set_outcome(&mut out, uid.clone(), Err(err.clone()), Ghost(m));
            },
            _ => {},
        }
        i = i + 1;
    }
    assert(responses@.take(responses@.len() as int) =~= responses@);
    out
}

/// How requests are numbered by a client: `{root_id}-{id}-{sn}`, where
/// the root is drawn at random for a client and its clones, each clone
/// takes the next id, and the serial number counts up from 1.
#[derive(Debug, Clone, Copy, PartialEq, Eq, Structural)]
pub struct RequestIds {
    pub root_id: usize,
    pub id: usize,
    pub request_sn: usize,
}

/// `{root_id}-{id}-{sn}`.
pub open spec fn request_id_spec(root_id: nat, id: nat, sn: nat) -> Seq<char> {
    decimal(root_id) + seq!['-'] + decimal(id) + seq!['-'] + decimal(sn)
}

impl RequestIds {
    /// The numbering of a new client with the root `root_id`.
    pub fn new(root_id: usize) -> (r: RequestIds)
        ensures
            r.root_id == root_id,
            r.id == 0,
            r.request_sn == 0,
    {
        RequestIds { root_id, id: 0, request_sn: 0 }
    }

    /// The numbering of a clone (`Client::clone`): same root, the next id,
    /// no request yet.
    pub fn for_clone(&self) -> (r: RequestIds)
        requires
            self.id < usize::MAX,
        ensures
            r.root_id == self.root_id,
            r.id == self.id + 1,
            r.request_sn == 0,
    {
        RequestIds { root_id: self.root_id, id: self.id + 1, request_sn: 0 }
    }

    /// The identifier of the next request: the serial number goes up by
    /// one first.
    pub fn next(&mut self) -> (r: String)
        requires
            old(self).request_sn < usize::MAX,
        ensures
            final(self).root_id == old(self).root_id,
            final(self).id == old(self).id,
            final(self).request_sn == old(self).request_sn + 1,
            r@ == request_id_spec(
                final(self).root_id as nat,
                final(self).id as nat,
                final(self).request_sn as nat,
            ),
    {
        self.request_sn = self.request_sn + 1;
        let mut s = String::new();
        push_decimal(&mut s, self.root_id as u64);
        push_char(&mut s, '-');
        push_decimal(&mut s, self.id as u64);
        push_char(&mut s, '-');
        push_decimal(&mut s, self.request_sn as u64);
        s
    }
}

/// Requests of a client and of its clones get different identifiers: with
/// the same root, two different (id, serial number) pairs give different
/// identifiers.
pub proof fn lemma_request_ids_distinct(root_id: nat, id1: nat, sn1: nat, id2: nat, sn2: nat)
    requires
        id1 != id2 || sn1 != sn2,
    ensures
        request_id_spec(root_id, id1, sn1) != request_id_spec(root_id, id2, sn2),
{
    let p = decimal(root_id) + seq!['-'];
    let d1 = decimal(id1);
    let d2 = decimal(id2);
    let a = request_id_spec(root_id, id1, sn1);
    let b = request_id_spec(root_id, id2, sn2);
    assert(a =~= p + d1 + seq!['-'] + decimal(sn1));
    assert(b =~= p + d2 + seq!['-'] + decimal(sn2));
    if a == b {
        lemma_decimal_no_dash(id1);
        lemma_decimal_no_dash(id2);
        if d1.len() < d2.len() {
            assert(a[(p.len() + d1.len()) as int] == '-');
            assert(b[(p.len() + d1.len()) as int] == d2[d1.len() as int]);
        } else if d2.len() < d1.len() {
            assert(b[(p.len() + d2.len()) as int] == '-');
            assert(a[(p.len() + d2.len()) as int] == d1[d2.len() as int]);
        } else {
            assert(a.subrange(p.len() as int, (p.len() + d1.len()) as int) =~= d1);
            assert(b.subrange(p.len() as int, (p.len() + d2.len()) as int) =~= d2);
            lemma_decimal_injective(id1, id2);
            let q = (p.len() + d1.len() + 1) as int;
            assert(a.skip(q) =~= decimal(sn1));
            assert(b.skip(q) =~= decimal(sn2));
            lemma_decimal_injective(sn1, sn2);
        }
    }
}

/// The topic of a macro request: `/applink/{company}/macro/request/{rid}`.
pub open spec fn macro_request_topic(company: Seq<char>, rid: Seq<char>) -> Seq<char> {
    applink_topic(company, "/macro/request/"@ + rid)
}

/// Writes the topic of a remote control request.
pub fn remote_control_topic(company: &str, rid: &str) -> (r: String)
    ensures
        r@ == remote_control_request_topic(company@, rid@),
{
    make_remote_control_request_topic(company, rid)
}

/// Writes the topic of a macro request.
pub fn macro_topic(company: &str, rid: &str) -> (r: String)
    ensures
        r@ == macro_request_topic(company@, rid@),
{
    let mut s = make_applink_topic(company, "/macro/request/");
    push_str(&mut s, rid);
    assert(s@ =~= macro_request_topic(company@, rid@));
    s
}

/// The listeners that took a message, in their order: those for which
/// `delivered` holds.
pub open spec fn kept_listeners<T>(ls: Seq<T>, delivered: Seq<bool>) -> Seq<T>
    decreases ls.len(),
{
    if ls.len() == 0 {
        Seq::empty()
    } else {
        let rest = kept_listeners(ls.drop_last(), delivered.drop_last());
        if delivered.last() {
            rest.push(ls.last())
        } else {
            rest
        }
    }
}

/// Drops the listeners that did not take a message (their channel is
/// closed) and keeps the others in order.
pub fn keep_delivered<T>(listeners: Vec<T>, delivered: &Vec<bool>) -> (r: Vec<T>)
    requires
        listeners@.len() == delivered@.len(),
    ensures
        r@ == kept_listeners(listeners@, delivered@),
{
    let ghost all = listeners@;
    let mut rest = listeners;
    let mut out: Vec<T> = Vec::new();
    let mut i: usize = 0;
    assert(all.skip(0) =~= all);
    assert(all.take(0) =~= Seq::<T>::empty());
    while i < delivered.len()
        invariant
            all.len() == delivered@.len(),
            i <= delivered@.len(),
            rest@ == all.skip(i as int),
            out@ == kept_listeners(all.take(i as int), delivered@.take(i as int)),
        decreases delivered@.len() - i,
    {
        let l = rest.remove(0);
        assert(l == all[i as int]);
        assert(rest@ =~= all.skip(i + 1));
        assert(all.take(i + 1).drop_last() =~= all.take(i as int));
        assert(delivered@.take(i + 1).drop_last() =~= delivered@.take(i as int));
        if delivered[i] {
            out.push(l);
        }
        i = i + 1;
    }
    assert(all.take(all.len() as int) =~= all);
    assert(delivered@.take(delivered@.len() as int) =~= delivered@);
    out
}

/// The error that stopped a macro, by its messages in order: the text of
/// the last error status, if there is one.
pub open spec fn last_macro_error(rs: Seq<MacroResponse>) -> Option<Seq<char>>
    decreases rs.len(),
{
    if rs.len() == 0 {
        None
    } else {
        match rs.last().msg {
            MacroMessage::Status { status: Status::Error { err } } => Some(err@),
            _ => last_macro_error(rs.drop_last()),
        }
    }
}

/// The error of a macro's messages (`Client::raw_wizzi_macro`): the text of
/// the last error status among them, which makes the macro fail with all
/// its messages as the trace.
pub fn macro_error(responses: &Vec<MacroResponse>) -> (r: Option<String>)
    ensures
        match r {
            Some(e) => last_macro_error(responses@) == Some(e@),
            None => last_macro_error(responses@) is None,
        },
{
    let mut err: Option<String> = None;
    let mut i: usize = 0;
    assert(responses@.take(0) =~= Seq::<MacroResponse>::empty());
    while i < responses.len()
        invariant
            i <= responses@.len(),
            match err {
                Some(e) => last_macro_error(responses@.take(i as int)) == Some(e@),
                None => last_macro_error(responses@.take(i as int)) is None,
            },
        decreases responses@.len() - i,
    {
        assert(responses@.take(i + 1).drop_last() =~= responses@.take(i as int));
        assert(responses@.take(i + 1).last() == responses@[i as int]);
        match &responses[i].msg {
            MacroMessage::Status { status: Status::Error { err: e } } => {
                err = Some(e.clone());
            },
            _ => {},
        }
        i = i + 1;
    }
    assert(responses@.take(responses@.len() as int) =~= responses@);
    err
}

} // verus!
