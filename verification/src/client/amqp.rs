//! The AMQP feed: routing keys are split on dots and name what a message
//! carries (`.applink.{company}.report.{site}.{device}` for reports,
//! `.gw.{uid}.md.{modem}` for gateway modem reports).
use vstd::prelude::*;
use vstd::utf8::{decode_utf8, valid_utf8};
use crate::client::codec::remote_control::response::{
    Response as RemoteControlResponse, ResponseError as RemoteControlError,
};
use crate::codec::report::{Report, ReportParseError};
use crate::client::codec::wizzi_macro::response::{
    Response as MacroResponse, ResponseError as MacroError,
};
use crate::text::{copy_bytes, push_char, push_str, str_eq, str_from_utf8};

verus! {

/// The parts of a text between its dots (`str::split('.')`): one more
/// than there are dots, possibly empty.
pub open spec fn split_spec(s: Seq<char>) -> Seq<Seq<char>>
    decreases s.len(),
{
    if s.len() == 0 {
        seq![Seq::empty()]
    } else {
        let p = split_spec(s.drop_last());
        if s.last() == '.' {
            p.push(Seq::empty())
        } else {
            p.update(p.len() - 1, p.last().push(s.last()))
        }
    }
}

/// Parts joined with dots between them (`join(".")`).
pub open spec fn join_spec(ps: Seq<Seq<char>>) -> Seq<char>
    decreases ps.len(),
{
    if ps.len() == 0 {
        Seq::empty()
    } else if ps.len() == 1 {
        ps[0]
    } else {
        join_spec(ps.drop_last()) + seq!['.'] + ps.last()
    }
}

/// The texts of a sequence of strings.
pub open spec fn views(ps: Seq<String>) -> Seq<Seq<char>> {
    ps.map_values(|p: String| p@)
}

/// Splitting gives at least one part, and no part holds a dot.
pub proof fn lemma_split_parts(s: Seq<char>)
    ensures
        split_spec(s).len() >= 1,
        forall|i: int, j: int|
            0 <= i < split_spec(s).len() && 0 <= j < split_spec(s)[i].len() ==> split_spec(
                s,
            )[i][j] != '.',
    decreases s.len(),
{
    if s.len() > 0 {
        lemma_split_parts(s.drop_last());
        let p = split_spec(s.drop_last());
        if s.last() != '.' {
            let q = split_spec(s);
            assert forall|i: int, j: int| 0 <= i < q.len() && 0 <= j < q[i].len() implies q[i][j]
                != '.' by {
                if i == p.len() - 1 && j == p.last().len() {
                } else if i == p.len() - 1 {
                    assert(q[i][j] == p[i][j]);
                }
            }
        }
    }
}

/// Joining the parts of a text with dots gives the text back.
pub proof fn lemma_join_split(s: Seq<char>)
    ensures
        join_spec(split_spec(s)) == s,
    decreases s.len(),
{
    if s.len() > 0 {
        let t = s.drop_last();
        lemma_join_split(t);
        lemma_split_parts(t);
        let p = split_spec(t);
        let q = split_spec(s);
        if s.last() == '.' {
            assert(q.drop_last() =~= p);
            assert(join_spec(q) =~= t + seq!['.']);
        } else {
            let last = p.last().push(s.last());
            if p.len() == 1 {
                assert(join_spec(q) =~= s);
            } else {
                assert(q.drop_last() =~= p.drop_last());
                assert(join_spec(q) == join_spec(p.drop_last()) + seq!['.'] + last);
                assert(join_spec(q) =~= (join_spec(p.drop_last()) + seq!['.'] + p.last()).push(
                    s.last(),
                ));
            }
        }
        assert(t.push(s.last()) =~= s);
    }
}

/// No character of `t` is a dot.
pub open spec fn dot_free(t: Seq<char>) -> bool {
    forall|i: int| 0 <= i < t.len() ==> t[i] != '.'
}

/// A text without dots is a single part.
proof fn lemma_split_dot_free(t: Seq<char>)
    requires
        dot_free(t),
    ensures
        split_spec(t) == seq![t],
    decreases t.len(),
{
    if t.len() > 0 {
        let u = t.drop_last();
        assert(dot_free(u)) by {
            assert forall|i: int| 0 <= i < u.len() implies u[i] != '.' by {
                assert(u[i] == t[i]);
            }
        }
        lemma_split_dot_free(u);
        assert(t.last() != '.') by {
            assert(t[t.len() - 1] != '.');
        }
        assert(u.push(t.last()) =~= t);
        assert(seq![u].update(0, u.push(t.last())) =~= seq![t]);
    } else {
        assert(t =~= Seq::<char>::empty());
    }
}

/// A dot and a dot-free text after `s` add that text as the last part.
proof fn lemma_split_append(s: Seq<char>, t: Seq<char>)
    requires
        dot_free(t),
    ensures
        split_spec(s + seq!['.'] + t) == split_spec(s).push(t),
    decreases t.len(),
{
    if t.len() == 0 {
        assert(s + seq!['.'] + t =~= s.push('.'));
        assert((s + seq!['.'] + t).drop_last() =~= s);
        assert((s + seq!['.'] + t).last() == '.');
        assert(t =~= Seq::<char>::empty());
        assert(split_spec(s + seq!['.'] + t) == split_spec((s + seq!['.'] + t).drop_last()).push(
            Seq::empty(),
        ));
    } else {
        let u = t.drop_last();
        assert(dot_free(u)) by {
            assert forall|i: int| 0 <= i < u.len() implies u[i] != '.' by {
                assert(u[i] == t[i]);
            }
        }
        lemma_split_append(s, u);
        let w = s + seq!['.'] + t;
        assert(w.drop_last() =~= s + seq!['.'] + u);
        assert(w.last() == t.last());
        assert(t.last() != '.') by {
            assert(t[t.len() - 1] != '.');
        }
        assert(u.push(t.last()) =~= t);
        assert(split_spec(s).push(u).update(split_spec(s).len() as int, u.push(t.last()))
            =~= split_spec(s).push(t));
    }
}

/// Joining dot-free parts with dots and splitting the text gives the parts
/// back.
pub proof fn lemma_split_join(ps: Seq<Seq<char>>)
    requires
        ps.len() >= 1,
        forall|i: int| 0 <= i < ps.len() ==> dot_free(#[trigger] ps[i]),
    ensures
        split_spec(join_spec(ps)) == ps,
    decreases ps.len(),
{
    if ps.len() == 1 {
        lemma_split_dot_free(ps[0]);
        assert(seq![ps[0]] =~= ps);
    } else {
        let q = ps.drop_last();
        assert forall|i: int| 0 <= i < q.len() implies dot_free(#[trigger] q[i]) by {
            assert(q[i] == ps[i]);
        }
        lemma_split_join(q);
        assert(dot_free(ps[ps.len() - 1]));
        lemma_split_append(join_spec(q), ps.last());
        assert(q.push(ps.last()) =~= ps);
    }
}

/// Splits a routing key on its dots.
pub fn split_dots(s: &str) -> (r: Vec<String>)
    ensures
        views(r@) == split_spec(s@),
{
    let mut parts: Vec<String> = Vec::new();
    let mut cur = String::new();
    let n = s.unicode_len();
    let mut i: usize = 0;
    assert(s@.take(0) =~= Seq::<char>::empty());
    while i < n
        invariant
            n == s@.len(),
            i <= n,
            views(parts@).push(cur@) == split_spec(s@.take(i as int)),
        decreases n - i,
    {
        let c = s.get_char(i);
        let ghost before = views(parts@).push(cur@);
        assert(s@.take(i + 1).drop_last() =~= s@.take(i as int));
        if c == '.' {
            let done = cur;
            parts.push(done);
            cur = String::new();
            assert(views(parts@).push(cur@) =~= before.push(Seq::empty()));
        } else {
            push_char(&mut cur, c);
            assert(views(parts@).push(cur@) =~= before.update(
                before.len() - 1,
                before.last().push(c),
            ));
        }
        i = i + 1;
    }
    assert(s@.take(n as int) =~= s@);
    parts.push(cur);
    assert(views(parts@) =~= split_spec(s@));
    parts
}

/// Joins the parts from `start` on with dots.
pub fn join_dots(parts: &Vec<String>, start: usize) -> (r: String)
    requires
        start <= parts@.len(),
    ensures
        r@ == join_spec(views(parts@.skip(start as int))),
{
    let mut s = String::new();
    let mut i = start;
    assert(views(parts@.skip(start as int).take(0)) =~= Seq::<Seq<char>>::empty());
    while i < parts.len()
        invariant
            start <= i <= parts@.len(),
            s@ == join_spec(views(parts@.skip(start as int).take(i - start))),
        decreases parts@.len() - i,
    {
        let ghost ps = views(parts@.skip(start as int).take(i + 1 - start));
        assert(ps.drop_last() =~= views(parts@.skip(start as int).take(i - start)));
        assert(ps.last() == parts@[i as int]@);
        if i > start {
            push_char(&mut s, '.');
        }
        push_str(&mut s, parts[i].as_str());
        i = i + 1;
    }
    assert(parts@.skip(start as int).take(parts@.len() - start) =~= parts@.skip(start as int));
    s
}


/// A command for the backend: publish `data` with `routing_key`.
#[derive(Debug)]
pub enum Command {
    Publish { routing_key: String, data: Vec<u8> },
}

/// Why a report of the Applink exchange could not be read.
#[derive(Debug, Clone)]
pub enum ApplinkReportBadFormat {
    MissingSite { company: String, routing_key: String, data: Vec<u8> },
    MissingDevice { company: String, routing_key: String, data: Vec<u8> },
    BadUtf8 { company: String, site: String, device: String, data: Vec<u8> },
    BadReport {
        company: String,
        site: String,
        device: String,
        data: Vec<u8>,
        error: ReportParseError,
    },
}

/// Why a message of the Applink exchange could not be read.
#[derive(Debug, Clone)]
pub enum ApplinkBadFormat {
    Utf8 { routing_key: String, data: Vec<u8> },
    MissingCompany { routing_key: String, data: Vec<u8> },
    Report(ApplinkReportBadFormat),
    RemoteControl(RemoteControlError),
    Macro(MacroError),
    UnknownSubtopic { routing_key: String, sub_topic: String, data: Vec<u8> },
}

/// Why a message of a gateway could not be read.
#[derive(Debug, Clone)]
pub enum GatewayBadFormat {
    MissingUid { routing_key: String, data: Vec<u8> },
    MissingModemUid { routing_key: String, data: Vec<u8> },
    UnknownSubtopic { routing_key: String, sub_topic: String, data: Vec<u8> },
}

/// Why a message could not be read.
#[derive(Debug, Clone)]
pub enum BadFormat {
    Applink(ApplinkBadFormat),
    Gateway(GatewayBadFormat),
    UnknownRoutingKey { routing_key: String, data: Vec<u8> },
}

/// What an Applink message carries.
#[derive(Debug, Clone)]
pub enum ApplinkPayload {
    Report(Report),
    RemoteControl(RemoteControlResponse),
    Macro(MacroResponse),
}

/// What a gateway message carries: a report of one of its modems.
#[derive(Debug, Clone)]
pub enum GatewayPayload {
    MdReport { modem: String, payload: Vec<u8> },
}

/// What the feed hands to its listeners.
#[derive(Debug, Clone)]
pub enum Unsolicited {
    Connect,
    Disconnect,
    Applink { company: String, site: String, device: String, payload: ApplinkPayload },
    Gateway { uid: String, payload: GatewayPayload },
    BadFormat(BadFormat),
}

/// A message as the broker delivers it.
#[derive(Debug, Clone)]
pub struct AmqpUnsolicted {
    pub routing_key: String,
    pub data: Vec<u8>,
}

/// A report whose text is still to be read: where it comes from, its
/// bytes, and their text.
#[derive(Debug)]
pub struct PendingReport {
    pub company: String,
    pub site: String,
    pub device: String,
    pub data: Vec<u8>,
    pub text: String,
}

/// What a delivered message comes to.
#[derive(Debug)]
pub enum Parsed {
    /// This message, for the listeners.
    Done(Unsolicited),
    /// A report whose text is to be read; [`PendingReport::complete`] gives
    /// the message then.
    NeedsReport(PendingReport),
}

/// `md`: the gateway sub-topic of modem reports.
pub open spec fn md_topic() -> Seq<char> {
    seq!['m', 'd']
}

/// `report`: the Applink sub-topic of reports.
pub open spec fn report_subtopic() -> Seq<char> {
    seq!['r', 'e', 'p', 'o', 'r', 't']
}

/// The sub-topic named after the first part, or nothing.
pub open spec fn sub_topic_of(ps: Seq<Seq<char>>) -> Seq<char> {
    if ps.len() >= 2 {
        ps[1]
    } else {
        Seq::empty()
    }
}

/// The outcome of the parts after `.gw`: the gateway uid, then `md` and the
/// modem uid for a modem report.
pub open spec fn gateway_outcome(
    ps: Seq<Seq<char>>,
    data: Seq<u8>,
    r: Result<Unsolicited, GatewayBadFormat>,
) -> bool {
    if ps.len() == 0 {
        r matches Err(GatewayBadFormat::MissingUid { routing_key, data: d }) && routing_key@
            == join_spec(ps) && d@ == data
    } else if ps.len() >= 2 && ps[1] == md_topic() {
        if ps.len() == 2 {
            r matches Err(GatewayBadFormat::MissingModemUid { routing_key, data: d })
                && routing_key@ == join_spec(ps) && d@ == data
        } else {
            r matches Ok(
                Unsolicited::Gateway { uid, payload: GatewayPayload::MdReport { modem, payload } },
            ) && uid@ == ps[0] && modem@ == ps[2] && payload@ == data
        }
    } else {
        r matches Err(GatewayBadFormat::UnknownSubtopic { routing_key, sub_topic, data: d })
            && routing_key@ == join_spec(ps) && sub_topic@ == sub_topic_of(ps) && d@ == data
    }
}

/// Reads the parts of a gateway routing key from `start` on.
pub fn parse_gateway_unsolicited(parts: &Vec<String>, start: usize, data: &[u8]) -> (r: Result<
    Unsolicited,
    GatewayBadFormat,
>)
    requires
        start <= parts@.len(),
    ensures
        gateway_outcome(views(parts@.skip(start as int)), data@, r),
{
    let ghost ps = views(parts@.skip(start as int));
    if start >= parts.len() {
        return Err(
            GatewayBadFormat::MissingUid {
                routing_key: join_dots(parts, start),
                data: copy_bytes(data),
            },
        );
    }
    let uid = parts[start].clone();
    assert(ps[0] == parts@[start as int]@);
    proof {
        reveal_strlit("md");
        assert("md"@ =~= md_topic());
    }
    if start + 1 < parts.len() && str_eq(parts[start + 1].as_str(), "md") {
        assert(ps[1] == parts@[start + 1]@);
        if start + 2 >= parts.len() {
            return Err(
                GatewayBadFormat::MissingModemUid {
                    routing_key: join_dots(parts, start),
                    data: copy_bytes(data),
                },
            );
        }
        assert(ps[2] == parts@[start + 2]@);
        let modem = parts[start + 2].clone();
        Ok(
            Unsolicited::Gateway {
                uid,
                payload: GatewayPayload::MdReport { modem, payload: copy_bytes(data) },
            },
        )
    } else {
        let sub_topic = if start + 1 < parts.len() {
            assert(ps[1] == parts@[start + 1]@);
            parts[start + 1].clone()
        } else {
            String::new()
        };
        Err(
            GatewayBadFormat::UnknownSubtopic {
                routing_key: join_dots(parts, start),
                sub_topic,
                data: copy_bytes(data),
            },
        )
    }
}

/// The outcome of the parts after `.applink.{company}.report`: the site,
/// then the device; the bytes must be UTF-8, and their text is then to be
/// read as a report.
pub open spec fn applink_report_outcome(
    company: Seq<char>,
    ps: Seq<Seq<char>>,
    data: Seq<u8>,
    r: Result<PendingReport, ApplinkReportBadFormat>,
) -> bool {
    if ps.len() == 0 {
        r matches Err(ApplinkReportBadFormat::MissingSite { company: c, routing_key, data: d })
            && c@ == company && routing_key@ == join_spec(ps) && d@ == data
    } else if ps.len() == 1 {
        r matches Err(ApplinkReportBadFormat::MissingDevice { company: c, routing_key, data: d })
            && c@ == company && routing_key@ == join_spec(ps) && d@ == data
    } else if !valid_utf8(data) {
        r matches Err(ApplinkReportBadFormat::BadUtf8 { company: c, site, device, data: d })
            && c@ == company && site@ == ps[0] && device@ == ps[1] && d@ == data
    } else {
        r matches Ok(p) && p.company@ == company && p.site@ == ps[0] && p.device@ == ps[1]
            && p.data@ == data && p.text@ == decode_utf8(data)
    }
}

/// Reads the parts of a report's routing key from `start` on.
pub fn parse_applink_report(company: &str, parts: &Vec<String>, start: usize, data: &[u8]) -> (r:
    Result<PendingReport, ApplinkReportBadFormat>)
    requires
        start <= parts@.len(),
    ensures
        applink_report_outcome(company@, views(parts@.skip(start as int)), data@, r),
{
    let ghost ps = views(parts@.skip(start as int));
    if start >= parts.len() {
        return Err(
            ApplinkReportBadFormat::MissingSite {
                company: company.to_string(),
                routing_key: join_dots(parts, start),
                data: copy_bytes(data),
            },
        );
    }
    if start + 1 >= parts.len() {
        return Err(
            ApplinkReportBadFormat::MissingDevice {
                company: company.to_string(),
                routing_key: join_dots(parts, start),
                data: copy_bytes(data),
            },
        );
    }
    assert(ps[0] == parts@[start as int]@);
    assert(ps[1] == parts@[start + 1]@);
    let site = parts[start].clone();
    let device = parts[start + 1].clone();
    let text = match str_from_utf8(data) {
        Ok(t) => t.to_string(),
        Err(_) => {
            return Err(
                ApplinkReportBadFormat::BadUtf8 {
                    company: company.to_string(),
                    site,
                    device,
                    data: copy_bytes(data),
                },
            );
        },
    };
    Ok(PendingReport { company: company.to_string(), site, device, data: copy_bytes(data), text })
}

impl PendingReport {
    /// The message once the report's text was read: the report, or the
    /// report's bad format with the reason.
    pub fn complete(self, parsed: Result<Report, ReportParseError>) -> (r: Unsolicited)
        ensures
            match parsed {
                Ok(report) => r == Unsolicited::Applink {
                    company: self.company,
                    site: self.site,
                    device: self.device,
                    payload: ApplinkPayload::Report(report),
                },
                Err(error) => r == Unsolicited::BadFormat(
                    BadFormat::Applink(
                        ApplinkBadFormat::Report(
                            ApplinkReportBadFormat::BadReport {
                                company: self.company,
                                site: self.site,
                                device: self.device,
                                data: self.data,
                                error,
                            },
                        ),
                    ),
                ),
            },
    {
        let PendingReport { company, site, device, data, text: _ } = self;
        match parsed {
            Ok(report) => Unsolicited::Applink {
                company,
                site,
                device,
                payload: ApplinkPayload::Report(report),
            },
            Err(error) => Unsolicited::BadFormat(
                BadFormat::Applink(
                    ApplinkBadFormat::Report(
                        ApplinkReportBadFormat::BadReport { company, site, device, data, error },
                    ),
                ),
            ),
        }
    }
}

/// The report outcome inside an Applink outcome, where it is one.
pub open spec fn inner_report(r: Result<PendingReport, ApplinkBadFormat>) -> Result<
    PendingReport,
    ApplinkReportBadFormat,
> {
    match r {
        Ok(p) => Ok(p),
        Err(ApplinkBadFormat::Report(e)) => Err(e),
        Err(_) => Err(arbitrary()),
    }
}

/// The outcome of the parts after `.applink`: the company, then `report`
/// and what a report's routing key holds; any other sub-topic is unknown.
pub open spec fn applink_outcome(
    ps: Seq<Seq<char>>,
    data: Seq<u8>,
    r: Result<PendingReport, ApplinkBadFormat>,
) -> bool {
    if ps.len() == 0 {
        r matches Err(ApplinkBadFormat::MissingCompany { routing_key, data: d }) && routing_key@
            == join_spec(ps) && d@ == data
    } else if ps.len() >= 2 && ps[1] == report_subtopic() {
        (r is Ok || r matches Err(ApplinkBadFormat::Report(_))) && applink_report_outcome(
            ps[0],
            ps.skip(2),
            data,
            inner_report(r),
        )
    } else {
        r matches Err(ApplinkBadFormat::UnknownSubtopic { routing_key, sub_topic, data: d })
            && routing_key@ == join_spec(ps) && sub_topic@ == sub_topic_of(ps) && d@ == data
    }
}

/// Reads the parts of an Applink routing key from `start` on.
pub fn parse_applink_unsolicited(parts: &Vec<String>, start: usize, data: &[u8]) -> (r: Result<
    PendingReport,
    ApplinkBadFormat,
>)
    requires
        start <= parts@.len(),
    ensures
        applink_outcome(views(parts@.skip(start as int)), data@, r),
{
    let ghost ps = views(parts@.skip(start as int));
    if start >= parts.len() {
        return Err(
            ApplinkBadFormat::MissingCompany {
                routing_key: join_dots(parts, start),
                data: copy_bytes(data),
            },
        );
    }
    assert(ps[0] == parts@[start as int]@);
    let company = parts[start].clone();
    proof {
        reveal_strlit("report");
        assert("report"@ =~= report_subtopic());
    }
    if start + 1 < parts.len() && str_eq(parts[start + 1].as_str(), "report") {
        assert(ps[1] == parts@[start + 1]@);
        assert(views(parts@.skip(start + 2)) =~= ps.skip(2));
        match parse_applink_report(company.as_str(), parts, start + 2, data) {
            Ok(p) => Ok(p),
            Err(e) => Err(ApplinkBadFormat::Report(e)),
        }
    } else {
        let sub_topic = if start + 1 < parts.len() {
            assert(ps[1] == parts@[start + 1]@);
            parts[start + 1].clone()
        } else {
            String::new()
        };
        Err(
            ApplinkBadFormat::UnknownSubtopic {
                routing_key: join_dots(parts, start),
                sub_topic,
                data: copy_bytes(data),
            },
        )
    }
}

/// `applink`: the first part of Applink routing keys (after the leading
/// dot).
pub open spec fn applink_word() -> Seq<char> {
    seq!['a', 'p', 'p', 'l', 'i', 'n', 'k']
}

/// `gw`: the first part of gateway routing keys (after the leading dot).
pub open spec fn gw_word() -> Seq<char> {
    seq!['g', 'w']
}

/// What a delivered message comes to: a routing key that starts with
/// `.applink.` is read by [`applink_outcome`], one that starts with `.gw.`
/// by [`gateway_outcome`], with their refusals as bad formats; any other
/// routing key is unknown.
pub open spec fn unsolicited_outcome(key: Seq<char>, data: Seq<u8>, r: Parsed) -> bool {
    let ps = split_spec(key);
    if ps.len() >= 2 && ps[0].len() == 0 && ps[1] == applink_word() {
        match r {
            Parsed::NeedsReport(p) => applink_outcome(ps.skip(2), data, Ok(p)),
            Parsed::Done(Unsolicited::BadFormat(BadFormat::Applink(e))) => applink_outcome(
                ps.skip(2),
                data,
                Err(e),
            ),
            _ => false,
        }
    } else if ps.len() >= 2 && ps[0].len() == 0 && ps[1] == gw_word() {
        match r {
            Parsed::Done(Unsolicited::BadFormat(BadFormat::Gateway(e))) => gateway_outcome(
                ps.skip(2),
                data,
                Err(e),
            ),
            Parsed::Done(u) => !(u is BadFormat) && gateway_outcome(ps.skip(2), data, Ok(u)),
            _ => false,
        }
    } else {
        r matches Parsed::Done(
            Unsolicited::BadFormat(BadFormat::UnknownRoutingKey { routing_key, data: d }),
        ) && routing_key@ == key && d@ == data
    }
}

/// A message with routing key `.gw.{uid}.md.{modem}` is a report of that
/// gateway's modem, carrying the delivered bytes.
pub proof fn lemma_gateway_modem_key(uid: Seq<char>, modem: Seq<char>, data: Seq<u8>, r: Parsed)
    requires
        dot_free(uid),
        dot_free(modem),
        unsolicited_outcome(
            join_spec(seq![Seq::empty(), seq!['g', 'w'], uid, seq!['m', 'd'], modem]),
            data,
            r,
        ),
    ensures
        r matches Parsed::Done(Unsolicited::Gateway { uid: u, payload: p }) && u@ == uid && (
        p matches GatewayPayload::MdReport { modem: m, payload: d } && m@ == modem && d@ == data),
{
    let ps = seq![Seq::empty(), seq!['g', 'w'], uid, seq!['m', 'd'], modem];
    assert forall|i: int| 0 <= i < ps.len() implies dot_free(#[trigger] ps[i]) by {}
    lemma_split_join(ps);
    assert(ps.skip(2) =~= seq![uid, seq!['m', 'd'], modem]);
    assert(ps[1] =~= gw_word());
    assert(ps[1] != applink_word());
    assert(seq!['m', 'd'] =~= md_topic());
}

/// A message with routing key `.applink.{company}.report.{site}.{device}`
/// whose bytes are UTF-8 is a report of that company, site and device,
/// whose text is what the bytes encode.
pub proof fn lemma_applink_report_key(
    company: Seq<char>,
    site: Seq<char>,
    device: Seq<char>,
    data: Seq<u8>,
    r: Parsed,
)
    requires
        dot_free(company),
        dot_free(site),
        dot_free(device),
        valid_utf8(data),
        unsolicited_outcome(
            join_spec(
                seq![
                    Seq::empty(),
                    seq!['a', 'p', 'p', 'l', 'i', 'n', 'k'],
                    company,
                    seq!['r', 'e', 'p', 'o', 'r', 't'],
                    site,
                    device,
                ],
            ),
            data,
            r,
        ),
    ensures
        r matches Parsed::NeedsReport(p) && p.company@ == company && p.site@ == site
            && p.device@ == device && p.data@ == data && p.text@ == decode_utf8(data),
{
    let ps = seq![
        Seq::empty(),
        seq!['a', 'p', 'p', 'l', 'i', 'n', 'k'],
        company,
        seq!['r', 'e', 'p', 'o', 'r', 't'],
        site,
        device,
    ];
    assert forall|i: int| 0 <= i < ps.len() implies dot_free(#[trigger] ps[i]) by {}
    lemma_split_join(ps);
    assert(ps[1] =~= applink_word());
    assert(ps.skip(2) =~= seq![company, seq!['r', 'e', 'p', 'o', 'r', 't'], site, device]);
    assert(ps.skip(2).skip(2) =~= seq![site, device]);
    assert(seq!['r', 'e', 'p', 'o', 'r', 't'] =~= report_subtopic());
}

/// Reads a delivered message by its routing key.
pub fn parse_unsolicited(routing_key: &str, data: &[u8]) -> (r: Parsed)
    ensures
        unsolicited_outcome(routing_key@, data@, r),
{
    let parts = split_dots(routing_key);
    let ghost ps = split_spec(routing_key@);
    proof {
        lemma_split_parts(routing_key@);
        reveal_strlit("applink");
        reveal_strlit("gw");
        assert("applink"@ =~= applink_word());
        assert("gw"@ =~= gw_word());
        assert(ps.len() == parts@.len());
        if ps.len() >= 2 {
            assert(ps[0] == parts@[0]@);
            assert(ps[1] == parts@[1]@);
        }
    }
    if parts.len() >= 2 && parts[0].as_str().unicode_len() == 0 {
        assert(ps[0] == parts@[0]@);
        assert(ps[1] == parts@[1]@);
        assert(views(parts@.skip(2)) =~= ps.skip(2));
        if str_eq(parts[1].as_str(), "applink") {
            return match parse_applink_unsolicited(&parts, 2, data) {
                Ok(p) => Parsed::NeedsReport(p),
                Err(e) => Parsed::Done(Unsolicited::BadFormat(BadFormat::Applink(e))),
            };
        } else if str_eq(parts[1].as_str(), "gw") {
            return match parse_gateway_unsolicited(&parts, 2, data) {
                Ok(u) => Parsed::Done(u),
                Err(e) => Parsed::Done(Unsolicited::BadFormat(BadFormat::Gateway(e))),
            };
        }
    }
    Parsed::Done(
        Unsolicited::BadFormat(
            BadFormat::UnknownRoutingKey {
                routing_key: routing_key.to_string(),
                data: copy_bytes(data),
            },
        ),
    )
}

/// Where the feed's main loop stands.
#[derive(Debug, Clone, Copy, PartialEq, Eq, Structural)]
pub enum RunState {
    /// Waiting for deliveries.
    Receiving,
    /// A delivery is being handed to the listeners.
    Forwarding,
    /// The deliveries stopped; the listeners are being told.
    Disconnecting,
    /// Connecting to the broker again.
    Reconnecting,
    /// Connected again; the listeners are being told.
    Announcing,
    /// The listeners are gone: the loop is over.
    Stopped,
}

/// What the main loop learns.
#[derive(Debug)]
pub enum RunEvent {
    /// A message was delivered.
    Delivered(AmqpUnsolicted),
    /// The deliveries stopped (the connection or a consumer failed).
    StreamEnded,
    /// A message was handed to the listeners (`true`), or they are gone
    /// (`false`).
    Sent(bool),
    /// An attempt to connect succeeded (`true`) or failed (`false`).
    Connected(bool),
}

/// What the main loop does next.
#[derive(Debug)]
pub enum RunAction {
    /// Wait for the next delivery.
    Receive,
    /// Hand this to the listeners (reading a pending report first).
    Deliver(Parsed),
    /// Tell the listeners this.
    Notify(Unsolicited),
    /// Connect to the broker again.
    Reconnect,
    /// Wait a second, then connect again.
    RetryLater,
    /// End the loop.
    Stop,
}

/// The next state of the main loop: deliveries are forwarded one at a
/// time; when they stop, the listeners are told of the disconnection, the
/// broker is connected to again (retrying after a failure), and the
/// listeners are told of the connection; once the listeners are gone the
/// loop stops. An event that the state does not wait for stops it too.
pub open spec fn next_state(state: RunState, event: RunEvent) -> RunState {
    match (state, event) {
        (RunState::Receiving, RunEvent::Delivered(_)) => RunState::Forwarding,
        (RunState::Receiving, RunEvent::StreamEnded) => RunState::Disconnecting,
        (RunState::Forwarding, RunEvent::Sent(true)) => RunState::Receiving,
        (RunState::Disconnecting, RunEvent::Sent(true)) => RunState::Reconnecting,
        (RunState::Reconnecting, RunEvent::Connected(false)) => RunState::Reconnecting,
        (RunState::Reconnecting, RunEvent::Connected(true)) => RunState::Announcing,
        (RunState::Announcing, RunEvent::Sent(true)) => RunState::Receiving,
        _ => RunState::Stopped,
    }
}

/// What the main loop does after an event, in the state it goes to.
pub open spec fn action_ok(state: RunState, event: RunEvent, a: RunAction) -> bool {
    match (state, event) {
        (RunState::Receiving, RunEvent::Delivered(m)) => a matches RunAction::Deliver(p)
            && unsolicited_outcome(m.routing_key@, m.data@, p),
        (RunState::Receiving, RunEvent::StreamEnded) => a == RunAction::Notify(
            Unsolicited::Disconnect,
        ),
        (RunState::Forwarding, RunEvent::Sent(true)) => a is Receive,
        (RunState::Disconnecting, RunEvent::Sent(true)) => a is Reconnect,
        (RunState::Reconnecting, RunEvent::Connected(false)) => a is RetryLater,
        (RunState::Reconnecting, RunEvent::Connected(true)) => a == RunAction::Notify(
            Unsolicited::Connect,
        ),
        (RunState::Announcing, RunEvent::Sent(true)) => a is Receive,
        _ => a is Stop,
    }
}

/// One step of the main loop.
pub fn run_step(state: RunState, event: RunEvent) -> (r: (RunState, RunAction))
    ensures
        r.0 == next_state(state, event),
        action_ok(state, event, r.1),
{
    match (state, event) {
        (RunState::Receiving, RunEvent::Delivered(m)) => (
            RunState::Forwarding,
            RunAction::Deliver(parse_unsolicited(m.routing_key.as_str(), m.data.as_slice())),
        ),
        (RunState::Receiving, RunEvent::StreamEnded) => (
            RunState::Disconnecting,
            RunAction::Notify(Unsolicited::Disconnect),
        ),
        (RunState::Forwarding, RunEvent::Sent(true)) => (RunState::Receiving, RunAction::Receive),
        (RunState::Disconnecting, RunEvent::Sent(true)) => (
            RunState::Reconnecting,
            RunAction::Reconnect,
        ),
        (RunState::Reconnecting, RunEvent::Connected(false)) => (
            RunState::Reconnecting,
            RunAction::RetryLater,
        ),
        (RunState::Reconnecting, RunEvent::Connected(true)) => (
            RunState::Announcing,
            RunAction::Notify(Unsolicited::Connect),
        ),
        (RunState::Announcing, RunEvent::Sent(true)) => (RunState::Receiving, RunAction::Receive),
        _ => (RunState::Stopped, RunAction::Stop),
    }
}

} // verus!
