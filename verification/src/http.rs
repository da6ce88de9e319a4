//! The Dash7board HTTP API: credentials, the URLs they reach, and how the
//! answers are read.
use vstd::prelude::*;
use crate::common::{uid_from_spec, Uid};
use crate::text::{decimal, push_char, push_decimal, push_str};

verus! {

/// `reqwest::Error`, carried through as an opaque error value.
#[verifier::external_type_specification]
#[verifier::external_body]
pub struct ExReqwestError(reqwest::Error);

/// `serde_json::Error`, carried through as an opaque error value (the
/// JSON error of [`HttpError`]).
#[verifier::external_type_specification]
#[verifier::external_body]
pub struct ExJsonError(serde_json::Error);

/// The server and the account that requests are made with.
#[derive(Debug, Clone)]
pub struct Credentials {
    pub server: String,
    pub username: String,
    pub password: String,
}

/// `https://{username}:{password}@{server}/{path}`.
pub open spec fn url_spec(c: Credentials, path: Seq<char>) -> Seq<char> {
    seq!['h', 't', 't', 'p', 's', ':', '/', '/'] + c.username@ + seq![':'] + c.password@
        + seq!['@'] + c.server@ + seq!['/'] + path
}

/// `api/v1/sites/{id}/devices`.
pub open spec fn site_devices_path_spec(id: nat) -> Seq<char> {
    "api/v1/sites/"@ + decimal(id) + "/devices"@
}

impl Credentials {
    /// Credentials for an account on a server.
    pub fn new(server: String, username: String, password: String) -> (r: Credentials)
        ensures
            r.server == server,
            r.username == username,
            r.password == password,
    {
        Credentials { server, username, password }
    }

    /// Credentials for an account on the public Dash7board server.
    pub fn dash7board(username: String, password: String) -> (r: Credentials)
        ensures
            r.server@ == "dash7board.wizzilab.com"@,
            r.username == username,
            r.password == password,
    {
        Credentials { server: "dash7board.wizzilab.com".to_owned(), username, password }
    }

    /// The URL of `path` on the server, with the account in it.
    pub fn url(&self, path: &str) -> (r: String)
        ensures
            r@ == url_spec(*self, path@),
    {
        let mut s = String::new();
        push_str(&mut s, "https://");
        push_str(&mut s, self.username.as_str());
        push_char(&mut s, ':');
        push_str(&mut s, self.password.as_str());
        push_char(&mut s, '@');
        push_str(&mut s, self.server.as_str());
        push_char(&mut s, '/');
        push_str(&mut s, path);
        proof {
            reveal_strlit("https://");
        }
        assert(s@ =~= url_spec(*self, path@));
        s
    }
}

/// The path that lists the devices of a site.
pub fn site_devices_path(id: usize) -> (r: String)
    ensures
        r@ == site_devices_path_spec(id as nat),
{
    let mut s = String::new();
    push_str(&mut s, "api/v1/sites/");
    push_decimal(&mut s, id as u64);
    push_str(&mut s, "/devices");
    assert(s@ =~= site_devices_path_spec(id as nat));
    s
}

/// The answer to a site's device list, as written: `status` `ok` with the
/// identifiers, or `error` with a message.
#[derive(Debug, Clone)]
pub enum RawSiteDevices {
    Success { uids: Option<Vec<String>> },
    Failure { msg: String },
}

/// Why a request to the API failed.
#[derive(Debug)]
pub enum HttpError {
    Reqwest(reqwest::Error),
    Json(serde_json::Error),
    Dash7board(String),
}

/// `out` holds the identifiers that the texts name, in order.
pub open spec fn uids_of(texts: Seq<String>, out: Seq<Uid>) -> bool {
    out.len() == texts.len() && forall|i: int|
        0 <= i < out.len() ==> #[trigger] out[i]@ == uid_from_spec(texts[i]@)
}

/// Reads identifiers from their texts.
pub fn uids_from(texts: Vec<String>) -> (r: Vec<Uid>)
    ensures
        uids_of(texts@, r@),
{
    let ghost all = texts@;
    let mut rest = texts;
    let mut out: Vec<Uid> = Vec::new();
    let n = rest.len();
    assert(all.skip(0) =~= all);
    while rest.len() > 0
        invariant
            all == texts@,
            n == all.len(),
            out@.len() + rest@.len() == n,
            rest@ == all.skip(out@.len() as int),
            forall|i: int| 0 <= i < out@.len() ==> #[trigger] out@[i]@ == uid_from_spec(all[i]@),
        decreases rest@.len(),
    {
        let ghost k = out@.len() as int;
        let s = rest.remove(0);
        assert(s == all[k]);
        assert(rest@ =~= all.skip(k + 1));
        out.push(Uid::from(s));
    }
    out
}

impl RawSiteDevices {
    /// The devices of a site from the API's answer: the identifiers of an
    /// `ok` answer, or the message of an `error` answer. An `ok` answer
    /// without identifiers is not accepted.
    pub fn into_uids(self) -> (r: Result<Vec<Uid>, HttpError>)
        requires
            !(self matches RawSiteDevices::Success { uids: None }),
        ensures
            match self {
                RawSiteDevices::Success { uids: Some(v) } => r matches Ok(out) && uids_of(
                    v@,
                    out@,
                ),
                RawSiteDevices::Success { uids: None } => false,
                RawSiteDevices::Failure { msg } => r matches Err(HttpError::Dash7board(m)) && m
                    == msg,
            },
    {
        match self {
            RawSiteDevices::Success { uids } => match uids {
                Some(v) => Ok(uids_from(v)),
                None => Err(HttpError::Dash7board(String::new())),
            },
            RawSiteDevices::Failure { msg } => Err(HttpError::Dash7board(msg)),
        }
    }
}

} // verus!
