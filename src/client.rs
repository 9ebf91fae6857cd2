//! Requests sent to the redirect service, and what their responses mean.

use vstd::prelude::*;
use crate::command::Command;
use crate::config::Config;

verus! {

/// Name of the header that carries the API key.
pub const API_KEY_HEADER: &'static str = "x-api-key";

/// The HTTP verbs the client uses.
#[derive(PartialEq, Eq, Structural, Clone, Copy, Debug)]
pub enum Method {
    Post,
    Get,
    Delete,
}

/// One HTTP request, fully determined before anything is sent.
#[derive(Clone, Debug, PartialEq, Eq)]
pub struct Request {
    pub method: Method,
    pub url: String,
    pub header_name: String,
    pub header_value: String,
    pub body: Option<String>,
}

/// URL of the mapping named `short` on the server at `server`.
pub open spec fn entry_url(server: Seq<char>, short: Seq<char>) -> Seq<char> {
    server + "/"@ + short
}

/// The request that carries out `command` against the configured server.
pub fn build_request(config: &Config, command: &Command) -> (r: Request)
    ensures
        r.header_name@ == "x-api-key"@,
        r.header_value@ == config.api_key@,
        match command {
            Command::Create { destination, short_name } => {
                &&& r.method == Method::Post
                &&& r.url@ == entry_url(config.server_url@, short_name@)
                &&& r.body.deep_view() == Some(destination@)
            },
            Command::List => {
                &&& r.method == Method::Get
                &&& r.url@ == entry_url(config.server_url@, Seq::empty())
                &&& r.body is None
            },
            Command::Delete { short_name } => {
                &&& r.method == Method::Delete
                &&& r.url@ == entry_url(config.server_url@, short_name@)
                &&& r.body is None
            },
        },
{
    let mut url = config.server_url.clone();
    url.append("/");
    let (method, body) = match command {
        Command::Create { destination, short_name } => {
            url.append(short_name.as_str());
            (Method::Post, Some(destination.clone()))
        },
        Command::List => (Method::Get, None),
        Command::Delete { short_name } => {
            url.append(short_name.as_str());
            (Method::Delete, None)
        },
    };
    assert(command is List ==> url@ =~= entry_url(config.server_url@, Seq::empty()));
    Request {
        method,
        url,
        header_name: String::from_str(API_KEY_HEADER),
        header_value: config.api_key.clone(),
        body,
    }
}

/// What one request came to.
#[derive(Clone, Debug, PartialEq, Eq)]
pub enum Outcome {
    /// The server accepted a create or delete.
    Success,
    /// The request could not be sent, or the server refused it.
    Failure,
    /// The server's mappings, short name first, destination second.
    Listed(Vec<(String, String)>),
    /// The list response was not a JSON object.
    InvalidFormat,
}

/// Mathematical counterpart of `Outcome`.
pub enum OutcomeModel {
    Success,
    Failure,
    Listed(Seq<(Seq<char>, Seq<char>)>),
    InvalidFormat,
}

impl View for Outcome {
    type V = OutcomeModel;

    open spec fn view(&self) -> OutcomeModel {
        match self {
            Outcome::Success => OutcomeModel::Success,
            Outcome::Failure => OutcomeModel::Failure,
            Outcome::Listed(entries) => OutcomeModel::Listed(entries.deep_view()),
            Outcome::InvalidFormat => OutcomeModel::InvalidFormat,
        }
    }
}

/// Status code of a successful create or delete.
pub const STATUS_OK: u16 = 200;

/// The outcome of a create or delete whose response carried `status`:
/// success exactly on 200, whatever the body.
pub fn status_outcome(status: u16) -> (r: Outcome)
    ensures
        status == 200 ==> r@ == OutcomeModel::Success,
        status != 200 ==> r@ == OutcomeModel::Failure,
{
    if status == STATUS_OK {
        Outcome::Success
    } else {
        Outcome::Failure
    }
}

/// `s` without the `"` characters at its start and at its end.
pub open spec fn trim_quotes(s: Seq<char>) -> Seq<char>
    decreases s.len(),
{
    if s.len() > 0 && s[0] == '"' {
        trim_quotes(s.drop_first())
    } else if s.len() > 0 && s.last() == '"' {
        trim_quotes(s.drop_last())
    } else {
        s
    }
}

/// Removes every leading and trailing `"` of `s`.
pub fn strip_quotes(s: &str) -> (r: String)
    ensures
        r@ == trim_quotes(s@),
{
    let n = s.unicode_len();
    let mut i: usize = 0;
    assert(s@.subrange(0, n as int) =~= s@);
    while i < n && s.get_char(i) == '"'
        invariant
            i <= n,
            n == s@.len(),
            trim_quotes(s@) == trim_quotes(s@.subrange(i as int, n as int)),
        decreases n - i,
    {
        assert(s@.subrange(i as int, n as int).drop_first() =~= s@.subrange(i + 1, n as int));
        i = i + 1;
    }
    let mut j: usize = n;
    while j > i && s.get_char(j - 1) == '"'
        invariant
            i <= j <= n,
            n == s@.len(),
            i < n ==> s@[i as int] != '"',
            trim_quotes(s@) == trim_quotes(s@.subrange(i as int, j as int)),
        decreases j - i,
    {
        assert(s@.subrange(i as int, j as int).drop_last() =~= s@.subrange(i as int, j - 1));
        j = j - 1;
    }
    String::from_str(s.substring_char(i, j))
}

/// The entries of `body` read as a JSON object: each key with its value
/// written as compact JSON text; `None` where `body` is not a JSON object.
pub uninterp spec fn json_object_entries(body: Seq<char>) -> Option<Seq<(Seq<char>, Seq<char>)>>;

/// Relies on `serde_json::from_str` decoding into a
/// `serde_json::Map<String, Value>`, which succeeds exactly on a JSON object,
/// and on `Value`'s `Display`, which writes each value as compact JSON.
#[verifier::external_body]
fn decode_json_object(body: &str) -> (r: Option<Vec<(String, String)>>)
    ensures
        r.deep_view() == json_object_entries(body@),
{
    serde_json::from_str::<serde_json::Map<String, serde_json::Value>>(body).ok().map(|map| {
        map.into_iter().map(|(k, v)| (k, v.to_string())).collect()
    })
}

/// Each entry with the quotes around its destination removed.
pub open spec fn unquoted_entries(es: Seq<(Seq<char>, Seq<char>)>) -> Seq<(Seq<char>, Seq<char>)> {
    es.map_values(|e: (Seq<char>, Seq<char>)| (e.0, trim_quotes(e.1)))
}

/// The outcome of a list request whose body decoded to `decoded`.
pub open spec fn listed_outcome(decoded: Option<Seq<(Seq<char>, Seq<char>)>>) -> OutcomeModel {
    match decoded {
        Some(es) => OutcomeModel::Listed(unquoted_entries(es)),
        None => OutcomeModel::InvalidFormat,
    }
}

/// Turns decoded list entries into an outcome: `None` (no JSON object) is
/// an invalid format, else the entries with their destinations unquoted.
pub fn entries_outcome(decoded: Option<Vec<(String, String)>>) -> (r: Outcome)
    ensures
        r@ == listed_outcome(decoded.deep_view()),
{
    match decoded {
        None => Outcome::InvalidFormat,
        Some(entries) => {
            let ghost es = entries.deep_view();
            let mut out: Vec<(String, String)> = Vec::new();
            let mut i: usize = 0;
            while i < entries.len()
                invariant
                    i <= entries.len(),
                    es == entries.deep_view(),
                    out.deep_view() =~= unquoted_entries(es).take(i as int),
                decreases entries.len() - i,
            {
                let entry = &entries[i];
                let key = entry.0.clone();
                let value = strip_quotes(entry.1.as_str());
                assert(es[i as int] == entry.deep_view());
                let ghost before = out.deep_view();
                out.push((key, value));
                assert(out.deep_view() =~= before.push((es[i as int].0, trim_quotes(es[i as int].1))));
                i = i + 1;
            }
            assert(unquoted_entries(es).take(entries.len() as int) =~= unquoted_entries(es));
            Outcome::Listed(out)
        },
    }
}

/// The outcome of a list request: `None` where it could not be sent,
/// else the body that came back.
pub fn list_outcome(response: Option<&str>) -> (r: Outcome)
    ensures
        match response {
            None => r@ == OutcomeModel::Failure,
            Some(body) => r@ == listed_outcome(json_object_entries(body@)),
        },
{
    match response {
        None => Outcome::Failure,
        Some(body) => entries_outcome(decode_json_object(body)),
    }
}

} // verus!
