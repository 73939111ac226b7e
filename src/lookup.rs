use vstd::prelude::*;

use crate::json::{json_member, json_text, member_of, text_of, ApiError};

verus! {

/// The status of a build that is still running, in its JSON text (quotes included).
pub const RUNNING: &'static str = "\"running\"";

/// The query of a webhook call: the presence of `cancel_running` asks for the
/// running build to be cancelled first; its value does not matter.
pub struct WebhookQuery {
    pub cancel_running: Option<String>,
}

impl WebhookQuery {
    /// Whether the call asks for the running build to be cancelled.
    pub fn wants_cancel(&self) -> (r: bool)
        ensures
            r == self.cancel_running is Some,
    {
        self.cancel_running.is_some()
    }
}

/// The latest build of a repository: its status and number, each in the JSON
/// text the server used for it.
pub struct Build {
    pub status: String,
    pub number: String,
}

/// Whether a build status is the running one.
pub open spec fn is_running(status: Seq<char>) -> bool {
    status == RUNNING@
}

/// The build that the `status` and `number` members of a server answer make up:
/// none without a status, an error with a status but no number.
pub open spec fn build_of(status: Option<String>, number: Option<String>) -> Result<Option<Build>, ApiError> {
    match status {
        None => Ok(None),
        Some(s) => match number {
            None => Err(ApiError::MissingNumber),
            Some(n) => Ok(Some(Build { status: s, number: n })),
        },
    }
}

/// Puts a build together from the texts of the `status` and `number` members.
pub fn build_from_fields(status: Option<String>, number: Option<String>) -> (r: Result<Option<Build>, ApiError>)
    ensures
        r == build_of(status, number),
{
    match status {
        None => Ok(None),
        Some(s) => match number {
            None => Err(ApiError::MissingNumber),
            Some(n) => Ok(Some(Build { status: s, number: n })),
        },
    }
}

/// The JSON text of the member `key` of `v`, if it has one.
pub open spec fn member_text_of(v: serde_json::Value, key: Seq<char>) -> Option<Seq<char>> {
    match member_of(v, key) {
        Some(m) => Some(text_of(m)),
        None => None,
    }
}

/// The JSON text of the member `key` of `v`, if it has one.
fn member_text(v: &serde_json::Value, key: &str) -> (r: Option<String>)
    ensures
        r is Some <==> member_text_of(*v, key@) is Some,
        r is Some ==> r->Some_0@ == member_text_of(*v, key@)->Some_0,
{
    match json_member(v, key) {
        Some(m) => Some(json_text(m)),
        None => None,
    }
}

/// The text of the `status` member of a server answer.
pub open spec fn status_text(v: serde_json::Value) -> Option<Seq<char>> {
    member_text_of(v, "status"@)
}

/// The text of the `number` member of a server answer.
pub open spec fn number_text(v: serde_json::Value) -> Option<Seq<char>> {
    member_text_of(v, "number"@)
}

/// Reads the latest build out of the server's answer: none when it has no
/// `status` member, which is how the server says that there is no build yet;
/// an error when it has a status but no number.
pub fn extract_build(latest_res: &serde_json::Value) -> (r: Result<Option<Build>, ApiError>)
    ensures
        status_text(*latest_res) is None ==> r == Ok::<Option<Build>, ApiError>(None),
        status_text(*latest_res) is Some && number_text(*latest_res) is None ==> r == Err::<
            Option<Build>,
            ApiError,
        >(ApiError::MissingNumber),
        status_text(*latest_res) is Some && number_text(*latest_res) is Some ==> {
            &&& r is Ok
            &&& r->Ok_0 is Some
            &&& r->Ok_0->Some_0.status@ == status_text(*latest_res)->Some_0
            &&& r->Ok_0->Some_0.number@ == number_text(*latest_res)->Some_0
        },
{
    let status = member_text(latest_res, "status");
    let number = member_text(latest_res, "number");
    build_from_fields(status, number)
}

/// The latest build as a list: `[status, number]`, or empty when there is none.
pub fn get_latest_build(latest_res: &serde_json::Value) -> (r: Result<Vec<String>, ApiError>)
    ensures
        status_text(*latest_res) is None ==> r is Ok && r->Ok_0@.len() == 0,
        status_text(*latest_res) is Some && number_text(*latest_res) is None ==> r == Err::<
            Vec<String>,
            ApiError,
        >(ApiError::MissingNumber),
        status_text(*latest_res) is Some && number_text(*latest_res) is Some ==> {
            &&& r is Ok
            &&& r->Ok_0@.len() == 2
            &&& r->Ok_0@[0]@ == status_text(*latest_res)->Some_0
            &&& r->Ok_0@[1]@ == number_text(*latest_res)->Some_0
        },
{
    match extract_build(latest_res) {
        Ok(Some(b)) => {
            let mut v: Vec<String> = Vec::new();
            v.push(b.status);
            v.push(b.number);
            Ok(v)
        },
        Ok(None) => Ok(Vec::new()),
        Err(e) => Err(e),
    }
}

/// `t` without one pair of surrounding quote characters, if it has them.
pub open spec fn unquoted(t: Seq<char>) -> Seq<char> {
    if t.len() >= 2 && t[0] == '"' && t[t.len() - 1] == '"' {
        t.subrange(1, t.len() - 1)
    } else {
        t
    }
}

/// Drops one pair of quote characters around `t`, the way a JSON string's
/// text holds them.
pub fn unquote(t: &str) -> (r: String)
    ensures
        r@ == unquoted(t@),
{
    let n = t.unicode_len();
    if n >= 2 && t.get_char(0) == '"' && t.get_char(n - 1) == '"' {
        t.substring_char(1, n - 1).to_owned()
    } else {
        t.to_owned()
    }
}

/// The number of the build to cancel, without its quotes: that of the latest
/// build when it runs; none when there is no build, it does not run, or it
/// could not be read.
pub fn running_build_number(latest: &Result<Option<Build>, ApiError>) -> (r: Option<String>)
    ensures
        r is Some <==> (latest is Ok && latest->Ok_0 is Some && is_running(latest->Ok_0->Some_0.status@)),
        r is Some ==> r->Some_0@ == unquoted(latest->Ok_0->Some_0.number@),
{
    match latest {
        Ok(Some(b)) => {
            let running = RUNNING.to_owned();
            if b.status == running {
                Some(unquote(b.number.as_str()))
            } else {
                None
            }
        },
        _ => None,
    }
}

} // verus!
