//! The decisions of a caching client for a user service: whether a lookup
//! is answered from the cache, what a reply amounts to, and what a batch or
//! a set of concurrent lookups comes to. Sending, waiting and decoding are
//! the caller's.

use crate::text::{decimal, decimal_string};
use crate::web::{collect_batch, failures, successes};
use vstd::prelude::*;
use vstd::string::StringExecFns;

verus! {

/// A user as the service describes it.
pub struct User {
    pub id: u32,
    pub name: String,
    pub email: String,
    pub active: bool,
}

/// The key under which user `id` is cached.
pub open spec fn cache_key_of(id: u32) -> Seq<char> {
    "user:"@ + decimal(id as nat)
}

/// Computes [`cache_key_of`].
pub fn cache_key(id: u32) -> (key: String)
    ensures
        key@ == cache_key_of(id),
{
    let mut key = "user:".to_owned();
    key.append(decimal_string(id as u64).as_str());
    key
}

/// The address from which user `id` is fetched.
pub open spec fn user_url(base_url: Seq<char>, id: u32) -> Seq<char> {
    base_url + "/users/"@ + decimal(id as nat)
}

/// How a lookup goes on.
pub enum LookupStep {
    /// The cache holds the user: the lookup is answered.
    Cached(User),
    /// The cache does not hold the user: fetch it from this address.
    Fetch(String),
}

/// Decides how the lookup of user `id` goes on, given what the cache holds
/// under the user's key.
pub fn lookup_step(cached: Option<User>, base_url: &str, id: u32) -> (step: LookupStep)
    ensures
        match cached {
            Some(user) => step == LookupStep::Cached(user),
            None => step matches LookupStep::Fetch(url) && url@ == user_url(base_url@, id),
        },
{
    match cached {
        Some(user) => LookupStep::Cached(user),
        None => {
            let mut url = base_url.to_owned();
            url.append("/users/");
            url.append(decimal_string(id as u64).as_str());
            LookupStep::Fetch(url)
        },
    }
}

/// What came of fetching a user.
pub enum Reply {
    /// No answer came in time.
    TimedOut,
    /// The request could not be sent.
    SendFailed,
    /// The service answered with this status and body. `status_text` is the
    /// status as it is shown to people; `parsed` is the user that the body
    /// describes, if it describes one.
    Answered { status: u16, status_text: String, body: String, parsed: Option<User> },
}

/// Whether `status` reports success: 200 to 299.
pub open spec fn is_success(status: u16) -> bool {
    200 <= status <= 299
}

/// What a fetch of user `id` amounts to: why it failed, or the user
/// together with the key under which it is to be cached. Only a user that
/// was fetched and decoded is cached.
pub open spec fn lookup_outcome(id: u32, reply: Reply) -> Result<(Seq<char>, User), Seq<char>> {
    match reply {
        Reply::TimedOut => Err("Request timeout"@),
        Reply::SendFailed => Err("Failed to send request"@),
        Reply::Answered { status, status_text, body, parsed } => if !is_success(status) {
            Err("HTTP "@ + status_text@ + ": "@ + body@)
        } else {
            match parsed {
                None => Err("Failed to parse JSON response"@),
                Some(user) => Ok((cache_key_of(id), user)),
            }
        },
    }
}

/// Computes [`lookup_outcome`].
pub fn lookup_result(id: u32, reply: Reply) -> (r: Result<(String, User), String>)
    ensures
        match lookup_outcome(id, reply) {
            Ok((key, user)) => r matches Ok((k, u)) && k@ == key && u == user,
            Err(message) => r matches Err(m) && m@ == message,
        },
{
    match reply {
        Reply::TimedOut => Err("Request timeout".to_owned()),
        Reply::SendFailed => Err("Failed to send request".to_owned()),
        Reply::Answered { status, status_text, body, parsed } => {
            if status < 200 || status > 299 {
                let mut message = "HTTP ".to_owned();
                message.append(status_text.as_str());
                message.append(": ");
                message.append(body.as_str());
                Err(message)
            } else {
                match parsed {
                    None => Err("Failed to parse JSON response".to_owned()),
                    Some(user) => Ok((cache_key(id), user)),
                }
            }
        },
    }
}

/// What is said of a batch in which `count` lookups failed.
pub open spec fn batch_error(count: nat) -> Seq<char> {
    "Batch request had "@ + decimal(count) + " errors"@
}

/// Sums up a batch of lookups: all the values, in order, if every lookup
/// succeeded, and otherwise a message that counts the failures.
pub fn get_users_batch<T, E>(results: Vec<Result<T, E>>) -> (r: Result<Vec<T>, String>)
    ensures
        failures(results@) == 0 ==> (r matches Ok(values) && values@ == successes(results@)),
        failures(results@) > 0 ==> (r matches Err(message) && message@ == batch_error(
            failures(results@),
        )),
{
    match collect_batch(results) {
        Ok(values) => Ok(values),
        Err(count) => {
            let mut message = "Batch request had ".to_owned();
            message.append(decimal_string(count as u64).as_str());
            message.append(" errors");
            Err(message)
        },
    }
}

/// What came of one of several lookups made side by side.
pub enum Fetched<T> {
    /// The lookup found this value.
    Found(T),
    /// The lookup failed, for the reason given.
    Failed(String),
    /// The lookup did not finish in time.
    TimedOut,
}

/// What is reported for a lookup that found nothing: its reason, or
/// `Timeout`.
pub open spec fn fault_of<T>(outcome: Fetched<T>) -> Option<Seq<char>> {
    match outcome {
        Fetched::Found(_) => None,
        Fetched::Failed(reason) => Some(reason@),
        Fetched::TimedOut => Some("Timeout"@),
    }
}

/// The fault of the first lookup of `outcomes` that found nothing.
pub open spec fn first_fault<T>(outcomes: Seq<Fetched<T>>) -> Option<Seq<char>>
    decreases outcomes.len(),
{
    if outcomes.len() == 0 {
        None
    } else if fault_of(outcomes[0]) is Some {
        fault_of(outcomes[0])
    } else {
        first_fault(outcomes.drop_first())
    }
}

/// Joins lookups made side by side: all the values, one for each lookup
/// and in the order given, if every lookup found one, and otherwise the
/// fault of the first that did not.
pub fn join_lookups<T>(outcomes: Vec<Fetched<T>>) -> (r: Result<Vec<T>, String>)
    ensures
        match first_fault(outcomes@) {
            Some(fault) => r matches Err(message) && message@ == fault,
            None => r matches Ok(values) && values@.len() == outcomes@.len() && forall|i: int|
                0 <= i < values@.len() ==> outcomes@[i] == Fetched::Found(#[trigger] values@[i]),
        },
{
    let ghost all = outcomes@;
    let mut values: Vec<T> = Vec::new();
    let mut fault: Option<String> = None;
    assert(all.skip(0) =~= all);
    for outcome in it: outcomes
        invariant
            it.seq() == all,
            fault is None ==> first_fault(all) == first_fault(all.skip(it.index() as int)),
            fault is None ==> values@.len() == it.index(),
            fault is None ==> forall|i: int|
                0 <= i < values@.len() ==> all[i] == Fetched::Found(#[trigger] values@[i]),
            fault matches Some(text) ==> first_fault(all) == Some(text@),
    {
        proof {
            let rest = all.skip(it.index() as int);
            assert(rest[0] == outcome);
            assert(rest.drop_first() =~= all.skip(it.index() + 1));
        }
        if fault.is_none() {
            match outcome {
                Fetched::Found(value) => {
                    values.push(value);
                },
                Fetched::Failed(reason) => {
                    fault = Some(reason);
                },
                Fetched::TimedOut => {
                    fault = Some("Timeout".to_owned());
                },
            }
        }
    }
    match fault {
        Some(text) => Err(text),
        None => {
            assert(all.skip(all.len() as int).len() == 0);
            Ok(values)
        },
    }
}

} // verus!
