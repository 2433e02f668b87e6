//! The decisions behind a few request handlers: which users are accepted,
//! how fetched posts are summarised, what a batch of lookups amounts to and
//! where a bearer token starts.

use crate::text::{chars_of, len_in_bytes};
use vstd::prelude::*;
use vstd::string::{StrSliceExecFns, StringExecFns, StringSliceAdditionalSpecFns};
use vstd::utf8::{decode_utf8, encode_utf8, is_char_boundary};

verus! {

/// The outcome reported for a request.
#[derive(Debug, PartialEq, Eq, Structural, Clone, Copy)]
pub enum Status {
    Created,
    BadRequest,
}

/// A user as sent by a client.
pub struct User {
    pub name: String,
    pub age: u32,
}

/// The longest name, in bytes, that is accepted.
pub const MAX_NAME_LEN: usize = 32;

/// The lowest age that is accepted.
pub const MIN_AGE: u32 = 16;

/// Whether `user` passes validation: a name of at most [`MAX_NAME_LEN`]
/// bytes and an age of at least [`MIN_AGE`].
pub open spec fn acceptable(user: User) -> bool {
    len_in_bytes(user.name@) <= MAX_NAME_LEN && user.age >= MIN_AGE
}

/// Accepts `user` or refuses it as a bad request, as [`acceptable`] has it.
pub fn validate(user: &User) -> (r: Result<(), Status>)
    ensures
        r is Ok <==> acceptable(*user),
        r matches Err(status) ==> status == Status::BadRequest,
{
    if user.name.as_str().len() > MAX_NAME_LEN {
        return Err(Status::BadRequest);
    }
    if user.age < MIN_AGE {
        return Err(Status::BadRequest);
    }
    Ok(())
}

/// Validates `user` and, if it passes, stores it with `save` and reports
/// what `save` returned as created. A user that fails is never handed to
/// `save`.
pub fn users<R, F: FnOnce(User) -> R>(user: User, save: F) -> (r: Result<(Status, R), Status>)
    requires
        acceptable(user) ==> call_requires(save, (user,)),
    ensures
        r is Ok <==> acceptable(user),
        r matches Ok((status, record)) ==> status == Status::Created && call_ensures(
            save,
            (user,),
            record,
        ),
        r matches Err(status) ==> status == Status::BadRequest,
{
    match validate(&user) {
        Err(status) => Err(status),
        Ok(()) => {
            let record = save(user);
            Ok((Status::Created, record))
        },
    }
}

/// A post as fetched.
pub struct Post {
    pub user_id: i32,
    pub id: i32,
    pub title: String,
    pub body: String,
}

/// A post as handed on: its title, a summary of its body and the body's
/// length in bytes.
pub struct PostSummary {
    pub id: i32,
    pub title: String,
    pub summary: String,
    pub full_len: usize,
}

/// The most posts that are handed on.
pub const MAX_POSTS: usize = 5;

/// The most bytes of a body that its summary keeps.
pub const SUMMARY_LEN: usize = 50;

/// Whether a body can be cut after [`SUMMARY_LEN`] bytes: it is no longer
/// than that, or no character straddles the cut.
pub open spec fn can_cut(body: Seq<char>) -> bool {
    len_in_bytes(body) > SUMMARY_LEN ==> is_char_boundary(encode_utf8(body), SUMMARY_LEN as int)
}

/// Computes [`can_cut`].
pub fn can_summarize(body: &str) -> (b: bool)
    ensures
        b == can_cut(body@),
{
    body.len() <= SUMMARY_LEN || body.is_char_boundary(SUMMARY_LEN)
}

/// The summary of a body: the body itself if it has at most [`SUMMARY_LEN`]
/// bytes, and otherwise its first [`SUMMARY_LEN`] bytes followed by three
/// dots.
pub open spec fn summary_of(body: Seq<char>) -> Seq<char> {
    if len_in_bytes(body) > SUMMARY_LEN {
        decode_utf8(encode_utf8(body).subrange(0, SUMMARY_LEN as int)) + "..."@
    } else {
        body
    }
}

/// Computes [`summary_of`].
pub fn summarize(body: &str) -> (summary: String)
    requires
        can_cut(body@),
    ensures
        summary@ == summary_of(body@),
{
    broadcast use vstd::utf8::encode_utf8_decode_utf8;

    if body.len() > SUMMARY_LEN {
        let (head, _) = body.split_at(SUMMARY_LEN);
        assert(head@ == decode_utf8(encode_utf8(head@)));
        let mut summary = head.to_owned();
        summary.append("...");
        summary
    } else {
        body.to_owned()
    }
}

/// What [`summarize_posts`] makes of one post.
pub open spec fn summarized(post: Post, out: PostSummary) -> bool {
    &&& out.id == post.id
    &&& out.title@ == post.title@
    &&& out.summary@ == summary_of(post.body@)
    &&& out.full_len == len_in_bytes(post.body@)
}

/// Hands on the first [`MAX_POSTS`] posts, each with its summary.
pub fn summarize_posts(posts: Vec<Post>) -> (out: Vec<PostSummary>)
    requires
        forall|i: int|
            0 <= i < posts@.len() && i < MAX_POSTS ==> can_cut((#[trigger] posts@[i]).body@),
    ensures
        out@.len() == if posts@.len() < MAX_POSTS {
            posts@.len()
        } else {
            MAX_POSTS as nat
        },
        forall|i: int| 0 <= i < out@.len() ==> summarized(posts@[i], #[trigger] out@[i]),
{
    let mut out: Vec<PostSummary> = Vec::new();
    let mut i: usize = 0;
    while i < posts.len() && i < MAX_POSTS
        invariant
            i <= posts.len(),
            i <= MAX_POSTS,
            out@.len() == i,
            forall|k: int|
                0 <= k < posts@.len() && k < MAX_POSTS ==> can_cut((#[trigger] posts@[k]).body@),
            forall|k: int| 0 <= k < i ==> summarized(posts@[k], #[trigger] out@[k]),
        decreases posts.len() - i,
    {
        let post = &posts[i];
        let summary = summarize(post.body.as_str());
        out.push(
            PostSummary {
                id: post.id,
                title: post.title.clone(),
                summary,
                full_len: post.body.as_str().len(),
            },
        );
        i += 1;
    }
    out
}

/// What came of fetching the posts.
pub enum FetchOutcome {
    /// The service could not be reached; the text says why.
    ConnectFailed(String),
    /// The service answered, but not with posts; the text says what was
    /// wrong.
    ParseFailed(String),
    /// The service answered with these posts.
    Fetched(Vec<Post>),
}

/// The answer to a request for the posts.
pub enum PostsAnswer {
    /// The summaries and their number, to be sent with `status`.
    Posts { status: u16, total: usize, posts: Vec<PostSummary> },
    /// What went wrong and the detail of it, to be sent with `status`.
    Failure { status: u16, error: String, details: String },
}

/// The status of an answer that holds the posts.
pub const STATUS_OK: u16 = 200;

/// The status of an answer to a fetch whose reply could not be read.
pub const STATUS_INTERNAL_SERVER_ERROR: u16 = 500;

/// The status of an answer to a fetch that did not reach the service.
pub const STATUS_BAD_GATEWAY: u16 = 502;

/// Whether `answer` is a failure with this status, message and details.
pub open spec fn is_failure(
    answer: PostsAnswer,
    status: u16,
    error: Seq<char>,
    details: Seq<char>,
) -> bool {
    answer matches PostsAnswer::Failure { status: s, error: e, details: d } && s == status && e@
        == error && d@ == details
}

/// Whether `answer` holds, with status 200, the summaries of the first
/// [`MAX_POSTS`] of `fetched` and their number.
pub open spec fn holds_summaries(answer: PostsAnswer, fetched: Seq<Post>) -> bool {
    &&& answer matches PostsAnswer::Posts { status, total, posts }
    &&& status == STATUS_OK
    &&& total == posts@.len()
    &&& posts@.len() == if fetched.len() < MAX_POSTS {
        fetched.len()
    } else {
        MAX_POSTS as nat
    }
    &&& forall|i: int| 0 <= i < posts@.len() ==> summarized(fetched[i], #[trigger] posts@[i])
}

/// Whether `answer` is the answer owed for `outcome`: the summaries of the
/// first posts with status 200; status 502 and its message for a service
/// that could not be reached; status 500 and its message for a reply that
/// could not be read. A failure hands the cause on as its details.
pub open spec fn answers(outcome: FetchOutcome, answer: PostsAnswer) -> bool {
    match outcome {
        FetchOutcome::ConnectFailed(cause) => is_failure(
            answer,
            STATUS_BAD_GATEWAY,
            "Falha ao conectar com API externa"@,
            cause@,
        ),
        FetchOutcome::ParseFailed(cause) => is_failure(
            answer,
            STATUS_INTERNAL_SERVER_ERROR,
            "Falha ao processar resposta da API"@,
            cause@,
        ),
        FetchOutcome::Fetched(fetched) => holds_summaries(answer, fetched@),
    }
}

/// The answer to a request for the posts, given what came of fetching
/// them.
pub fn answer_posts(outcome: FetchOutcome) -> (answer: PostsAnswer)
    requires
        outcome matches FetchOutcome::Fetched(fetched) ==> forall|i: int|
            0 <= i < fetched@.len() && i < MAX_POSTS ==> can_cut((#[trigger] fetched@[i]).body@),
    ensures
        answers(outcome, answer),
{
    match outcome {
        FetchOutcome::ConnectFailed(cause) => PostsAnswer::Failure {
            status: STATUS_BAD_GATEWAY,
            error: "Falha ao conectar com API externa".to_owned(),
            details: cause,
        },
        FetchOutcome::ParseFailed(cause) => PostsAnswer::Failure {
            status: STATUS_INTERNAL_SERVER_ERROR,
            error: "Falha ao processar resposta da API".to_owned(),
            details: cause,
        },
        FetchOutcome::Fetched(fetched) => {
            let posts = summarize_posts(fetched);
            PostsAnswer::Posts { status: STATUS_OK, total: posts.len(), posts }
        },
    }
}

/// The number of failures among `results`.
pub open spec fn failures<T, E>(results: Seq<Result<T, E>>) -> nat
    decreases results.len(),
{
    if results.len() == 0 {
        0
    } else {
        failures(results.drop_last()) + if results.last() is Err {
            1nat
        } else {
            0nat
        }
    }
}

/// The values of the successes among `results`, in order.
pub open spec fn successes<T, E>(results: Seq<Result<T, E>>) -> Seq<T>
    decreases results.len(),
{
    if results.len() == 0 {
        Seq::empty()
    } else {
        match results.last() {
            Ok(value) => successes(results.drop_last()).push(value),
            Err(_) => successes(results.drop_last()),
        }
    }
}

/// Sums up a batch of lookups: all the values if every lookup succeeded,
/// and the number of failures otherwise.
pub fn collect_batch<T, E>(results: Vec<Result<T, E>>) -> (r: Result<Vec<T>, usize>)
    ensures
        failures(results@) == 0 ==> (r matches Ok(values) && values@ == successes(results@)),
        failures(results@) > 0 ==> (r matches Err(count) && count == failures(results@)),
{
    let ghost all = results@;
    let limit = results.len();
    let mut values: Vec<T> = Vec::new();
    let mut count: usize = 0;
    for result in it: results
        invariant
            it.seq() == all,
            all.len() == limit,
            values@ == successes(all.subrange(0, it.index() as int)),
            count == failures(all.subrange(0, it.index() as int)),
            count <= it.index(),
    {
        proof {
            assert(it.index() < all.len());
            let now = all.subrange(0, it.index() + 1);
            assert(now.drop_last() =~= all.subrange(0, it.index() as int));
            assert(now.last() == result);
        }
        match result {
            Ok(value) => values.push(value),
            Err(_) => count += 1,
        }
    }
    assert(all.subrange(0, all.len() as int) =~= all);
    if count > 0 {
        Err(count)
    } else {
        Ok(values)
    }
}

/// `s` without any leading repetitions of `prefix`.
pub open spec fn strip_repeated(s: Seq<char>, prefix: Seq<char>) -> Seq<char>
    decreases s.len(),
{
    if prefix.len() > 0 && prefix.is_prefix_of(s) {
        strip_repeated(s.skip(prefix.len() as int), prefix)
    } else {
        s
    }
}

/// Computes [`strip_repeated`] as a slice of `s`.
pub fn trim_start_matches<'a>(s: &'a str, prefix: &str) -> (rest: &'a str)
    ensures
        rest@ == strip_repeated(s@, prefix@),
{
    let chars = chars_of(s);
    let pre = chars_of(prefix);
    let n = chars.len();
    let m = pre.len();
    let mut start: usize = 0;
    assert(s@.skip(0) =~= s@);
    if m > 0 {
        loop
            invariant_except_break
                n == chars.len(),
                m == pre.len(),
                m > 0,
                chars@ == s@,
                pre@ == prefix@,
                start <= n,
                strip_repeated(s@, prefix@) == strip_repeated(s@.skip(start as int), prefix@),
            ensures
                start <= n,
                strip_repeated(s@, prefix@) == s@.skip(start as int),
            decreases n - start,
        {
            let ghost rest = s@.skip(start as int);
            if n - start < m {
                break;
            }
            let mut j: usize = 0;
            while j < m && chars[start + j] == pre[j]
                invariant
                    n == chars.len(),
                    m == pre.len(),
                    start + m <= n,
                    j <= m,
                    chars@ == s@,
                    pre@ == prefix@,
                    rest == s@.skip(start as int),
                    forall|k: int| 0 <= k < j ==> rest[k] == prefix@[k],
                decreases m - j,
            {
                j += 1;
            }
            if j < m {
                assert(rest[j as int] != prefix@[j as int]);
                assert(!prefix@.is_prefix_of(rest)) by {
                    if prefix@.is_prefix_of(rest) {
                        assert(rest.subrange(0, m as int)[j as int] == prefix@[j as int]);
                    }
                }
                break;
            }
            assert(prefix@ =~= rest.subrange(0, m as int));
            assert(rest.skip(m as int) =~= s@.skip(start + m));
            start = start + m;
        }
    }
    assert(s@.skip(start as int) =~= s@.subrange(start as int, n as int));
    s.substring_char(start, n)
}

/// The token in an `Authorization` header: what follows the leading
/// `Bearer `. `header` is `None` where the request has no such header.
pub fn bearer_token<'a>(header: Option<&'a str>) -> (r: Result<&'a str, String>)
    ensures
        match header {
            None => r matches Err(message) && message@ == "Missing auth header"@,
            Some(text) => r matches Ok(token) && token@ == strip_repeated(text@, "Bearer "@),
        },
{
    match header {
        None => Err("Missing auth header".to_owned()),
        Some(text) => Ok(trim_start_matches(text, "Bearer ")),
    }
}

/// What can go wrong while a worker fetches. A transport failure is carried
/// as its text.
pub enum AppError {
    Http(String),
    InvalidInput(String),
}

impl AppError {
    /// The error in words. A transport failure is not spelled out.
    pub open spec fn spec_message(self) -> Seq<char> {
        match self {
            AppError::Http(_) => "http error"@,
            AppError::InvalidInput(input) => "invalid input: "@ + input@,
        }
    }

    /// Computes [`AppError::spec_message`].
    pub fn message(&self) -> (text: String)
        ensures
            text@ == self.spec_message(),
    {
        match self {
            AppError::Http(_) => "http error".to_owned(),
            AppError::InvalidInput(input) => {
                let mut text = "invalid input: ".to_owned();
                text.append(input.as_str());
                text
            },
        }
    }
}

/// Counts the requests served.
pub struct Stats {
    pub requests: u64,
}

impl Stats {
    /// Counts one more request. The count must not be at its largest value.
    pub fn increment(&mut self)
        requires
            old(self).requests < u64::MAX,
        ensures
            final(self).requests == old(self).requests + 1,
    {
        self.requests += 1;
    }
}

} // verus!
