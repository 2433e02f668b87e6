use refreshers::web::{
    answer_posts, bearer_token, can_summarize, collect_batch, summarize, summarize_posts, trim_start_matches,
    users, validate, AppError, FetchOutcome, Post, PostsAnswer, Stats, Status, User, MAX_NAME_LEN, MAX_POSTS, MIN_AGE,
    SUMMARY_LEN,
};

fn user(name: &str, age: u32) -> User {
    User { name: name.to_string(), age }
}

#[test]
fn limits() {
    assert_eq!(MAX_NAME_LEN, 32);
    assert_eq!(MIN_AGE, 16);
    assert_eq!(MAX_POSTS, 5);
    assert_eq!(SUMMARY_LEN, 50);
}

#[test]
fn validate_name_length_and_age() {
    assert_eq!(validate(&user("Ann", 16)), Ok(()));
    assert_eq!(validate(&user(&"n".repeat(32), 99)), Ok(()));
    assert_eq!(validate(&user(&"n".repeat(33), 99)), Err(Status::BadRequest));
    assert_eq!(validate(&user(&"é".repeat(17), 99)), Err(Status::BadRequest));
    assert_eq!(validate(&user("Ann", 15)), Err(Status::BadRequest));
    assert_eq!(validate(&user("", 16)), Ok(()));
}

#[test]
fn users_saves_only_valid_users() {
    let mut saved: Vec<(String, u32)> = Vec::new();
    let outcome = users(user("Ann", 20), |u| {
        saved.push((u.name, u.age));
        saved.len()
    });
    assert_eq!(outcome, Ok((Status::Created, 1)));
    let outcome = users(user("Kid", 15), |u| {
        saved.push((u.name, u.age));
        saved.len()
    });
    assert_eq!(outcome, Err(Status::BadRequest));
    let outcome = users(user(&"x".repeat(33), 20), |u| {
        saved.push((u.name, u.age));
        saved.len()
    });
    assert_eq!(outcome, Err(Status::BadRequest));
    assert_eq!(saved, vec![("Ann".to_string(), 20)]);
}

#[test]
fn summarize_cuts_after_fifty_bytes() {
    let fifty = "a".repeat(50);
    assert_eq!(summarize(&fifty), fifty);
    assert_eq!(summarize(&"a".repeat(51)), format!("{}...", fifty));
    assert_eq!(summarize(""), "");
    assert_eq!(summarize("short body"), "short body");
    let accented = "é".repeat(26);
    assert_eq!(summarize(&accented), format!("{}...", "é".repeat(25)));
}

#[test]
fn can_summarize_wants_a_whole_character_at_the_cut() {
    assert!(can_summarize(""));
    assert!(can_summarize(&"a".repeat(50)));
    assert!(can_summarize(&"a".repeat(500)));
    assert!(can_summarize(&"é".repeat(25)));
    assert!(can_summarize(&"é".repeat(26)));
    assert!(!can_summarize(&format!("a{}", "é".repeat(25))));
    assert!(!can_summarize(&format!("{}é", "a".repeat(49))));
    assert!(can_summarize(&format!("{}é", "a".repeat(50))));
}

fn post(id: i32, body: &str) -> Post {
    Post { user_id: 1, id, title: format!("title {}", id), body: body.to_string() }
}

#[test]
fn summarize_posts_keeps_first_five() {
    let long = "b".repeat(80);
    let posts: Vec<Post> = (1..=7).map(|id| post(id, if id % 2 == 0 { &long } else { "tiny" })).collect();
    let out = summarize_posts(posts);
    assert_eq!(out.len(), 5);
    for (k, p) in out.iter().enumerate() {
        assert_eq!(p.id, k as i32 + 1);
        assert_eq!(p.title, format!("title {}", k + 1));
    }
    assert_eq!(out[0].summary, "tiny");
    assert_eq!(out[0].full_len, 4);
    assert_eq!(out[1].summary, format!("{}...", "b".repeat(50)));
    assert_eq!(out[1].full_len, 80);
}

#[test]
fn summarize_posts_of_few_or_none() {
    assert!(summarize_posts(Vec::new()).is_empty());
    let out = summarize_posts(vec![post(9, "only")]);
    assert_eq!(out.len(), 1);
    assert_eq!(out[0].id, 9);
    assert_eq!(out[0].summary, "only");
}

#[test]
fn collect_batch_all_or_count() {
    let all: Vec<Result<u8, &str>> = vec![Ok(1), Ok(2), Ok(3)];
    assert_eq!(collect_batch(all), Ok(vec![1, 2, 3]));
    let some: Vec<Result<u8, &str>> = vec![Ok(1), Err("a"), Ok(3), Err("b")];
    assert_eq!(collect_batch(some), Err(2));
    let none: Vec<Result<u8, &str>> = Vec::new();
    assert_eq!(collect_batch(none), Ok(Vec::new()));
    let bad: Vec<Result<u8, &str>> = vec![Err("only")];
    assert_eq!(collect_batch(bad), Err(1));
}

#[test]
fn trim_start_matches_agrees_with_std() {
    for (text, prefix) in [
        ("Bearer abc", "Bearer "),
        ("Bearer Bearer abc", "Bearer "),
        ("abc", "Bearer "),
        ("Bearer", "Bearer "),
        ("", "Bearer "),
        ("aaa", "a"),
        ("aaab", "aa"),
        ("abc", ""),
        ("ééx", "é"),
    ] {
        assert_eq!(trim_start_matches(text, prefix), text.trim_start_matches(prefix));
    }
}

#[test]
fn bearer_token_needs_a_header() {
    assert_eq!(bearer_token(None), Err("Missing auth header".to_string()));
    assert_eq!(bearer_token(Some("Bearer t0k3n")), Ok("t0k3n"));
    assert_eq!(bearer_token(Some("t0k3n")), Ok("t0k3n"));
    assert_eq!(bearer_token(Some("Bearer Bearer x")), Ok("x"));
    assert_eq!(bearer_token(Some("bearer x")), Ok("bearer x"));
}

#[test]
fn stats_increment_counts_one() {
    let mut stats = Stats { requests: 0 };
    stats.increment();
    stats.increment();
    assert_eq!(stats.requests, 2);
    let mut near = Stats { requests: u64::MAX - 1 };
    near.increment();
    assert_eq!(near.requests, u64::MAX);
}

#[test]
fn app_error_messages_hide_transport_detail() {
    assert_eq!(AppError::Http("connection reset".to_string()).message(), "http error");
    assert_eq!(AppError::InvalidInput("id".to_string()).message(), "invalid input: id");
    assert_eq!(AppError::InvalidInput(String::new()).message(), "invalid input: ");
}

#[test]
fn answer_posts_when_the_service_cannot_be_reached() {
    match answer_posts(FetchOutcome::ConnectFailed("connection refused".to_string())) {
        PostsAnswer::Failure { status, error, details } => {
            assert_eq!(status, 502);
            assert_eq!(error, "Falha ao conectar com API externa");
            assert_eq!(details, "connection refused");
        }
        PostsAnswer::Posts { .. } => panic!("nothing was fetched"),
    }
}

#[test]
fn answer_posts_when_the_reply_cannot_be_read() {
    match answer_posts(FetchOutcome::ParseFailed("expected value at line 1".to_string())) {
        PostsAnswer::Failure { status, error, details } => {
            assert_eq!(status, 500);
            assert_eq!(error, "Falha ao processar resposta da API");
            assert_eq!(details, "expected value at line 1");
        }
        PostsAnswer::Posts { .. } => panic!("nothing was fetched"),
    }
}

#[test]
fn answer_posts_counts_the_summaries() {
    let fetched: Vec<Post> = (1..=8).map(|id| post(id, "body")).collect();
    match answer_posts(FetchOutcome::Fetched(fetched)) {
        PostsAnswer::Posts { status, total, posts } => {
            assert_eq!(status, 200);
            assert_eq!(total, 5);
            assert_eq!(posts.len(), 5);
            assert_eq!(posts[4].id, 5);
            assert_eq!(posts[4].summary, "body");
        }
        PostsAnswer::Failure { .. } => panic!("the posts were fetched"),
    }
    match answer_posts(FetchOutcome::Fetched(Vec::new())) {
        PostsAnswer::Posts { status, total, posts } => {
            assert_eq!((status, total, posts.len()), (200, 0, 0));
        }
        PostsAnswer::Failure { .. } => panic!("an empty list is an answer too"),
    }
}
