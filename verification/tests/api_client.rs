use refreshers::api_client::{
    cache_key, get_users_batch, join_lookups, lookup_result, lookup_step, Fetched, LookupStep,
    Reply, User,
};

fn user(id: u32) -> User {
    User { id, name: format!("user {}", id), email: format!("u{}@example.com", id), active: true }
}

fn answered(status: u16, status_text: &str, body: &str, parsed: Option<User>) -> Reply {
    Reply::Answered {
        status,
        status_text: status_text.to_string(),
        body: body.to_string(),
        parsed,
    }
}

#[test]
fn cache_key_names_the_user() {
    assert_eq!(cache_key(1), "user:1");
    assert_eq!(cache_key(0), "user:0");
    assert_eq!(cache_key(u32::MAX), "user:4294967295");
}

#[test]
fn lookup_step_prefers_the_cache() {
    match lookup_step(Some(user(3)), "https://api.example.com", 3) {
        LookupStep::Cached(found) => {
            assert_eq!(found.id, 3);
            assert_eq!(found.name, "user 3");
            assert_eq!(found.email, "u3@example.com");
            assert!(found.active);
        }
        LookupStep::Fetch(_) => panic!("the cache holds the user"),
    }
}

#[test]
fn lookup_step_fetches_what_the_cache_lacks() {
    match lookup_step(None, "https://api.example.com", 42) {
        LookupStep::Fetch(url) => assert_eq!(url, "https://api.example.com/users/42"),
        LookupStep::Cached(_) => panic!("the cache is empty"),
    }
    match lookup_step(None, "", 0) {
        LookupStep::Fetch(url) => assert_eq!(url, "/users/0"),
        LookupStep::Cached(_) => panic!("the cache is empty"),
    }
}

#[test]
fn lookup_result_of_requests_that_got_no_answer() {
    assert_eq!(lookup_result(1, Reply::TimedOut).err(), Some("Request timeout".to_string()));
    assert_eq!(
        lookup_result(1, Reply::SendFailed).err(),
        Some("Failed to send request".to_string())
    );
}

#[test]
fn lookup_result_reports_statuses_outside_200_to_299() {
    for (status, text) in [(404, "404 Not Found"), (199, "199"), (300, "300 Multiple Choices")] {
        let reply = answered(status, text, "no such user", Some(user(1)));
        assert_eq!(
            lookup_result(1, reply).err(),
            Some(format!("HTTP {}: no such user", text))
        );
    }
    let reply = answered(500, "500 Internal Server Error", "", None);
    assert_eq!(
        lookup_result(1, reply).err(),
        Some("HTTP 500 Internal Server Error: ".to_string())
    );
}

#[test]
fn lookup_result_wants_a_decoded_user() {
    for status in [200, 204, 299] {
        assert_eq!(
            lookup_result(1, answered(status, "", "{}", None)).err(),
            Some("Failed to parse JSON response".to_string())
        );
    }
}

#[test]
fn lookup_result_hands_back_user_and_cache_key() {
    for status in [200, 201, 299] {
        match lookup_result(9, answered(status, "200 OK", "ignored", Some(user(9)))) {
            Ok((key, found)) => {
                assert_eq!(key, "user:9");
                assert_eq!(found.id, 9);
                assert_eq!(found.name, "user 9");
            }
            Err(message) => panic!("{}", message),
        }
    }
}

#[test]
fn get_users_batch_counts_errors_in_words() {
    let all: Vec<Result<u8, &str>> = vec![Ok(1), Ok(2)];
    assert_eq!(get_users_batch(all), Ok(vec![1, 2]));
    let one: Vec<Result<u8, &str>> = vec![Ok(1), Err("x")];
    assert_eq!(get_users_batch(one), Err("Batch request had 1 errors".to_string()));
    let many: Vec<Result<u8, &str>> = (0..12).map(|_| Err("x")).collect();
    assert_eq!(get_users_batch(many), Err("Batch request had 12 errors".to_string()));
    let none: Vec<Result<u8, &str>> = Vec::new();
    assert_eq!(get_users_batch(none), Ok(Vec::new()));
}

#[test]
fn join_lookups_keeps_order_when_all_are_found() {
    let outcomes = vec![Fetched::Found('a'), Fetched::Found('b'), Fetched::Found('c')];
    assert_eq!(join_lookups(outcomes), Ok(vec!['a', 'b', 'c']));
    assert_eq!(join_lookups(Vec::<Fetched<char>>::new()), Ok(Vec::new()));
}

#[test]
fn join_lookups_reports_the_first_fault() {
    let outcomes = vec![
        Fetched::Found(1),
        Fetched::Failed("HTTP 404 Not Found: ".to_string()),
        Fetched::TimedOut,
    ];
    assert_eq!(join_lookups(outcomes), Err("HTTP 404 Not Found: ".to_string()));
    let outcomes = vec![Fetched::TimedOut, Fetched::Failed("later".to_string()), Fetched::Found(1)];
    assert_eq!(join_lookups(outcomes), Err("Timeout".to_string()));
    let outcomes = vec![Fetched::Found(1), Fetched::Found(2), Fetched::TimedOut];
    assert_eq!(join_lookups(outcomes), Err("Timeout".to_string()));
}
