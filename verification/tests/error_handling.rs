use refreshers::error_handling::{
    also_valid, compute_length, find_port, get_first_char, get_first_char_manual, get_port,
    get_user_name, handle_result, parse_and_double, parse_and_validate, parse_port,
    validate_user, AppError, ApplicationError, ConfigError, DataError, ProcessingError, User,
};

#[test]
fn find_port_knows_prod_only() {
    assert_eq!(find_port("prod"), Some(443));
    assert_eq!(find_port("dev"), None);
    assert_eq!(find_port(""), None);
    assert_eq!(find_port("production"), None);
    assert_eq!(find_port("Prod"), None);
}

#[test]
fn parse_port_reads_decimal() {
    assert_eq!(parse_port("8080").ok(), Some(8080));
    assert_eq!(parse_port("+80").ok(), Some(80));
    assert_eq!(parse_port("0").ok(), Some(0));
    assert_eq!(parse_port("007").ok(), Some(7));
    assert_eq!(parse_port("65535").ok(), Some(65535));
}

#[test]
fn parse_port_refuses_the_rest() {
    for text in ["", "+", "-1", "65536", "80 ", " 80", "8_0", "0x50", "٣", "++1"] {
        assert!(parse_port(text).is_err());
    }
}

#[test]
fn parse_and_double_doubles() {
    assert_eq!(parse_and_double("42"), Ok(84));
    assert_eq!(parse_and_double("-21"), Ok(-42));
    assert_eq!(parse_and_double("+0"), Ok(0));
    assert_eq!(parse_and_double("-0"), Ok(0));
    assert_eq!(parse_and_double("1073741823"), Ok(2147483646));
    assert_eq!(parse_and_double("-1073741824"), Ok(i32::MIN));
    assert!(parse_and_double("not a number").is_err());
    assert!(parse_and_double("2147483648").is_err());
    assert!(parse_and_double("-").is_err());
}

#[test]
fn get_port_clamps_and_reports() {
    assert!(matches!(get_port(Some("8080")), Ok(8080)));
    assert!(matches!(get_port(Some("0")), Ok(1)));
    assert!(matches!(get_port(Some("65535")), Ok(65535)));
    assert!(matches!(get_port(Some("1")), Ok(1)));
    match get_port(None) {
        Err(ConfigError::MissingKey(key)) => assert_eq!(key, "port"),
        _ => panic!("a missing entry is reported as such"),
    }
    assert!(matches!(get_port(Some("http")), Err(ConfigError::InvalidPort(_))));
    assert!(matches!(get_port(Some("70000")), Err(ConfigError::InvalidPort(_))));
}

#[test]
fn compute_length_counts_bytes_of_either_side() {
    assert_eq!(compute_length(Ok("four".to_string())), 4);
    assert_eq!(compute_length(Err("seven!!".to_string())), 7);
    assert_eq!(compute_length(Ok(String::new())), 0);
    assert_eq!(compute_length(Err("é".to_string())), 2);
}

#[test]
fn parse_and_validate_accepts_zero_to_hundred() {
    assert_eq!(parse_and_validate("0"), Ok(0));
    assert_eq!(parse_and_validate("100"), Ok(100));
    assert_eq!(parse_and_validate("+57"), Ok(57));
    assert_eq!(parse_and_validate("101"), Err("Value out of range".to_string()));
    assert_eq!(parse_and_validate("-1"), Err("Value out of range".to_string()));
}

#[test]
fn parse_and_validate_reports_parse_errors() {
    for text in ["abc", "", "99999999999"] {
        match parse_and_validate(text) {
            Err(message) => {
                assert!(message.starts_with("Parse error: "));
                assert!(message.len() > "Parse error: ".len());
            }
            Ok(_) => panic!("no number is written here"),
        }
    }
}

#[test]
fn get_first_char_is_uppercased() {
    for f in [get_first_char, get_first_char_manual] {
        assert_eq!(f("hello"), Some('H'));
        assert_eq!(f("Hello"), Some('H'));
        assert_eq!(f(""), None);
        assert_eq!(f("1a"), Some('1'));
        assert_eq!(f("éa"), Some('É'));
        assert_eq!(f("ßa"), Some('S'));
    }
}

#[test]
fn also_valid_is_some() {
    assert_eq!(also_valid(), Some(()));
}

#[test]
fn app_error_messages() {
    assert_eq!(AppError::FileNotFound("a.txt".to_string()).message(), "File not found: a.txt");
    assert_eq!(AppError::ParseError("bad".to_string()).message(), "Parse error: bad");
    assert_eq!(
        AppError::ValidationError { field: "age".to_string(), reason: "negative".to_string() }
            .message(),
        "Validation failed for age: negative"
    );
    assert_eq!(AppError::NetworkError(503).message(), "Network error with status: 503");
}

#[test]
fn handle_result_lines() {
    assert_eq!(handle_result(Ok(7)), "Success: 7");
    assert_eq!(handle_result(Ok(-7)), "Success: -7");
    assert_eq!(handle_result(Ok(i32::MIN)), "Success: -2147483648");
    assert_eq!(
        handle_result(Err(AppError::FileNotFound("cfg".to_string()))),
        "Please create file: cfg"
    );
    assert_eq!(
        handle_result(Err(AppError::ParseError("x".to_string()))),
        "Invalid format in config file"
    );
    assert_eq!(
        handle_result(Err(AppError::ValidationError {
            field: "name".to_string(),
            reason: "empty".to_string()
        })),
        "Fix name: empty"
    );
    assert_eq!(handle_result(Err(AppError::NetworkError(404))), "Resource not found");
    assert_eq!(handle_result(Err(AppError::NetworkError(500))), "Network issue, code: 500");
}

#[test]
fn data_error_messages() {
    assert_eq!(DataError::Io("disk full".to_string()).message(), "I/O error: disk full");
    assert_eq!(
        DataError::Parse { line: 12, source: "invalid digit".to_string() }.message(),
        "Parse error at line 12: invalid digit"
    );
    assert_eq!(
        DataError::InvalidData { expected: "u8".to_string(), actual: "str".to_string() }.message(),
        "Invalid data: expected u8, got str"
    );
    assert_eq!(DataError::Timeout(30).message(), "Timeout after 30 seconds");
}

#[test]
fn application_error_messages() {
    assert_eq!(ApplicationError::Config("no port".to_string()).message(), "config error: no port");
    assert_eq!(
        ApplicationError::Database("locked".to_string()).message(),
        "database error: locked"
    );
    assert_eq!(ApplicationError::Other("as it is".to_string()).message(), "as it is");
    assert_eq!(ApplicationError::Internal.message(), "internal error");
    assert_eq!(
        ProcessingError { user_id: 9, source: "timeout".to_string() }.message(),
        "failed to process user 9"
    );
}

fn user(name: &str, email: &str, age: u32) -> User {
    User { name: name.to_string(), email: email.to_string(), age }
}

#[test]
fn validate_user_tests_age_before_email() {
    assert_eq!(validate_user(&user("Ann", "ann@example.com", 13)), Ok(()));
    assert_eq!(
        validate_user(&user("Bob", "bob@example.com", 12)),
        Err("User Bob is too young (age: 12)".to_string())
    );
    assert_eq!(
        validate_user(&user("Cy", "cy.example.com", 40)),
        Err("Invalid email for user Cy".to_string())
    );
    assert_eq!(
        validate_user(&user("Di", "none", 0)),
        Err("User Di is too young (age: 0)".to_string())
    );
    assert_eq!(validate_user(&user("", "@", u32::MAX)), Ok(()));
}

#[test]
fn get_user_name_falls_back() {
    let found: Result<String, u8> = Ok("Ann".to_string());
    assert_eq!(get_user_name(found), "Ann");
    let missing: Result<String, u8> = Err(4);
    assert_eq!(get_user_name(missing), "Unknown User");
    let nameless: Result<String, u8> = Ok(String::new());
    assert_eq!(get_user_name(nameless), "");
}
