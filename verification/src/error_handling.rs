//! Optional values, results and error types.

use crate::text::{
    char_to_uppercase, char_uppercase, chars_of, contains_char, decimal, decimal_string,
    len_in_bytes, mapping_next, parse_error_text, parse_i32, parse_u16, parsed_i32, parsed_u16,
    signed_decimal, signed_decimal_string, str_eq,
};
use std::num::ParseIntError;
use vstd::prelude::*;
use vstd::string::StringExecFns;

verus! {

/// The port of the environment called `env`: only `prod` has one.
pub fn find_port(env: &str) -> (port: Option<u16>)
    ensures
        port == if env@ == "prod"@ {
            Some(443u16)
        } else {
            None
        },
{
    if str_eq(env, "prod") {
        Some(443)
    } else {
        None
    }
}

/// Reads a port number written in decimal.
pub fn parse_port(s: &str) -> (r: Result<u16, ParseIntError>)
    ensures
        r is Ok <==> parsed_u16(s@) is Some,
        r matches Ok(port) ==> parsed_u16(s@) == Some(port),
{
    parse_u16(s)
}

/// Reads a number written in decimal and doubles it. The double must fit in
/// an `i32`.
pub fn parse_and_double(s: &str) -> (r: Result<i32, ParseIntError>)
    requires
        parsed_i32(s@) matches Some(n) ==> i32::MIN <= 2 * n <= i32::MAX,
    ensures
        r is Ok <==> parsed_i32(s@) is Some,
        r matches Ok(double) ==> (parsed_i32(s@) matches Some(n) && double == 2 * n),
{
    match parse_i32(s) {
        Ok(n) => Ok(n * 2),
        Err(e) => Err(e),
    }
}

/// Why a configuration yields no port.
pub enum ConfigError {
    MissingKey(String),
    InvalidPort(ParseIntError),
}

/// `port`, raised to one if it is zero.
pub open spec fn clamped_port(port: u16) -> u16 {
    if port < 1 {
        1
    } else {
        port
    }
}

/// The port that a configuration's `port` entry stands for, between 1 and
/// 65535. `entry` is the entry's text, or `None` where the configuration has
/// no such entry.
pub fn get_port(entry: Option<&str>) -> (r: Result<u16, ConfigError>)
    ensures
        match entry {
            None => r matches Err(ConfigError::MissingKey(key)) && key@ == "port"@,
            Some(text) => match parsed_u16(text@) {
                None => r matches Err(ConfigError::InvalidPort(_)),
                Some(port) => r matches Ok(p) && p == clamped_port(port),
            },
        },
{
    match entry {
        None => Err(ConfigError::MissingKey("port".to_owned())),
        Some(text) => match parse_u16(text) {
            Err(e) => Err(ConfigError::InvalidPort(e)),
            Ok(port) => Ok(
                if port < 1 {
                    1
                } else {
                    port
                },
            ),
        },
    }
}

/// The length in bytes of whichever text `result` carries.
pub fn compute_length(result: Result<String, String>) -> (n: usize)
    ensures
        n == match result {
            Ok(text) => len_in_bytes(text@),
            Err(text) => len_in_bytes(text@),
        },
{
    match result {
        Ok(text) => text.as_str().len(),
        Err(text) => text.as_str().len(),
    }
}

/// The name that a lookup found, or `Unknown User` where the lookup failed.
pub fn get_user_name<E>(found: Result<String, E>) -> (name: String)
    ensures
        name@ == match found {
            Ok(known) => known@,
            Err(_) => "Unknown User"@,
        },
{
    match found {
        Ok(known) => known,
        Err(_) => "Unknown User".to_owned(),
    }
}

/// Reads a number written in decimal and accepts it if it lies between 0
/// and 100.
pub fn parse_and_validate(s: &str) -> (r: Result<i32, String>)
    ensures
        match parsed_i32(s@) {
            Some(n) => if 0 <= n <= 100 {
                r == Ok::<i32, String>(n)
            } else {
                r matches Err(message) && message@ == "Value out of range"@
            },
            None => r matches Err(message) && "Parse error: "@.is_prefix_of(message@),
        },
{
    match parse_i32(s) {
        Err(e) => {
            let mut message = "Parse error: ".to_owned();
            message.append(parse_error_text(&e).as_str());
            Err(message)
        },
        Ok(n) => {
            if n >= 0 && n <= 100 {
                Ok(n)
            } else {
                Err("Value out of range".to_owned())
            }
        },
    }
}

/// The first character of the uppercase form of the first character of `s`,
/// if `s` has one.
pub open spec fn first_char_upper(s: Seq<char>) -> Option<char> {
    if s.len() == 0 {
        None
    } else {
        Some(char_uppercase(s[0])[0])
    }
}

/// Computes [`first_char_upper`].
pub fn get_first_char(s: &str) -> (c: Option<char>)
    ensures
        c == first_char_upper(s@),
{
    let chars = chars_of(s);
    if chars.len() == 0 {
        return None;
    }
    let mut mapping = char_to_uppercase(chars[0]);
    mapping_next(&mut mapping)
}

/// Computes [`first_char_upper`], spelling out each early return.
pub fn get_first_char_manual(s: &str) -> (c: Option<char>)
    ensures
        c == first_char_upper(s@),
{
    let chars = chars_of(s);
    let first = if chars.len() > 0 {
        chars[0]
    } else {
        return None;
    };
    let mut mapping = char_to_uppercase(first);
    match mapping_next(&mut mapping) {
        Some(upper) => Some(upper),
        None => None,
    }
}

/// Always `Some`: the value it tests on the way is present.
pub fn also_valid() -> (r: Option<()>)
    ensures
        r is Some,
{
    let present: Option<i32> = Some(42);
    match present {
        Some(_) => Some(()),
        None => None,
    }
}

/// What can go wrong in the application.
pub enum AppError {
    FileNotFound(String),
    ParseError(String),
    ValidationError { field: String, reason: String },
    NetworkError(u32),
}

impl AppError {
    /// The error in words.
    pub open spec fn spec_message(self) -> Seq<char> {
        match self {
            AppError::FileNotFound(path) => "File not found: "@ + path@,
            AppError::ParseError(detail) => "Parse error: "@ + detail@,
            AppError::ValidationError { field, reason } => "Validation failed for "@ + field@
                + ": "@ + reason@,
            AppError::NetworkError(code) => "Network error with status: "@ + decimal(code as nat),
        }
    }

    /// Computes [`AppError::spec_message`].
    pub fn message(&self) -> (text: String)
        ensures
            text@ == self.spec_message(),
    {
        match self {
            AppError::FileNotFound(path) => {
                let mut text = "File not found: ".to_owned();
                text.append(path.as_str());
                text
            },
            AppError::ParseError(detail) => {
                let mut text = "Parse error: ".to_owned();
                text.append(detail.as_str());
                text
            },
            AppError::ValidationError { field, reason } => {
                let mut text = "Validation failed for ".to_owned();
                text.append(field.as_str());
                text.append(": ");
                text.append(reason.as_str());
                text
            },
            AppError::NetworkError(code) => {
                let mut text = "Network error with status: ".to_owned();
                text.append(decimal_string(*code as u64).as_str());
                text
            },
        }
    }
}

/// The line that reports `result` to the user.
pub open spec fn report(result: Result<i32, AppError>) -> Seq<char> {
    match result {
        Ok(value) => "Success: "@ + signed_decimal(value as int),
        Err(AppError::FileNotFound(path)) => "Please create file: "@ + path@,
        Err(AppError::ParseError(_)) => "Invalid format in config file"@,
        Err(AppError::ValidationError { field, reason }) => "Fix "@ + field@ + ": "@ + reason@,
        Err(AppError::NetworkError(code)) => if code == 404 {
            "Resource not found"@
        } else {
            "Network issue, code: "@ + decimal(code as nat)
        },
    }
}

/// Computes [`report`].
pub fn handle_result(result: Result<i32, AppError>) -> (line: String)
    ensures
        line@ == report(result),
{
    match result {
        Ok(value) => {
            let mut line = "Success: ".to_owned();
            line.append(signed_decimal_string(value as i64).as_str());
            line
        },
        Err(AppError::FileNotFound(path)) => {
            let mut line = "Please create file: ".to_owned();
            line.append(path.as_str());
            line
        },
        Err(AppError::ParseError(_)) => "Invalid format in config file".to_owned(),
        Err(AppError::ValidationError { field, reason }) => {
            let mut line = "Fix ".to_owned();
            line.append(field.as_str());
            line.append(": ");
            line.append(reason.as_str());
            line
        },
        Err(AppError::NetworkError(code)) => {
            if code == 404 {
                "Resource not found".to_owned()
            } else {
                let mut line = "Network issue, code: ".to_owned();
                line.append(decimal_string(code as u64).as_str());
                line
            }
        },
    }
}

/// What can go wrong while data is read. Errors that come from elsewhere
/// are carried as their text.
pub enum DataError {
    Io(String),
    Parse { line: usize, source: String },
    InvalidData { expected: String, actual: String },
    Timeout(u64),
}

impl DataError {
    /// The error in words.
    pub open spec fn spec_message(self) -> Seq<char> {
        match self {
            DataError::Io(source) => "I/O error: "@ + source@,
            DataError::Parse { line, source } => "Parse error at line "@ + decimal(line as nat)
                + ": "@ + source@,
            DataError::InvalidData { expected, actual } => "Invalid data: expected "@ + expected@
                + ", got "@ + actual@,
            DataError::Timeout(seconds) => "Timeout after "@ + decimal(seconds as nat)
                + " seconds"@,
        }
    }

    /// Computes [`DataError::spec_message`].
    pub fn message(&self) -> (text: String)
        ensures
            text@ == self.spec_message(),
    {
        match self {
            DataError::Io(source) => {
                let mut text = "I/O error: ".to_owned();
                text.append(source.as_str());
                text
            },
            DataError::Parse { line, source } => {
                let mut text = "Parse error at line ".to_owned();
                text.append(decimal_string(*line as u64).as_str());
                text.append(": ");
                text.append(source.as_str());
                text
            },
            DataError::InvalidData { expected, actual } => {
                let mut text = "Invalid data: expected ".to_owned();
                text.append(expected.as_str());
                text.append(", got ");
                text.append(actual.as_str());
                text
            },
            DataError::Timeout(seconds) => {
                let mut text = "Timeout after ".to_owned();
                text.append(decimal_string(*seconds).as_str());
                text.append(" seconds");
                text
            },
        }
    }
}

/// What can go wrong at the top level. Errors that come from elsewhere are
/// carried as their text.
pub enum ApplicationError {
    Config(String),
    Database(String),
    Other(String),
    Internal,
}

impl ApplicationError {
    /// The error in words; an `Other` error speaks for itself.
    pub open spec fn spec_message(self) -> Seq<char> {
        match self {
            ApplicationError::Config(source) => "config error: "@ + source@,
            ApplicationError::Database(source) => "database error: "@ + source@,
            ApplicationError::Other(source) => source@,
            ApplicationError::Internal => "internal error"@,
        }
    }

    /// Computes [`ApplicationError::spec_message`].
    pub fn message(&self) -> (text: String)
        ensures
            text@ == self.spec_message(),
    {
        match self {
            ApplicationError::Config(source) => {
                let mut text = "config error: ".to_owned();
                text.append(source.as_str());
                text
            },
            ApplicationError::Database(source) => {
                let mut text = "database error: ".to_owned();
                text.append(source.as_str());
                text
            },
            ApplicationError::Other(source) => source.clone(),
            ApplicationError::Internal => "internal error".to_owned(),
        }
    }
}

/// A failure while one user was processed, with the text of its cause.
pub struct ProcessingError {
    pub user_id: u64,
    pub source: String,
}

impl ProcessingError {
    /// Names the user whose processing failed.
    pub fn message(&self) -> (text: String)
        ensures
            text@ == "failed to process user "@ + decimal(self.user_id as nat),
    {
        let mut text = "failed to process user ".to_owned();
        text.append(decimal_string(self.user_id).as_str());
        text
    }
}

/// A user to be validated.
pub struct User {
    pub name: String,
    pub email: String,
    pub age: u32,
}

/// The youngest age at which a user is accepted.
pub const MIN_AGE: u32 = 13;

/// Why `user` is refused, if it is: too young, or an email address without
/// an `@`. Age is tested first.
pub open spec fn user_fault(user: User) -> Option<Seq<char>> {
    if user.age < MIN_AGE {
        Some(
            "User "@ + user.name@ + " is too young (age: "@ + decimal(user.age as nat) + ")"@,
        )
    } else if !user.email@.contains('@') {
        Some("Invalid email for user "@ + user.name@)
    } else {
        None
    }
}

/// Accepts `user` or says why not, as [`user_fault`] has it.
pub fn validate_user(user: &User) -> (r: Result<(), String>)
    ensures
        r is Ok <==> user_fault(*user) is None,
        r matches Err(message) ==> user_fault(*user) == Some(message@),
{
    if user.age < MIN_AGE {
        let mut message = "User ".to_owned();
        message.append(user.name.as_str());
        message.append(" is too young (age: ");
        message.append(decimal_string(user.age as u64).as_str());
        message.append(")");
        return Err(message);
    }
    if !contains_char(user.email.as_str(), '@') {
        let mut message = "Invalid email for user ".to_owned();
        message.append(user.name.as_str());
        return Err(message);
    }
    Ok(())
}

} // verus!
