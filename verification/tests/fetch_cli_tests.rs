use github_activity::cli::parse_args;
use github_activity::errors::AppError;
use github_activity::fetch::{check_status, endpoint_for};

const ARGS_ERROR: &str = "Invalid number of arguments. Only one argument is needed (the username).";

#[test]
fn status_200_proceeds() {
    assert!(check_status(200).is_ok());
}

#[test]
fn status_404_is_user_not_found() {
    let e = check_status(404).unwrap_err();
    assert!(matches!(e, AppError::UserNotFound));
    assert_eq!(e.message(), "User does not exist.");
}

#[test]
fn status_500_message_contains_the_code() {
    let e = check_status(500).unwrap_err();
    assert!(matches!(e, AppError::UnexpectedStatus(500)));
    let msg = e.message();
    assert!(msg.contains("500"));
    assert_eq!(msg, "Unable to retrieve events. Status code: 500.");
}

#[test]
fn status_403_message_contains_the_code() {
    let e = check_status(403).unwrap_err();
    assert_eq!(e.message(), "Unable to retrieve events. Status code: 403.");
}

#[test]
fn argument_error_message() {
    assert_eq!(AppError::ArgumentError.message(), ARGS_ERROR);
}

#[test]
fn decode_error_message_passes_through() {
    let e = AppError::DecodeError("expected value at line 1 column 1".to_string());
    assert_eq!(e.message(), "expected value at line 1 column 1");
}

#[test]
fn transport_error_message_passes_through() {
    let e = AppError::TransportError("connection refused".to_string());
    assert_eq!(e.message(), "connection refused");
}

#[test]
fn parse_args_accepts_exactly_one_argument() {
    let args = vec!["prog".to_string(), "octocat".to_string()];
    assert_eq!(parse_args(args).unwrap(), "octocat");
}

#[test]
fn parse_args_rejects_no_argument() {
    let args = vec!["prog".to_string()];
    assert_eq!(parse_args(args).unwrap_err(), ARGS_ERROR);
}

#[test]
fn parse_args_rejects_two_arguments() {
    let args = vec![
        "prog".to_string(),
        "octocat".to_string(),
        "extra".to_string(),
    ];
    assert_eq!(parse_args(args).unwrap_err(), ARGS_ERROR);
}

#[test]
fn parse_args_rejects_empty_list() {
    let args: Vec<String> = vec![];
    assert_eq!(parse_args(args).unwrap_err(), ARGS_ERROR);
}

#[test]
fn endpoint_interpolates_the_username() {
    assert_eq!(
        endpoint_for("octocat"),
        "https://api.github.com/users/octocat/events"
    );
}

#[test]
fn report_line_prefixes_the_message() {
    assert_eq!(
        AppError::UserNotFound.report_line(),
        "Application error: User does not exist."
    );
}
