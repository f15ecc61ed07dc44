use nebula::command::_get_command;
use nebula::history::_get_command_history_linux;
use nebula::run_outcome;
use nebula::Outcome;

#[test]
fn test_get_command_it_should_return_command_if_format_is_correct() {
    let args = vec![
        "program".to_string(),
        "cmd".to_string(),
        "echo".to_string(),
        "Hello".to_string(),
        "World".to_string(),
    ];

    assert_eq!(
        _get_command(&args).unwrap(),
        Some("echo Hello World".to_string())
    );
}

#[test]
fn test_get_command_it_should_return_none_if_format_command_is_incorrect() {
    let args = vec!["program".to_string(), "other_cmd".to_string()];

    assert_eq!(_get_command(&args).unwrap(), None);
}

#[test]
fn test_get_command_it_should_return_none_when_no_arguments_provided() {
    let args = vec!["program".to_string()];

    assert_eq!(_get_command(&args).unwrap(), None);
}

#[test]
fn test_get_command_history_path_it_should_return_correct_path() {
    let home_dir = "/home/x".to_string();

    assert_eq!(
        _get_command_history_linux(Some(home_dir)).unwrap(),
        "/home/x/.nebula_history".to_string()
    );
}

#[test]
fn test_get_command_history_path_it_should_return_error_when_home_not_set() {
    assert_eq!(
        _get_command_history_linux(None).unwrap_err(),
        "HOME environment variable not set".to_string()
    );
}

#[test]
fn get_command_empty_args_returns_none() {
    let args: Vec<String> = vec![];

    assert_eq!(_get_command(&args).unwrap(), None);
}

#[test]
fn get_command_token_only_returns_empty_command() {
    let args = vec!["program".to_string(), "cmd".to_string()];

    assert_eq!(_get_command(&args).unwrap(), Some(String::new()));
}

#[test]
fn get_command_single_remaining_element_is_unchanged() {
    let args = vec!["program".to_string(), "cmd".to_string(), "ls".to_string()];

    assert_eq!(_get_command(&args).unwrap(), Some("ls".to_string()));
}

#[test]
fn get_command_wrong_token_ignores_remaining_elements() {
    let args = vec![
        "program".to_string(),
        "other".to_string(),
        "echo".to_string(),
        "Hello".to_string(),
    ];

    assert_eq!(_get_command(&args).unwrap(), None);
}

#[test]
fn get_command_twice_yields_identical_results() {
    let args = vec!["program".to_string(), "cmd".to_string(), "ls".to_string()];

    assert_eq!(_get_command(&args).unwrap(), _get_command(&args).unwrap());
}

#[test]
fn history_path_twice_yields_identical_results() {
    let first = _get_command_history_linux(Some("/home/x".to_string()));
    let second = _get_command_history_linux(Some("/home/x".to_string()));

    assert_eq!(first.unwrap(), second.unwrap());
}

#[test]
fn run_outcome_reports_command_and_path() {
    let args = vec![
        "program".to_string(),
        "cmd".to_string(),
        "echo".to_string(),
        "hi".to_string(),
    ];

    assert_eq!(
        run_outcome(&args, Some("/home/x".to_string())),
        Outcome::Report {
            command: "echo hi".to_string(),
            history_path: "/home/x/.nebula_history".to_string(),
        }
    );
}

#[test]
fn run_outcome_reports_absence_before_consulting_environment() {
    let args = vec!["program".to_string()];

    assert_eq!(run_outcome(&args, None), Outcome::CommandNotFound);
}

#[test]
fn run_outcome_reports_missing_home() {
    let args = vec!["program".to_string(), "cmd".to_string(), "ls".to_string()];

    assert_eq!(
        run_outcome(&args, None),
        Outcome::HistoryError {
            message: "HOME environment variable not set".to_string(),
        }
    );
}
