use devcade_backend::env::{DEFAULT_DEVCADE_PATH, DEVCADE_API_URL_VAR, DEVCADE_PATH_VAR};
use devcade_backend::{api_url, devcade_path, BackendError, IoFailure};

#[test]
fn configured_path_is_kept() {
    let chosen = devcade_path(Some(String::from("/srv/games")));
    assert_eq!(chosen.path, "/srv/games");
    assert!(!chosen.fell_back);
}

#[test]
fn empty_configured_path_is_kept() {
    let chosen = devcade_path(Some(String::new()));
    assert_eq!(chosen.path, "");
    assert!(!chosen.fell_back);
}

#[test]
fn missing_path_falls_back_to_tmp_devcade() {
    let chosen = devcade_path(None);
    assert_eq!(chosen.path, "/tmp/devcade");
    assert!(chosen.fell_back);
}

#[test]
fn configured_api_url_is_returned() {
    assert_eq!(
        api_url(Some(String::from("https://devcade.example/api"))),
        Ok(String::from("https://devcade.example/api"))
    );
}

#[test]
fn empty_api_url_is_still_a_value() {
    assert_eq!(api_url(Some(String::new())), Ok(String::new()));
}

#[test]
fn missing_api_url_is_a_fatal_configuration_error() {
    let url = api_url(None);
    assert_eq!(url, Err(BackendError::ConfigError));
    assert!(url.unwrap_err().is_fatal());
}

#[test]
fn only_the_configuration_error_is_fatal() {
    assert!(BackendError::ConfigError.is_fatal());
    assert!(!BackendError::EncodingError.is_fatal());
    assert!(!BackendError::IoError(IoFailure::CreateDir { code: Some(13) }).is_fatal());
    assert!(!BackendError::IoError(IoFailure::MakeFifo { status: -1 }).is_fatal());
    assert!(!BackendError::IoError(IoFailure::Open { code: None }).is_fatal());
}

#[test]
fn names_of_the_variables_and_the_default() {
    assert_eq!(DEVCADE_PATH_VAR, "DEVCADE_PATH");
    assert_eq!(DEVCADE_API_URL_VAR, "DEVCADE_API_URL");
    assert_eq!(DEFAULT_DEVCADE_PATH, "/tmp/devcade");
}
