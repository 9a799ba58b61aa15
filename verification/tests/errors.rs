use imview::error::{map_err_notify, ConstructionErrorKind, WatchSetupError};

#[test]
fn io_failure_of_the_watch_passes_through() {
    let err = map_err_notify(WatchSetupError::Io("permission denied".to_string()));
    assert_eq!(err.kind, ConstructionErrorKind::Io);
    assert_eq!(err.message, "permission denied");
}

#[test]
fn missing_path_gets_its_fixed_text() {
    let err = map_err_notify(WatchSetupError::PathNotFound);
    assert_eq!(err.kind, ConstructionErrorKind::Other);
    assert_eq!(err.message, "Path not found");
}

#[test]
fn missing_watch_gets_its_fixed_text() {
    let err = map_err_notify(WatchSetupError::WatchNotFound);
    assert_eq!(err.kind, ConstructionErrorKind::Other);
    assert_eq!(err.message, "Watch not found");
}

#[test]
fn generic_failure_keeps_its_words() {
    let err = map_err_notify(WatchSetupError::Generic("too many watches".to_string()));
    assert_eq!(err.kind, ConstructionErrorKind::Other);
    assert_eq!(err.message, "too many watches");
}
