use skry::standby::{query_text, StandbyDaemon, StandbyError};

#[test]
fn test_daemon_creation() {
    let daemon = StandbyDaemon::new();
    assert!(!daemon.is_running());
}

#[test]
fn test_daemon_start_stop() {
    let mut daemon = StandbyDaemon::new();

    daemon.start().unwrap();
    assert!(daemon.is_running());

    daemon.stop().unwrap();
    assert!(!daemon.is_running());
}

#[test]
fn test_query_without_daemon() {
    let daemon = StandbyDaemon::new();
    let result = daemon.query("test");
    assert!(result.is_err());
}

#[test]
fn start_and_stop_are_idempotent() {
    let mut daemon = StandbyDaemon::default();
    assert!(daemon.stop().is_ok());
    assert!(!daemon.is_running());
    daemon.start().unwrap();
    daemon.start().unwrap();
    assert!(daemon.is_running());
    daemon.stop().unwrap();
    daemon.stop().unwrap();
    assert!(!daemon.is_running());
}

#[test]
fn query_follows_running_state() {
    let mut daemon = StandbyDaemon::new();
    assert_eq!(daemon.query("symbol:x").unwrap_err(), StandbyError::NotRunning);
    daemon.start().unwrap();
    assert_eq!(daemon.query("symbol:x").unwrap(), "Query processed (placeholder)");
    daemon.stop().unwrap();
    let err = daemon.query("symbol:x").unwrap_err();
    assert_eq!(err.message(), "Daemon is not running. Start it with 'skry standby'");
}

#[test]
fn query_texts() {
    assert_eq!(query_text(Some("User::login".to_string()), None).unwrap(), "symbol:User::login");
    assert_eq!(query_text(Some("a".to_string()), Some("b".to_string())).unwrap(), "symbol:a");
    assert_eq!(query_text(None, Some("auth flow".to_string())).unwrap(), "search:auth flow");
    let err = query_text(None, None).unwrap_err();
    assert_eq!(err, StandbyError::MissingQuery);
    assert_eq!(err.message(), "Must provide either --symbol or --search");
}
