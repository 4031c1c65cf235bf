use runixeer::index::EntryDescriptor;
use runixeer::protocol::{ControlMessage, ProtocolError};
use runixeer::server::{
    after_cleanup, exit_status, App, Phase, ServerAction, ServerError, EXIT_ALREADY_ACTIVE,
    EXIT_CLEANUP_FAILED, EXIT_OK,
};

fn listening() -> App {
    let mut app = App::new();
    assert!(app.startup("desktopentries.sock", false).is_ok());
    app
}

#[test]
fn new_server_is_unbound_and_empty() {
    let app = App::new();
    assert_eq!(app.phase, Phase::Unbound);
    assert!(!app.built);
    assert_eq!(app.items.len(), 0);
}

#[test]
fn startup_listens_where_no_socket_file_stands() {
    let app = listening();
    assert_eq!(app.phase, Phase::Listening);
}

#[test]
fn startup_refuses_a_socket_path_in_use() {
    let mut app = App::new();
    let result = app.startup("desktopentries.sock", true);
    match &result {
        Err(ServerError::AlreadyActive(path)) => assert_eq!(path, "desktopentries.sock"),
        other => panic!("unexpected: {:?}", other),
    }
    assert_eq!(app.phase, Phase::Terminated);
    assert_eq!(exit_status(&result), 17);
    assert_eq!(EXIT_ALREADY_ACTIVE, 17);
}

#[test]
fn terminate_ends_the_server_and_asks_for_cleanup() {
    let mut app = listening();
    let action = app.handle_stream("Terminate");
    assert!(matches!(action, ServerAction::RemoveSocketAndExit));
    assert_eq!(app.phase, Phase::Terminated);
    let result = after_cleanup("desktopentries.sock", None);
    assert!(result.is_ok());
    assert_eq!(exit_status(&result), 0);
    assert_eq!(EXIT_OK, 0);
}

#[test]
fn terminate_alias_ends_the_server() {
    let mut app = listening();
    assert!(matches!(app.handle_stream("Exit"), ServerAction::RemoveSocketAndExit));
    assert_eq!(app.phase, Phase::Terminated);
}

#[test]
fn failed_cleanup_gives_the_failure_status() {
    let result = after_cleanup("desktopentries.sock", Some("No such file or directory".to_string()));
    match &result {
        Err(ServerError::SocketCleanupFailed(path, cause)) => {
            assert_eq!(path, "desktopentries.sock");
            assert_eq!(cause, "No such file or directory");
        },
        other => panic!("unexpected: {:?}", other),
    }
    assert_eq!(exit_status(&result), -1);
    assert_eq!(EXIT_CLEANUP_FAILED, -1);
}

#[test]
fn exit_statuses_are_distinct() {
    assert_ne!(EXIT_OK, EXIT_ALREADY_ACTIVE);
    assert_ne!(EXIT_OK, EXIT_CLEANUP_FAILED);
    assert_ne!(EXIT_ALREADY_ACTIVE, EXIT_CLEANUP_FAILED);
}

#[test]
fn fetch_list_asks_for_a_scan_only_once() {
    let mut app = listening();
    assert!(matches!(app.handle_stream("FetchList"), ServerAction::ScanThenReply));
    assert_eq!(app.phase, Phase::Listening);
    app.get_all_in_known_locations(&vec![EntryDescriptor {
        name: Some("A".to_string()),
        command: Some("a".to_string()),
        actions: None,
    }]);
    assert!(matches!(app.handle_stream("FetchList"), ServerAction::Reply));
    assert!(matches!(app.handle_stream("GetList"), ServerAction::Reply));
    assert_eq!(app.items.len(), 1);
    assert_eq!(app.phase, Phase::Listening);
}

#[test]
fn refresh_always_asks_for_a_scan() {
    let mut app = listening();
    assert!(matches!(app.handle_stream("Refresh"), ServerAction::Rescan));
    app.get_all_in_known_locations(&vec![]);
    assert!(matches!(app.handle_stream("Refresh"), ServerAction::Rescan));
    assert_eq!(app.phase, Phase::Listening);
}

#[test]
fn undecodable_payload_drops_the_connection_and_keeps_listening() {
    let mut app = listening();
    match app.handle_stream("Shutdown") {
        ServerAction::DropConnection(ProtocolError::Decode(cause)) => assert_eq!(cause, "Shutdown"),
        other => panic!("unexpected: {:?}", other),
    }
    assert_eq!(app.phase, Phase::Listening);
    assert!(!app.built);
    assert!(matches!(app.handle_stream("Refresh"), ServerAction::Rescan));
}

#[test]
fn handle_message_follows_the_dispatch_table() {
    let mut app = listening();
    assert!(matches!(app.handle_message(ControlMessage::FetchList), ServerAction::ScanThenReply));
    assert!(matches!(app.handle_message(ControlMessage::Refresh), ServerAction::Rescan));
    assert_eq!(app.phase, Phase::Listening);
    assert!(matches!(
        app.handle_message(ControlMessage::Terminate),
        ServerAction::RemoveSocketAndExit
    ));
    assert_eq!(app.phase, Phase::Terminated);
}
