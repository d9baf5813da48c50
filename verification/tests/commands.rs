use danmaku_client::commands::{
    comment_connect, comment_disconnect, comment_is_connected, ConnectionState,
};
use danmaku_client::connection::{SessionInput, SessionState, SocketClient};

#[test]
fn connect_on_an_empty_slot() {
    let mut state = ConnectionState::new();
    assert!(!state.has_session());
    assert_eq!(comment_connect(&mut state, false), Ok("Connecting...".to_string()));
    assert!(state.has_session());
    assert_eq!(comment_is_connected(&state, false), Ok(true));
}

#[test]
fn connect_on_an_empty_slot_ignores_the_flag() {
    let mut state = ConnectionState::new();
    assert_eq!(comment_connect(&mut state, true), Ok("Connecting...".to_string()));
    assert!(state.has_session());
}

#[test]
fn second_connect_is_refused() {
    let mut state = ConnectionState::new();
    assert_eq!(comment_connect(&mut state, false), Ok("Connecting...".to_string()));
    assert_eq!(comment_connect(&mut state, false), Err("Already connected".to_string()));
    assert!(state.has_session());
    assert_eq!(comment_is_connected(&state, false), Ok(true));
    assert_eq!(comment_connect(&mut state, false), Err("Already connected".to_string()));
}

#[test]
fn connect_after_the_session_finished() {
    let mut state = ConnectionState::new();
    assert_eq!(comment_connect(&mut state, false), Ok("Connecting...".to_string()));
    assert_eq!(comment_is_connected(&state, true), Ok(false));
    assert_eq!(comment_connect(&mut state, true), Ok("Connecting...".to_string()));
    assert!(state.has_session());
    assert_eq!(comment_is_connected(&state, false), Ok(true));
}

#[test]
fn disconnect_without_a_session() {
    let mut state = ConnectionState::new();
    assert_eq!(comment_disconnect(&mut state), Err("Not connected".to_string()));
    assert!(!state.has_session());
}

#[test]
fn disconnect_empties_the_slot() {
    let mut state = ConnectionState::new();
    comment_connect(&mut state, false).unwrap();
    assert_eq!(comment_disconnect(&mut state), Ok("Disconnected".to_string()));
    assert!(!state.has_session());
    assert_eq!(comment_is_connected(&state, false), Ok(false));
    assert_eq!(comment_disconnect(&mut state), Err("Not connected".to_string()));
    assert_eq!(comment_connect(&mut state, false), Ok("Connecting...".to_string()));
}

#[test]
fn disconnect_takes_a_finished_session_too() {
    let mut state = ConnectionState::new();
    comment_connect(&mut state, false).unwrap();
    assert_eq!(comment_is_connected(&state, true), Ok(false));
    assert_eq!(comment_disconnect(&mut state), Ok("Disconnected".to_string()));
    assert!(!state.has_session());
}

#[test]
fn is_connected_needs_a_running_session() {
    let mut state = ConnectionState::new();
    assert_eq!(comment_is_connected(&state, false), Ok(false));
    assert_eq!(comment_is_connected(&state, true), Ok(false));
    comment_connect(&mut state, false).unwrap();
    assert_eq!(comment_is_connected(&state, false), Ok(true));
    assert_eq!(comment_is_connected(&state, true), Ok(false));
}

#[test]
fn closed_session_is_not_connected() {
    let mut state = ConnectionState::new();
    comment_connect(&mut state, false).unwrap();
    let mut client = SocketClient::new(123, 456, "abc".to_string());
    client.connection(SessionInput::Connected);
    client.connection(SessionInput::Sent);
    assert_eq!(comment_is_connected(&state, client.is_finished()), Ok(true));

    client.connection(SessionInput::SendFailed("Broken pipe".to_string()));
    client.connection(SessionInput::Shutdown);
    assert_eq!(client.state(), SessionState::Closed);
    assert_eq!(comment_is_connected(&state, client.is_finished()), Ok(false));
    assert_eq!(comment_connect(&mut state, client.is_finished()), Ok("Connecting...".to_string()));
}
