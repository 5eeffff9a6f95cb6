use bride::queue::{ChannelError, CommandQueue, DispatchState, LinkEvent};
use bride::response::Response;

fn connected_queue() -> CommandQueue {
    let mut q = CommandQueue::new();
    q.connect(true).unwrap();
    q
}

#[test]
fn fresh_channel_is_disconnected_and_idle() {
    let mut q = CommandQueue::new();
    assert!(!q.connected());
    assert_eq!(q.local_state(), DispatchState::Disconnected);
    assert_eq!(q.update(LinkEvent::Quiet), Ok(None));
}

#[test]
fn connect_twice_fails() {
    let mut q = connected_queue();
    assert!(q.connected());
    assert_eq!(q.connect(true), Err(ChannelError::ConnectionFailed));
}

#[test]
fn failed_handshake_stays_disconnected() {
    let mut q = CommandQueue::new();
    assert_eq!(q.connect(false), Err(ChannelError::ConnectionFailed));
    assert!(!q.connected());
}

#[test]
fn queued_commands_survive_connect_and_go_one_at_a_time() {
    let mut q = CommandQueue::new();
    q.send("foo");
    q.send("bar");
    // Still disconnected: nothing is sent.
    assert_eq!(q.update(LinkEvent::Quiet), Ok(None));
    q.connect(true).unwrap();
    // The next tick sends the head of the queue only.
    assert_eq!(q.update(LinkEvent::Quiet), Ok(Some("foo".to_string())));
    assert_eq!(q.local_state(), DispatchState::WaitingForResponse);
    // Nothing more goes out while the reply is outstanding.
    assert_eq!(q.update(LinkEvent::Quiet), Ok(None));
    assert_eq!(q.local_state(), DispatchState::WaitingForResponse);
    // The reply is published and retrieval blocks further sending.
    assert_eq!(q.update(LinkEvent::Frame("foo :: <OK>\ndone".to_string())), Ok(None));
    assert_eq!(q.local_state(), DispatchState::WaitingForRetrieval);
    assert_eq!(
        q.receive(),
        Some(Response::Success("foo".to_string(), "done".to_string()))
    );
    // Only now is the second command sent.
    assert_eq!(q.update(LinkEvent::Quiet), Ok(Some("bar".to_string())));
}

#[test]
fn receive_is_idempotent() {
    let mut q = connected_queue();
    q.send("foo");
    assert_eq!(q.update(LinkEvent::Quiet), Ok(Some("foo".to_string())));
    q.update(LinkEvent::Frame("foo :: <OK>".to_string())).unwrap();
    assert!(q.receive().is_some());
    assert_eq!(q.receive(), None);
}

#[test]
fn commands_are_trimmed_on_enqueue() {
    let mut q = connected_queue();
    q.send("  spaced out  ");
    assert_eq!(q.update(LinkEvent::Quiet), Ok(Some("spaced out".to_string())));
}

#[test]
fn ready_sentinel_updates_state_without_response() {
    let mut q = connected_queue();
    assert_eq!(q.update(LinkEvent::Frame("<READY>".to_string())), Ok(None));
    assert_eq!(q.receive(), None);
    assert!(!q.paused());
    assert!(!q.prompt());
    assert!(!q.finished());
}

#[test]
fn pause_drops_enqueued_commands() {
    let mut q = connected_queue();
    q.update(LinkEvent::Frame("<PAUSE>".to_string())).unwrap();
    assert!(q.paused());
    q.send("quux");
    // The queue stayed empty: nothing is sent on the next tick.
    assert_eq!(q.update(LinkEvent::Quiet), Ok(None));
    assert_eq!(q.local_state(), DispatchState::Idle);
}

#[test]
fn exit_sentinel_finishes() {
    let mut q = connected_queue();
    q.update(LinkEvent::Frame("<EXIT>".to_string())).unwrap();
    assert!(q.finished());
}

#[test]
fn prompt_with_idle_channel_is_ready_for_input() {
    let mut q = connected_queue();
    q.update(LinkEvent::Frame("monster>".to_string())).unwrap();
    assert!(q.prompt());
    assert!(q.ready_for_interactive_input());
    // A pending command takes the readiness away.
    q.send("something");
    assert!(!q.ready_for_interactive_input());
}

#[test]
fn unrecognized_payload_is_a_fatal_protocol_error() {
    let mut q = connected_queue();
    assert_eq!(
        q.update(LinkEvent::Frame("garbage-no-separator".to_string())),
        Err(ChannelError::Protocol)
    );
    // The error is latched.
    assert_eq!(q.update(LinkEvent::Quiet), Err(ChannelError::Protocol));
    assert_eq!(q.connect(true), Err(ChannelError::Protocol));
}

#[test]
fn zero_length_read_reports_disconnected_forever() {
    let mut q = connected_queue();
    q.send("foo");
    assert_eq!(q.update(LinkEvent::Quiet), Ok(Some("foo".to_string())));
    assert_eq!(q.local_state(), DispatchState::WaitingForResponse);
    assert_eq!(q.update(LinkEvent::Closed), Err(ChannelError::Disconnected));
    assert!(!q.connected());
    assert_eq!(q.update(LinkEvent::Quiet), Err(ChannelError::Disconnected));
    assert_eq!(q.update(LinkEvent::Quiet), Err(ChannelError::Disconnected));
}

#[test]
fn write_failure_is_fatal_io() {
    let mut q = connected_queue();
    assert_eq!(q.update(LinkEvent::WriteFailed), Err(ChannelError::Io));
    assert!(!q.connected());
    assert_eq!(q.update(LinkEvent::Quiet), Err(ChannelError::Io));
}

#[test]
fn corrupt_stream_is_fatal_framing() {
    let mut q = connected_queue();
    assert_eq!(q.update(LinkEvent::Corrupted), Err(ChannelError::Framing));
    assert_eq!(q.update(LinkEvent::Quiet), Err(ChannelError::Framing));
}

#[test]
fn disconnect_is_terminal_and_drops_the_queue() {
    let mut q = connected_queue();
    q.send("pending");
    q.disconnect();
    assert!(!q.connected());
    assert_eq!(q.update(LinkEvent::Quiet), Err(ChannelError::NotConnected));
    assert_eq!(q.connect(true), Err(ChannelError::NotConnected));
}

#[test]
fn sentinel_does_not_disturb_outstanding_command() {
    let mut q = connected_queue();
    q.send("cmd");
    assert_eq!(q.update(LinkEvent::Quiet), Ok(Some("cmd".to_string())));
    // A sentinel arrives while the reply is outstanding.
    assert_eq!(q.update(LinkEvent::Frame("<PAUSE>".to_string())), Ok(None));
    assert!(q.paused());
    assert_eq!(q.local_state(), DispatchState::WaitingForResponse);
    // The reply still pairs with the outstanding command.
    q.update(LinkEvent::Frame("cmd :: <OK>".to_string())).unwrap();
    assert_eq!(q.receive(), Some(Response::Success("cmd".to_string(), String::new())));
}

#[test]
fn finished_is_terminal() {
    let mut q = connected_queue();
    q.update(LinkEvent::Frame("<EXIT>".to_string())).unwrap();
    assert!(q.finished());
    // No later sentinel revives the session.
    q.update(LinkEvent::Frame("<READY>".to_string())).unwrap();
    assert!(q.finished());
    q.update(LinkEvent::Frame("monster>".to_string())).unwrap();
    assert!(q.finished());
    // A real response still pairs up without touching the state.
    q.send("cmd");
    q.update(LinkEvent::Quiet).unwrap();
    q.update(LinkEvent::Frame("cmd :: <OK>".to_string())).unwrap();
    assert!(q.receive().is_some());
    assert!(q.finished());
}
