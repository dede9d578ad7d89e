use echo_server_client::client::check_echo_response;
use echo_server_client::client::encode_wire_message;
use echo_server_client::client::EchoClientError;
use echo_server_client::handler::actions_for_event;
use echo_server_client::handler::handle_lines;
use echo_server_client::handler::handle_stream;
use echo_server_client::handler::HandlerAction;
use echo_server_client::handler::ReadEvent;
use echo_server_client::protocol::split_lines;
use echo_server_client::queue::MessageQueue;
use echo_server_client::queue::DEFAULT_QUEUE_CAPACITY;
use echo_server_client::server::accept_loop_exit;
use echo_server_client::server::accept_step;
use echo_server_client::server::run_accept_loop;
use echo_server_client::server::shutdown_outcome;
use echo_server_client::server::AcceptAction;
use echo_server_client::server::AcceptEvent;
use echo_server_client::server::AcceptLoopState;
use echo_server_client::server::EchoServerError;

#[test]
fn queue_returns_messages_in_arrival_order() {
    let mut queue = MessageQueue::new(DEFAULT_QUEUE_CAPACITY);
    assert!(queue.try_push(String::from("message\n")));
    assert!(queue.try_push(String::from("1234\n")));

    assert_eq!(queue.pop().as_deref(), Some("message\n"));
    assert_eq!(queue.pop().as_deref(), Some("1234\n"));
    assert_eq!(queue.pop(), None);
}

#[test]
fn full_queue_drops_instead_of_blocking() {
    let mut queue = MessageQueue::new(2);
    assert!(queue.try_push(String::from("a\n")));
    assert!(queue.try_push(String::from("b\n")));
    assert!(!queue.try_push(String::from("c\n")));
    assert_eq!(queue.len(), 2);
    assert_eq!(queue.pop().as_deref(), Some("a\n"));
    assert_eq!(queue.pop().as_deref(), Some("b\n"));
    assert_eq!(queue.pop(), None);
}

#[test]
fn handler_queues_hooks_then_echoes_in_that_order() {
    let line = ReadEvent::Line(String::from("hello\n"));
    let acts = actions_for_event("127.0.0.1:4000", line, true);
    assert_eq!(acts.len(), 3);
    assert!(matches!(&acts[0], HandlerAction::QueueLine(m) if m == "hello\n"));
    assert!(
        matches!(&acts[1], HandlerAction::InvokeHook(p, l) if p == "127.0.0.1:4000" && l == "hello\n")
    );
    assert!(matches!(&acts[2], HandlerAction::EchoLine(e) if e == "hello\n"));
}

#[test]
fn handler_without_hook_skips_the_hook() {
    let line = ReadEvent::Line(String::from("hello\n"));
    let acts = actions_for_event("127.0.0.1:4000", line, false);
    assert_eq!(acts.len(), 2);
    assert!(matches!(&acts[0], HandlerAction::QueueLine(m) if m == "hello\n"));
    assert!(matches!(&acts[1], HandlerAction::EchoLine(e) if e == "hello\n"));
}

#[test]
fn handler_closes_on_peer_close_and_on_error() {
    let acts = actions_for_event("peer", ReadEvent::Closed, true);
    assert_eq!(acts.len(), 1);
    assert!(matches!(&acts[0], HandlerAction::CloseConnection));

    let acts = actions_for_event("peer", ReadEvent::Failed, false);
    assert_eq!(acts.len(), 1);
    assert!(matches!(&acts[0], HandlerAction::CloseConnection));
}

#[test]
fn session_echoes_every_line_in_request_order() {
    let lines = vec![
        String::from("message\n"),
        String::from("aaa\n"),
        String::from("hello1234$%\n"),
    ];
    let mut queue = MessageQueue::new(DEFAULT_QUEUE_CAPACITY);
    let (echoes, hooked) = handle_lines("peer", &lines, false, &mut queue);
    assert_eq!(echoes, lines);
    assert!(hooked.is_empty());
}

#[test]
fn hook_sees_three_messages_exactly_three_times() {
    let lines = vec![
        String::from("message\n"),
        String::from("aaa\n"),
        String::from("hello1234$%\n"),
    ];
    let mut queue = MessageQueue::new(DEFAULT_QUEUE_CAPACITY);
    let (echoes, hooked) = handle_lines("peer", &lines, true, &mut queue);
    assert_eq!(hooked.len(), 3);
    assert_eq!(hooked, lines);
    assert_eq!(echoes, lines);
    assert_eq!(queue.len(), 3);
}

#[test]
fn accept_loop_races_shutdown_against_connections() {
    let (state, action) = accept_step(AcceptLoopState::Running, AcceptEvent::ConnectionAccepted);
    assert_eq!(state, AcceptLoopState::Running);
    assert_eq!(action, AcceptAction::SpawnHandler);

    let (state, action) = accept_step(AcceptLoopState::Running, AcceptEvent::AcceptFailed);
    assert_eq!(state, AcceptLoopState::Running);
    assert_eq!(action, AcceptAction::ContinueAccepting);

    let (state, action) = accept_step(AcceptLoopState::Running, AcceptEvent::ShutdownReceived);
    assert_eq!(state, AcceptLoopState::ShuttingDown);
    assert_eq!(action, AcceptAction::ExitLoop);
    assert_eq!(accept_loop_exit(state), AcceptLoopState::Stopped);
}

#[test]
fn shutdown_with_no_connections_stops_cleanly() {
    let events = vec![AcceptEvent::ShutdownReceived];
    let (state, spawned) = run_accept_loop(&events);
    assert_eq!(state, AcceptLoopState::Stopped);
    assert_eq!(spawned, 0);
    assert_eq!(shutdown_outcome(true, true), Ok(()));
}

#[test]
fn no_handler_spawns_after_the_shutdown_signal() {
    let events = vec![
        AcceptEvent::ConnectionAccepted,
        AcceptEvent::AcceptFailed,
        AcceptEvent::ConnectionAccepted,
        AcceptEvent::ShutdownReceived,
        AcceptEvent::ConnectionAccepted,
    ];
    let (state, spawned) = run_accept_loop(&events);
    assert_eq!(state, AcceptLoopState::Stopped);
    assert_eq!(spawned, 2);
}

#[test]
fn shutdown_failures_surface_as_kill_failed() {
    assert_eq!(shutdown_outcome(false, false), Err(EchoServerError::KillFailed));
    assert_eq!(shutdown_outcome(true, false), Err(EchoServerError::KillFailed));
}

#[test]
fn wire_message_carries_one_trailing_newline() {
    assert_eq!(encode_wire_message("Hello world"), "Hello world\n");
    assert_eq!(encode_wire_message(""), "\n");
}

#[test]
fn matching_echo_is_accepted() {
    assert!(check_echo_response("Hello world", "Hello world\n").is_ok());
    assert!(check_echo_response("msg", "msg").is_ok());
}

#[test]
fn mismatched_echo_is_a_bad_response() {
    let r = check_echo_response("msg", "other\n");
    assert!(matches!(r, Err(EchoClientError::BadResponse(b)) if b == "other\n"));

    let r = check_echo_response("msg", "msg\n\n");
    assert!(matches!(r, Err(EchoClientError::BadResponse(b)) if b == "msg\n\n"));
}

#[test]
fn round_trip_through_handler_and_check() {
    let message = "Hello world";
    let wire = encode_wire_message(message);

    let mut queue = MessageQueue::new(DEFAULT_QUEUE_CAPACITY);
    let lines = vec![wire];
    let (echoes, _) = handle_lines("peer", &lines, false, &mut queue);
    assert_eq!(echoes.len(), 1);
    assert!(check_echo_response(message, &echoes[0]).is_ok());
}

#[test]
fn framing_splits_after_every_newline() {
    assert_eq!(split_lines("message\n1234\n"), vec!["message\n", "1234\n"]);
    assert_eq!(split_lines("partial"), vec!["partial"]);
    assert_eq!(split_lines("a\nb"), vec!["a\n", "b"]);
    assert_eq!(split_lines("\n\n"), vec!["\n", "\n"]);
    assert!(split_lines("").is_empty());
}

#[test]
fn stream_session_echoes_the_received_characters() {
    let mut queue = MessageQueue::new(DEFAULT_QUEUE_CAPACITY);
    let (echoes, hooked) = handle_stream("peer", "Hello\nWorld\n", true, &mut queue);
    assert_eq!(echoes.concat(), "Hello\nWorld\n");
    assert_eq!(hooked, vec!["Hello\n", "World\n"]);
    assert_eq!(queue.pop().as_deref(), Some("Hello\n"));
    assert_eq!(queue.pop().as_deref(), Some("World\n"));
    assert_eq!(queue.pop(), None);
}
