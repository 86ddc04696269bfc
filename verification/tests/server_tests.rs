use hello_server::server::{
    Action, Event, ServerState, Stage, BUFFER_CAPACITY, CONNECTION_NOTICE,
};

fn greeting() -> Vec<u8> {
    b"Hello, world!".to_vec()
}

fn stages() -> Vec<Stage> {
    vec![
        Stage::Accepting,
        Stage::Announcing,
        Stage::Reading,
        Stage::Writing,
        Stage::Flushing,
        Stage::Closing,
    ]
}

fn events() -> Vec<Event> {
    vec![
        Event::Connected,
        Event::Announced,
        Event::Received(b"abc".to_vec()),
        Event::Sent(13),
        Event::Flushed,
        Event::Closed,
        Event::Failed,
    ]
}

/// Drives one connection on which every operation succeeds, and returns the
/// state after it with the bytes that were to be written.
fn serve(state: ServerState, request: Vec<u8>, sent: usize) -> (ServerState, Vec<u8>) {
    let (state, action) = state.step(Event::Connected);
    assert_eq!(action, Action::Announce(String::from("Connection established!")));
    let (state, action) = state.step(Event::Announced);
    assert_eq!(action, Action::Read(1024));
    let (state, action) = state.step(Event::Received(request));
    let written: Vec<u8> = match action {
        Action::Write(bytes) => bytes,
        other => panic!("expected a write, got {:?}", other),
    };
    let (state, action) = state.step(Event::Sent(sent));
    assert_eq!(action, Action::Flush);
    let (state, action) = state.step(Event::Flushed);
    assert_eq!(action, Action::Close);
    let (state, action) = state.step(Event::Closed);
    assert_eq!(action, Action::Accept);
    (state, written)
}

#[test]
fn constants_have_their_values() {
    assert_eq!(BUFFER_CAPACITY, 1024);
    assert_eq!(CONNECTION_NOTICE, "Connection established!");
}

#[test]
fn start_listens_when_bound() {
    assert_eq!(
        ServerState::start(true),
        (ServerState::Listening(Stage::Accepting), Action::Accept)
    );
}

#[test]
fn start_terminates_when_not_bound() {
    assert_eq!(ServerState::start(false), (ServerState::Terminated, Action::Abort));
}

#[test]
fn connected_leads_to_the_notice() {
    assert_eq!(
        ServerState::Listening(Stage::Accepting).step(Event::Connected),
        (
            ServerState::Listening(Stage::Announcing),
            Action::Announce(String::from("Connection established!"))
        )
    );
}

#[test]
fn announced_leads_to_one_read_of_the_buffer_size() {
    assert_eq!(
        ServerState::Listening(Stage::Announcing).step(Event::Announced),
        (ServerState::Listening(Stage::Reading), Action::Read(1024))
    );
}

#[test]
fn received_leads_to_the_fixed_reply() {
    assert_eq!(
        ServerState::Listening(Stage::Reading).step(Event::Received(b"hello?".to_vec())),
        (ServerState::Listening(Stage::Writing), Action::Write(greeting()))
    );
}

#[test]
fn empty_request_gets_the_fixed_reply() {
    assert_eq!(
        ServerState::Listening(Stage::Reading).step(Event::Received(Vec::new())),
        (ServerState::Listening(Stage::Writing), Action::Write(greeting()))
    );
}

#[test]
fn request_longer_than_the_buffer_gets_the_fixed_reply() {
    let request: Vec<u8> = vec![b'x'; 2000];
    assert!(request.len() > BUFFER_CAPACITY);
    assert_eq!(
        ServerState::Listening(Stage::Reading).step(Event::Received(request)),
        (ServerState::Listening(Stage::Writing), Action::Write(greeting()))
    );
}

#[test]
fn sent_leads_to_a_flush_whatever_the_count() {
    let counts: Vec<usize> = vec![0, 1, 13, 14, usize::MAX];
    for count in counts {
        assert_eq!(
            ServerState::Listening(Stage::Writing).step(Event::Sent(count)),
            (ServerState::Listening(Stage::Flushing), Action::Flush)
        );
    }
}

#[test]
fn flushed_leads_to_the_close() {
    assert_eq!(
        ServerState::Listening(Stage::Flushing).step(Event::Flushed),
        (ServerState::Listening(Stage::Closing), Action::Close)
    );
}

#[test]
fn closed_leads_back_to_accept() {
    assert_eq!(
        ServerState::Listening(Stage::Closing).step(Event::Closed),
        (ServerState::Listening(Stage::Accepting), Action::Accept)
    );
}

#[test]
fn failure_is_fatal_at_every_stage() {
    for stage in stages() {
        assert_eq!(
            ServerState::Listening(stage).step(Event::Failed),
            (ServerState::Terminated, Action::Abort)
        );
    }
}

#[test]
fn event_that_does_not_answer_the_stage_terminates() {
    let answers: Vec<(Stage, usize)> = vec![
        (Stage::Accepting, 0),
        (Stage::Announcing, 1),
        (Stage::Reading, 2),
        (Stage::Writing, 3),
        (Stage::Flushing, 4),
        (Stage::Closing, 5),
    ];
    for (stage, answer) in answers {
        for (index, event) in events().into_iter().enumerate() {
            let (state, action) = ServerState::Listening(stage).step(event);
            if index == answer {
                assert!(matches!(state, ServerState::Listening(_)));
                assert_ne!(action, Action::Abort);
            } else {
                assert_eq!(state, ServerState::Terminated);
                assert_eq!(action, Action::Abort);
            }
        }
    }
}

#[test]
fn terminated_is_final() {
    for event in events() {
        assert_eq!(
            ServerState::Terminated.step(event),
            (ServerState::Terminated, Action::Abort)
        );
    }
}

#[test]
fn one_connection_is_served_and_the_server_listens_on() {
    let (state, action) = ServerState::start(true);
    assert_eq!(action, Action::Accept);
    let (state, written) = serve(state, b"anything".to_vec(), 13);
    assert_eq!(written, greeting());
    assert_eq!(state, ServerState::Listening(Stage::Accepting));
}

#[test]
fn two_sequential_connections_get_the_same_reply() {
    let (state, _) = ServerState::start(true);
    let (state, first) = serve(state, b"first".to_vec(), 13);
    let (state, second) = serve(state, vec![0u8; 1024], 5);
    assert_eq!(first, greeting());
    assert_eq!(second, greeting());
    assert_eq!(first, second);
    assert_eq!(state, ServerState::Listening(Stage::Accepting));
}

#[test]
fn failed_read_ends_the_server_before_any_write() {
    let (state, _) = ServerState::start(true);
    let (state, _) = state.step(Event::Connected);
    let (state, _) = state.step(Event::Announced);
    let (state, action) = state.step(Event::Failed);
    assert_eq!((state, action), (ServerState::Terminated, Action::Abort));
    let (state, action) = state.step(Event::Connected);
    assert_eq!((state, action), (ServerState::Terminated, Action::Abort));
}

#[test]
fn server_that_failed_to_bind_never_accepts() {
    let (mut state, mut action) = ServerState::start(false);
    for event in events() {
        assert_eq!(action, Action::Abort);
        let out = state.step(event);
        state = out.0;
        action = out.1;
        assert_eq!(state, ServerState::Terminated);
    }
    assert_eq!(action, Action::Abort);
}
