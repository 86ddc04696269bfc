//! Runs of the machine over many events, and what holds of every run.

use vstd::prelude::*;
use crate::reply::response_bytes;
use crate::server::{
    initial,
    transition,
    ActionView,
    EventView,
    ServerState,
    Stage,
    BUFFER_CAPACITY,
    CONNECTION_NOTICE,
};

verus! {

/// The state that the machine reaches from `state` over `events`, taken in
/// order.
pub open spec fn run(state: ServerState, events: Seq<EventView>) -> ServerState
    decreases events.len(),
{
    if events.len() == 0 {
        state
    } else {
        run(transition(state, events[0]).0, events.drop_first())
    }
}

/// The operations that the machine asks for from `state` over `events`, one
/// for each event, in order.
pub open spec fn actions(state: ServerState, events: Seq<EventView>) -> Seq<ActionView>
    decreases events.len(),
{
    if events.len() == 0 {
        Seq::empty()
    } else {
        seq![transition(state, events[0]).1] + actions(
            transition(state, events[0]).0,
            events.drop_first(),
        )
    }
}

/// The events of one connection on which every operation succeeds: the read
/// returns `request`, and the write takes `sent` bytes.
pub open spec fn connection(request: Seq<u8>, sent: usize) -> Seq<EventView> {
    seq![
        EventView::Connected,
        EventView::Announced,
        EventView::Received(request),
        EventView::Sent(sent),
        EventView::Flushed,
        EventView::Closed,
    ]
}

/// The operations by which one connection is served, and the one that
/// follows them: the notice, one read, the reply, a flush, the close, and
/// the next accept.
pub open spec fn service() -> Seq<ActionView> {
    seq![
        ActionView::Announce(CONNECTION_NOTICE@),
        ActionView::Read(BUFFER_CAPACITY),
        ActionView::Write(response_bytes()),
        ActionView::Flush,
        ActionView::Close,
        ActionView::Accept,
    ]
}

/// A run over two runs of events is the second run from where the first
/// ends, and its operations are those of the first followed by those of the
/// second.
pub proof fn lemma_run_concat(state: ServerState, first: Seq<EventView>, second: Seq<EventView>)
    ensures
        run(state, first + second) == run(run(state, first), second),
        actions(state, first + second) == actions(state, first) + actions(
            run(state, first),
            second,
        ),
    decreases first.len(),
{
    if first.len() == 0 {
        assert(first + second =~= second);
        assert(actions(state, first) + actions(run(state, first), second) =~= actions(
            state,
            second,
        ));
    } else {
        let next = transition(state, first[0]).0;
        assert((first + second).drop_first() =~= first.drop_first() + second);
        assert((first + second)[0] == first[0]);
        lemma_run_concat(next, first.drop_first(), second);
        assert(actions(state, first + second) =~= actions(state, first) + actions(
            run(state, first),
            second,
        ));
    }
}

/// The machine asks for one operation for each event.
pub proof fn lemma_one_action_per_event(state: ServerState, events: Seq<EventView>)
    ensures
        actions(state, events).len() == events.len(),
    decreases events.len(),
{
    if events.len() > 0 {
        lemma_one_action_per_event(transition(state, events[0]).0, events.drop_first());
    }
}

/// Whatever the request and however many bytes the write takes, the reply
/// that is written is the fixed one, and a flush follows the write.
pub proof fn lemma_reply_is_fixed_and_flushed(request: Seq<u8>, sent: usize)
    ensures
        transition(ServerState::Listening(Stage::Reading), EventView::Received(request)) == (
            ServerState::Listening(Stage::Writing),
            ActionView::Write(response_bytes()),
        ),
        transition(ServerState::Listening(Stage::Writing), EventView::Sent(sent)) == (
            ServerState::Listening(Stage::Flushing),
            ActionView::Flush,
        ),
{
}

/// A request longer than the buffer does not stop the server: it keeps
/// listening, and writes the fixed reply.
pub proof fn lemma_long_request_is_answered(request: Seq<u8>)
    requires
        request.len() > BUFFER_CAPACITY,
    ensures
        transition(ServerState::Listening(Stage::Reading), EventView::Received(request)) == (
            ServerState::Listening(Stage::Writing),
            ActionView::Write(response_bytes()),
        ),
{
}

/// Every read that the machine asks for is of the buffer's size, whatever
/// came before.
pub proof fn lemma_every_read_is_of_buffer_size(
    state: ServerState,
    events: Seq<EventView>,
    i: int,
)
    requires
        0 <= i < events.len(),
    ensures
        actions(state, events)[i] matches ActionView::Read(capacity) ==> capacity
            == BUFFER_CAPACITY,
    decreases events.len(),
{
    lemma_one_action_per_event(transition(state, events[0]).0, events.drop_first());
    if i > 0 {
        lemma_every_read_is_of_buffer_size(
            transition(state, events[0]).0,
            events.drop_first(),
            i - 1,
        );
    }
}

/// Nothing but the fixed reply is ever written: in every run, from every
/// state, each write carries exactly the bytes of the reply.
pub proof fn lemma_every_write_is_the_reply(state: ServerState, events: Seq<EventView>, i: int)
    requires
        0 <= i < events.len(),
    ensures
        actions(state, events)[i] matches ActionView::Write(bytes) ==> bytes == response_bytes(),
    decreases events.len(),
{
    lemma_one_action_per_event(transition(state, events[0]).0, events.drop_first());
    if i > 0 {
        lemma_every_write_is_the_reply(
            transition(state, events[0]).0,
            events.drop_first(),
            i - 1,
        );
    }
}

/// A connection on which every operation succeeds is served in full:
/// it is sent the reply, flushed and closed. It leaves the server as it
/// found it, waiting for the next connection.
pub proof fn lemma_connection_is_served(request: Seq<u8>, sent: usize)
    ensures
        run(ServerState::Listening(Stage::Accepting), connection(request, sent))
            == ServerState::Listening(Stage::Accepting),
        actions(ServerState::Listening(Stage::Accepting), connection(request, sent)) == service(),
{
    let e0 = connection(request, sent);
    let e1 = e0.drop_first();
    let e2 = e1.drop_first();
    let e3 = e2.drop_first();
    let e4 = e3.drop_first();
    let e5 = e4.drop_first();
    let e6 = e5.drop_first();
    let s0 = ServerState::Listening(Stage::Accepting);
    let s1 = ServerState::Listening(Stage::Announcing);
    let s2 = ServerState::Listening(Stage::Reading);
    let s3 = ServerState::Listening(Stage::Writing);
    let s4 = ServerState::Listening(Stage::Flushing);
    let s5 = ServerState::Listening(Stage::Closing);
    assert(e6.len() == 0);
    assert(run(s0, e6) == s0 && actions(s0, e6) =~= Seq::empty());
    assert(e5[0] == EventView::Closed);
    assert(run(s5, e5) == s0 && actions(s5, e5) =~= service().subrange(5, 6));
    assert(e4[0] == EventView::Flushed);
    assert(run(s4, e4) == s0 && actions(s4, e4) =~= service().subrange(4, 6));
    assert(e3[0] == EventView::Sent(sent));
    assert(run(s3, e3) == s0 && actions(s3, e3) =~= service().subrange(3, 6));
    assert(e2[0] == EventView::Received(request));
    assert(run(s2, e2) == s0 && actions(s2, e2) =~= service().subrange(2, 6));
    assert(e1[0] == EventView::Announced);
    assert(run(s1, e1) == s0 && actions(s1, e1) =~= service().subrange(1, 6));
    assert(e0[0] == EventView::Connected);
    assert(run(s0, e0) == s0 && actions(s0, e0) =~= service());
}

/// Two connections served one after the other each get the fixed reply,
/// whatever the two requests are, and the server goes on listening.
pub proof fn lemma_sequential_connections(
    first_request: Seq<u8>,
    first_sent: usize,
    second_request: Seq<u8>,
    second_sent: usize,
)
    ensures
        run(
            ServerState::Listening(Stage::Accepting),
            connection(first_request, first_sent) + connection(second_request, second_sent),
        ) == ServerState::Listening(Stage::Accepting),
        actions(
            ServerState::Listening(Stage::Accepting),
            connection(first_request, first_sent) + connection(second_request, second_sent),
        ) == service() + service(),
{
    let start = ServerState::Listening(Stage::Accepting);
    lemma_connection_is_served(first_request, first_sent);
    lemma_connection_is_served(second_request, second_sent);
    lemma_run_concat(
        start,
        connection(first_request, first_sent),
        connection(second_request, second_sent),
    );
}

/// A failure is fatal wherever it is met: the server terminates and asks
/// for nothing but to give up.
pub proof fn lemma_failure_is_fatal(state: ServerState)
    ensures
        transition(state, EventView::Failed) == (ServerState::Terminated, ActionView::Abort),
{
}

/// A terminated server never listens again: whatever events follow, it
/// stays terminated and asks for nothing but to give up.
pub proof fn lemma_terminated_is_final(events: Seq<EventView>)
    ensures
        run(ServerState::Terminated, events) == ServerState::Terminated,
        actions(ServerState::Terminated, events) == Seq::new(
            events.len(),
            |i: int| ActionView::Abort,
        ),
    decreases events.len(),
{
    if events.len() > 0 {
        lemma_terminated_is_final(events.drop_first());
    }
    assert(actions(ServerState::Terminated, events) =~= Seq::new(
        events.len(),
        |i: int| ActionView::Abort,
    ));
}

/// A server whose socket could not be bound never reaches the accept loop:
/// it starts terminated, and no event brings it to accept, read or write.
pub proof fn lemma_failed_bind_never_accepts(events: Seq<EventView>)
    ensures
        initial(false) == (ServerState::Terminated, ActionView::Abort),
        run(initial(false).0, events) == ServerState::Terminated,
        actions(initial(false).0, events) == Seq::new(events.len(), |i: int| ActionView::Abort),
{
    lemma_terminated_is_final(events);
}

} // verus!
