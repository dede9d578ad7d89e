//! The accept loop and the server handle's shutdown decision.
//!
//! The accept loop is a state machine racing two awaitables: the
//! single-use shutdown signal against the next inbound connection,
//! first-completed-wins. `accept_step` decides one round of that race,
//! `accept_loop_exit` is the loop body's final transition, and
//! `run_accept_loop` plays a whole schedule of race outcomes to show
//! that no handler is ever spawned once the signal has been received.

use vstd::prelude::*;

verus! {

/// Errors the server surfaces to its owner.
#[derive(Clone, Copy, Debug, PartialEq, Eq, Structural)]
pub enum EchoServerError {
    /// A socket operation failed.
    IoError,
    /// Awaiting a spawned task failed.
    TaskJoinError,
    /// The shutdown signal could not be delivered, or the accept loop
    /// could not be awaited to completion.
    KillFailed,
}

/// The accept loop's lifecycle.
#[derive(Clone, Copy, Debug, PartialEq, Eq, Structural)]
pub enum AcceptLoopState {
    /// Racing the shutdown signal against the next inbound connection.
    Running,
    /// The shutdown signal won the race; the pending accept is abandoned.
    ShuttingDown,
    /// The loop body has exited; no further accept attempt occurs.
    Stopped,
}

/// What one round of the accept race resolved to.
#[derive(Clone, Copy, Debug, PartialEq, Eq, Structural)]
pub enum AcceptEvent {
    /// The single-use shutdown signal arrived.
    ShutdownReceived,
    /// A new inbound connection was accepted.
    ConnectionAccepted,
    /// The accept attempt failed; not fatal to the loop.
    AcceptFailed,
}

/// What the loop's driver must do after one round.
#[derive(Clone, Copy, Debug, PartialEq, Eq, Structural)]
pub enum AcceptAction {
    /// Spawn a new, independent connection handler and re-enter the race.
    SpawnHandler,
    /// Note the failed accept and re-enter the race.
    ContinueAccepting,
    /// Leave the loop; the in-progress accept attempt is dropped.
    ExitLoop,
}

/// One round of the running accept loop: a received shutdown signal
/// wins the race and ends the loop; an accepted connection spawns a
/// handler and the race is re-entered at once; a failed accept is
/// tolerated. A handler is spawned exactly on an accepted connection.
pub fn accept_step(state: AcceptLoopState, event: AcceptEvent) -> (r: (
    AcceptLoopState,
    AcceptAction,
))
    requires
        state is Running,
    ensures
        event is ShutdownReceived ==> r.0 is ShuttingDown && r.1 is ExitLoop,
        event is ConnectionAccepted ==> r.0 is Running && r.1 is SpawnHandler,
        event is AcceptFailed ==> r.0 is Running && r.1 is ContinueAccepting,
        r.1 is SpawnHandler <==> event is ConnectionAccepted,
        r.0 is Running <==> !(event is ShutdownReceived),
{
    match event {
        AcceptEvent::ShutdownReceived => (AcceptLoopState::ShuttingDown, AcceptAction::ExitLoop),
        AcceptEvent::ConnectionAccepted => (AcceptLoopState::Running, AcceptAction::SpawnHandler),
        AcceptEvent::AcceptFailed => (AcceptLoopState::Running, AcceptAction::ContinueAccepting),
    }
}

/// The loop body's exit: a shutting-down loop stops, and stays stopped.
pub fn accept_loop_exit(state: AcceptLoopState) -> (r: AcceptLoopState)
    requires
        state is ShuttingDown,
    ensures
        r is Stopped,
{
    AcceptLoopState::Stopped
}

/// Whether a schedule of race outcomes contains the shutdown signal.
pub open spec fn has_shutdown(es: Seq<AcceptEvent>) -> bool {
    exists|i: int| 0 <= i < es.len() && es[i] is ShutdownReceived
}

/// How many handlers a run of the accept loop spawns on a schedule:
/// one per accepted connection strictly before the first shutdown
/// signal, and none after it.
pub open spec fn spawn_count(es: Seq<AcceptEvent>) -> nat
    decreases es.len(),
{
    if es.len() == 0 {
        0
    } else if es[0] is ShutdownReceived {
        0
    } else if es[0] is ConnectionAccepted {
        1 + spawn_count(es.drop_first())
    } else {
        spawn_count(es.drop_first())
    }
}

/// Plays the accept loop over a whole schedule of race outcomes. The
/// loop ends in `Stopped` exactly when the schedule delivers the
/// shutdown signal, keeps running otherwise, and spawns exactly one
/// handler per connection accepted before the signal — none after it.
pub fn run_accept_loop(events: &Vec<AcceptEvent>) -> (r: (AcceptLoopState, usize))
    ensures
        r.0 is Stopped <==> has_shutdown(events@),
        r.0 is Running <==> !has_shutdown(events@),
        r.1 == spawn_count(events@),
{
    let mut state = AcceptLoopState::Running;
    let mut spawned: usize = 0;
    let mut j: usize = 0;
    let mut done = false;
    proof {
        assert(events@.skip(0) =~= events@);
        assert(events@.take(0) =~= Seq::<AcceptEvent>::empty());
    }
    while j < events.len() && !done
        invariant
            j <= events@.len(),
            spawned <= j,
            state is Running <==> !done,
            done ==> state is Stopped,
            done <==> has_shutdown(events@.take(j as int)),
            spawned + if done {
                0nat
            } else {
                spawn_count(events@.skip(j as int))
            } == spawn_count(events@),
        decreases events@.len() - j,
    {
        let ghost rest = events@.skip(j as int);
        proof {
            assert(rest[0] == events@[j as int]);
            assert(rest.drop_first() =~= events@.skip(j + 1));
            assert(events@.take(j + 1).drop_last() =~= events@.take(j as int));
            assert(events@.take(j + 1)[j as int] == events@[j as int]);
        }
        let (next, action) = accept_step(state, events[j]);
        match action {
            AcceptAction::SpawnHandler => {
                spawned = spawned + 1;
            },
            AcceptAction::ContinueAccepting => {},
            AcceptAction::ExitLoop => {
                state = accept_loop_exit(next);
                done = true;
            },
        }
        if !done {
            state = next;
        }
        j = j + 1;
        proof {
            if done {
                assert(has_shutdown(events@.take(j as int)));
            } else {
                assert forall|i: int| 0 <= i < j implies !(events@.take(j as int)[i]
                    is ShutdownReceived) by {
                    if i < j - 1 {
                        assert(events@.take(j - 1)[i] == events@.take(j as int)[i]);
                    }
                }
            }
        }
    }
    proof {
        if !done {
            assert(events@.take(j as int) =~= events@);
            assert(events@.skip(j as int) =~= Seq::<AcceptEvent>::empty());
        } else {
            let k = choose|i: int|
                0 <= i < events@.take(j as int).len() && events@.take(j as int)[i]
                    is ShutdownReceived;
            assert(events@[k] is ShutdownReceived);
        }
    }
    (state, spawned)
}

/// Decides what `shutdown` reports: delivering the single-use shutdown
/// signal and awaiting the accept loop's completion must both succeed;
/// either failure surfaces as `KillFailed`.
pub fn shutdown_outcome(signal_delivered: bool, join_succeeded: bool) -> (r: Result<
    (),
    EchoServerError,
>)
    ensures
        r is Ok <==> signal_delivered && join_succeeded,
        !(signal_delivered && join_succeeded) ==> (r matches Err(e) && e is KillFailed),
{
    if signal_delivered && join_succeeded {
        Ok(())
    } else {
        Err(EchoServerError::KillFailed)
    }
}

} // verus!
