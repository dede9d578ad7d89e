//! Per-connection read/echo decisions.
//!
//! A connection handler owns one socket and repeats: read a
//! newline-terminated line, offer it to the message queue without
//! blocking, invoke the message hook if one is attached, and only then
//! echo the same bytes back. `actions_for_event` decides one read at a
//! time; `handle_lines` runs the same decisions over a whole session of
//! received lines and carries the session-wide guarantees.

use vstd::prelude::*;
use crate::protocol::lemma_line_split_flatten;
use crate::protocol::line_split;
use crate::protocol::split_lines;
use crate::queue::MessageQueue;
use crate::queue::push_all_effect;
use crate::queue::push_effect;

verus! {

/// What one attempt to read from the connection produced.
pub enum ReadEvent {
    /// The peer closed the connection: a zero-length read.
    Closed,
    /// A line arrived, trailing newline included.
    Line(String),
    /// Reading failed; the handler gives up on this connection.
    Failed,
}

/// One effect the handler asks its caller to perform. The order of the
/// actions in the returned list is binding: the hook runs before the
/// echo is written.
pub enum HandlerAction {
    /// Offer the line to the message queue, without blocking; a full
    /// queue drops it.
    QueueLine(String),
    /// Invoke the attached hook with the peer's address and the line.
    InvokeHook(String, String),
    /// Write the line, unchanged, back to the same socket and flush.
    EchoLine(String),
    /// Stop reading and release the connection.
    CloseConnection,
}

/// Decides what a handler does with one read outcome. A received line
/// is queued, then (when a hook is attached) handed to the hook, then
/// echoed back unchanged — in exactly that order; a closed connection
/// or a failed read ends the handler, and an error never propagates
/// beyond it.
pub fn actions_for_event(peer: &str, event: ReadEvent, hook_attached: bool) -> (acts: Vec<
    HandlerAction,
>)
    ensures
        event is Closed || event is Failed ==> acts@.len() == 1 && acts@[0] is CloseConnection,
        event matches ReadEvent::Line(l) ==> ({
            &&& hook_attached ==> {
                &&& acts@.len() == 3
                &&& acts@[0] matches HandlerAction::QueueLine(m) && m@ == l@
                &&& acts@[1] matches HandlerAction::InvokeHook(p, h) && p@ == peer@ && h@ == l@
                &&& acts@[2] matches HandlerAction::EchoLine(e) && e@ == l@
            }
            &&& !hook_attached ==> {
                &&& acts@.len() == 2
                &&& acts@[0] matches HandlerAction::QueueLine(m) && m@ == l@
                &&& acts@[1] matches HandlerAction::EchoLine(e) && e@ == l@
            }
        }),
{
    let mut acts: Vec<HandlerAction> = Vec::new();
    match event {
        ReadEvent::Line(l) => {
            acts.push(HandlerAction::QueueLine(l.clone()));
            if hook_attached {
                acts.push(HandlerAction::InvokeHook(String::from_str(peer), l.clone()));
            }
            acts.push(HandlerAction::EchoLine(l));
        },
        ReadEvent::Closed => {
            acts.push(HandlerAction::CloseConnection);
        },
        ReadEvent::Failed => {
            acts.push(HandlerAction::CloseConnection);
        },
    }
    acts
}

/// Appending one more message to a run of pushes is one more push at
/// the end.
pub proof fn lemma_push_all_snoc(s: Seq<Seq<char>>, cap: nat, ms: Seq<Seq<char>>, m: Seq<char>)
    ensures
        push_all_effect(s, cap, ms.push(m)) == push_effect(push_all_effect(s, cap, ms), cap, m),
    decreases ms.len(),
{
    if ms.len() == 0 {
        assert(ms.push(m)[0] == m);
        assert(ms.push(m).drop_first() =~= Seq::<Seq<char>>::empty());
        assert(push_all_effect(s, cap, ms.push(m)) == push_all_effect(
            push_effect(s, cap, m),
            cap,
            Seq::<Seq<char>>::empty(),
        ));
        assert(push_all_effect(push_effect(s, cap, m), cap, Seq::<Seq<char>>::empty())
            == push_effect(s, cap, m));
        assert(push_all_effect(s, cap, ms) == s);
    } else {
        assert(ms.push(m)[0] == ms[0]);
        assert(ms.push(m).drop_first() =~= ms.drop_first().push(m));
        lemma_push_all_snoc(push_effect(s, cap, ms[0]), cap, ms.drop_first(), m);
        assert(push_all_effect(s, cap, ms.push(m)) == push_all_effect(
            push_effect(s, cap, ms[0]),
            cap,
            ms.drop_first().push(m),
        ));
    }
}

/// One handler's whole session over the lines it reads, in order:
/// every line is offered to the queue (lossily, in arrival order), the
/// hook — when attached — sees every line exactly once, and the echoes
/// are exactly the received lines in the order they were received.
pub fn handle_lines(peer: &str, lines: &Vec<String>, hook_attached: bool, queue: &mut MessageQueue)
    -> (r: (Vec<String>, Vec<String>))
    requires
        old(queue).wf(),
    ensures
        final(queue).wf(),
        final(queue).cap() == old(queue).cap(),
        final(queue)@ == push_all_effect(
            old(queue)@,
            old(queue).cap(),
            lines@.map_values(|l: String| l@),
        ),
        r.0@.len() == lines@.len(),
        forall|i: int| 0 <= i < lines@.len() ==> #[trigger] r.0@[i]@ == lines@[i]@,
        hook_attached ==> r.1@.len() == lines@.len() && forall|i: int|
            0 <= i < lines@.len() ==> #[trigger] r.1@[i]@ == lines@[i]@,
        !hook_attached ==> r.1@.len() == 0,
{
    let ghost views = lines@.map_values(|l: String| l@);
    let mut echoes: Vec<String> = Vec::new();
    let mut hooked: Vec<String> = Vec::new();
    let mut j: usize = 0;
    while j < lines.len()
        invariant
            j <= lines@.len(),
            views == lines@.map_values(|l: String| l@),
            queue.wf(),
            queue.cap() == old(queue).cap(),
            queue@ == push_all_effect(old(queue)@, old(queue).cap(), views.take(j as int)),
            echoes@.len() == j,
            forall|i: int| 0 <= i < j ==> #[trigger] echoes@[i]@ == lines@[i]@,
            hook_attached ==> hooked@.len() == j && forall|i: int|
                0 <= i < j ==> #[trigger] hooked@[i]@ == lines@[i]@,
            !hook_attached ==> hooked@.len() == 0,
        decreases lines@.len() - j,
    {
        let line = &lines[j];
        queue.try_push(line.clone());
        proof {
            assert(views.take(j + 1) =~= views.take(j as int).push(views[j as int]));
            lemma_push_all_snoc(
                old(queue)@,
                old(queue).cap(),
                views.take(j as int),
                views[j as int],
            );
        }
        if hook_attached {
            hooked.push(line.clone());
        }
        echoes.push(line.clone());
        j = j + 1;
    }
    proof {
        assert(views.take(lines@.len() as int) =~= views);
    }
    (echoes, hooked)
}

/// One handler's whole session, from the raw characters received on
/// the connection to the raw characters echoed back: the stream is
/// framed into newline-terminated lines, every line is offered to the
/// queue and — when a hook is attached — seen by the hook exactly
/// once, and the echoed characters, joined back together, are exactly
/// the received characters, in order.
pub fn handle_stream(peer: &str, input: &str, hook_attached: bool, queue: &mut MessageQueue) -> (r:
    (Vec<String>, Vec<String>))
    requires
        old(queue).wf(),
    ensures
        final(queue).wf(),
        final(queue).cap() == old(queue).cap(),
        final(queue)@ == push_all_effect(old(queue)@, old(queue).cap(), line_split(input@)),
        r.0@.map_values(|l: String| l@) == line_split(input@),
        r.0@.map_values(|l: String| l@).flatten() == input@,
        hook_attached ==> r.1@.map_values(|l: String| l@) == line_split(input@),
        !hook_attached ==> r.1@.len() == 0,
{
    let lines = split_lines(input);
    let (echoes, hooked) = handle_lines(peer, &lines, hook_attached, queue);
    proof {
        assert(echoes@.map_values(|l: String| l@) =~= lines@.map_values(|l: String| l@));
        if hook_attached {
            assert(hooked@.map_values(|l: String| l@) =~= lines@.map_values(|l: String| l@));
        }
        lemma_line_split_flatten(input@);
    }
    (echoes, hooked)
}

} // verus!
