//! The controller's global guarantees, stated over whole sequences of
//! events: one active mode at every observation point, shutdown runs the
//! active mode's stop procedure exactly once, and cross-mode events are
//! discarded harmlessly.

use vstd::prelude::*;

use crate::lifecycle::{is_shutdown_request, message_mode, step_spec, ActionV, Message, GUI};

verus! {

/// The controller after processing a sequence of events in arrival order.
pub open spec fn run_spec(pre: GUI, msgs: Seq<Message>) -> GUI
    decreases msgs.len(),
{
    if msgs.len() == 0 {
        pre
    } else {
        step_spec(run_spec(pre, msgs.drop_last()), msgs.last()).0
    }
}

/// The actions the surrounding process is asked to perform, one per event.
pub open spec fn trace_spec(pre: GUI, msgs: Seq<Message>) -> Seq<ActionV>
    decreases msgs.len(),
{
    if msgs.len() == 0 {
        Seq::empty()
    } else {
        trace_spec(pre, msgs.drop_last()).push(
            step_spec(run_spec(pre, msgs.drop_last()), msgs.last()).1,
        )
    }
}

/// A controller holds exactly one of the four modes: never zero, never two.
pub open spec fn exactly_one_mode(g: GUI) -> bool {
    ((if g.state is Launcher {
        1int
    } else {
        0int
    }) + (if g.state is Installer {
        1int
    } else {
        0int
    }) + (if g.state is Loader {
        1int
    } else {
        0int
    }) + (if g.state is App {
        1int
    } else {
        0int
    })) == 1
}

/// One action is recorded per event processed.
pub proof fn lemma_trace_len(pre: GUI, msgs: Seq<Message>)
    ensures
        trace_spec(pre, msgs).len() == msgs.len(),
    decreases msgs.len(),
{
    if msgs.len() > 0 {
        lemma_trace_len(pre, msgs.drop_last());
    }
}

/// Processing one more event steps the controller once.
pub proof fn lemma_run_snoc(pre: GUI, msgs: Seq<Message>, i: int)
    requires
        0 <= i < msgs.len(),
    ensures
        run_spec(pre, msgs.take(i + 1)) == step_spec(run_spec(pre, msgs.take(i)), msgs[i]).0,
{
    assert(msgs.take(i + 1).drop_last() =~= msgs.take(i));
    assert(msgs.take(i + 1).last() == msgs[i]);
}

/// The action recorded for an event is the one its step yields.
pub proof fn lemma_trace_index(pre: GUI, msgs: Seq<Message>, i: int)
    requires
        0 <= i < msgs.len(),
    ensures
        trace_spec(pre, msgs)[i] == step_spec(run_spec(pre, msgs.take(i)), msgs[i]).1,
    decreases msgs.len(),
{
    lemma_trace_len(pre, msgs.drop_last());
    if i == msgs.len() - 1 {
        assert(msgs.drop_last() =~= msgs.take(i));
    } else {
        lemma_trace_index(pre, msgs.drop_last(), i);
        assert(msgs.drop_last().take(i) =~= msgs.take(i));
        assert(msgs.drop_last()[i] == msgs[i]);
    }
}

/// A stopped controller stays as it is and asks for nothing more.
pub proof fn lemma_stopped_absorbing(pre: GUI, msgs: Seq<Message>)
    requires
        pre.stopped,
    ensures
        run_spec(pre, msgs) == pre,
        forall|j: int| 0 <= j < msgs.len() ==> trace_spec(pre, msgs)[j] == ActionV::Idle,
    decreases msgs.len(),
{
    if msgs.len() > 0 {
        lemma_stopped_absorbing(pre, msgs.drop_last());
        lemma_trace_len(pre, msgs.drop_last());
        assert forall|j: int| 0 <= j < msgs.len() implies trace_spec(pre, msgs)[j]
            == ActionV::Idle by {
            if j < msgs.len() - 1 {
                assert(trace_spec(pre, msgs)[j] == trace_spec(pre, msgs.drop_last())[j]);
            }
        }
    }
}

/// Once the controller is stopped after some prefix of the events, it is
/// still stopped after every longer prefix.
pub proof fn lemma_stopped_stays(pre: GUI, msgs: Seq<Message>, i: int, j: int)
    requires
        0 <= i <= j <= msgs.len(),
        run_spec(pre, msgs.take(i)).stopped,
    ensures
        run_spec(pre, msgs.take(j)).stopped,
    decreases j - i,
{
    if i < j {
        lemma_stopped_stays(pre, msgs, i, j - 1);
        lemma_run_snoc(pre, msgs, j - 1);
    }
}

/// Law: across any sequence of events the controller holds exactly one
/// active mode at every observation point, and a settings read stays
/// outstanding only under the mode that requested it.
pub proof fn lemma_one_active_mode(pre: GUI, msgs: Seq<Message>)
    requires
        pre.wf(),
    ensures
        run_spec(pre, msgs).wf(),
        exactly_one_mode(run_spec(pre, msgs)),
    decreases msgs.len(),
{
    if msgs.len() > 0 {
        lemma_one_active_mode(pre, msgs.drop_last());
    }
}

/// Law: the first shutdown request that reaches a live controller runs the
/// then-active mode's stop procedure, stops the controller with that mode
/// still in place, and every later event is discarded with no further
/// action or state change.
pub proof fn lemma_shutdown_stops_active_mode_once(pre: GUI, msgs: Seq<Message>, i: int)
    requires
        0 <= i < msgs.len(),
        is_shutdown_request(msgs[i]),
        !run_spec(pre, msgs.take(i)).stopped,
    ensures
        trace_spec(pre, msgs)[i] == ActionV::Stop(run_spec(pre, msgs.take(i)).state.kind()),
        run_spec(pre, msgs.take(i + 1)).stopped,
        run_spec(pre, msgs.take(i + 1)).state == run_spec(pre, msgs.take(i)).state,
        forall|j: int| i < j < msgs.len() ==> trace_spec(pre, msgs)[j] == ActionV::Idle,
{
    lemma_trace_index(pre, msgs, i);
    lemma_run_snoc(pre, msgs, i);
    assert forall|j: int| i < j < msgs.len() implies trace_spec(pre, msgs)[j]
        == ActionV::Idle by {
        lemma_stopped_stays(pre, msgs, i + 1, j);
        lemma_trace_index(pre, msgs, j);
    }
}

/// Law: no stop procedure is ever invoked twice — after any stop action in
/// the trace, no later stop action appears.
pub proof fn lemma_stop_at_most_once(pre: GUI, msgs: Seq<Message>, j1: int, j2: int)
    requires
        0 <= j1 < j2 < msgs.len(),
        trace_spec(pre, msgs)[j1] is Stop,
    ensures
        !(trace_spec(pre, msgs)[j2] is Stop),
{
    lemma_trace_index(pre, msgs, j1);
    lemma_trace_index(pre, msgs, j2);
    assert(step_spec(run_spec(pre, msgs.take(j1)), msgs[j1]).0.stopped);
    lemma_run_snoc(pre, msgs, j1);
    lemma_stopped_stays(pre, msgs, j1 + 1, j2);
}

/// Law: an event tagged for one mode arriving while another mode is active
/// is discarded: no state change, no action, no panic.
pub proof fn lemma_cross_mode_event_discarded(pre: GUI, m: Message)
    requires
        message_mode(m) is Some,
        message_mode(m) != Some(pre.state.kind()),
    ensures
        step_spec(pre, m).0 == pre,
        step_spec(pre, m).1 == ActionV::Idle,
{
}

} // verus!
