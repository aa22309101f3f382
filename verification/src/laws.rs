//! Session-level guarantees of the dispatch state machine, stated over
//! whole runs: a run starts from `init_v` and consumes an arbitrary
//! sequence of events, one `step_v` per event.

use crate::codec::parse_inbound;
use crate::command::{bad_args, good_args, reset_args, lemma_args_distinct};
use crate::dispatch::{init_v, repo_of, step_v, ActionV, EventV, MachineV, PhaseV};
use crate::messages::{BisectError, InboundMessage, MsgV};
use vstd::prelude::*;

verus! {

/// The machine states a run passes through, one per consumed event.
pub open spec fn final_state(m: MachineV, events: Seq<EventV>) -> MachineV
    decreases events.len(),
{
    if events.len() == 0 {
        m
    } else {
        final_state(step_v(m, events[0]).0, events.drop_first())
    }
}

/// The actions a run emits, one per consumed event.
pub open spec fn emitted(m: MachineV, events: Seq<EventV>) -> Seq<ActionV>
    decreases events.len(),
{
    if events.len() == 0 {
        Seq::empty()
    } else {
        seq![step_v(m, events[0]).1] + emitted(step_v(m, events[0]).0, events.drop_first())
    }
}

/// How many actions of a run satisfy `p`.
pub open spec fn count_where(acts: Seq<ActionV>, p: spec_fn(ActionV) -> bool) -> nat
    decreases acts.len(),
{
    if acts.len() == 0 {
        0
    } else {
        (if p(acts[0]) {
            1nat
        } else {
            0nat
        }) + count_where(acts.drop_first(), p)
    }
}

/// An invocation of the reset command.
pub open spec fn is_reset_run(a: ActionV) -> bool {
    a matches ActionV::Run(c) && c.args == reset_args()
}

/// An invocation of any external command.
pub open spec fn is_run(a: ActionV) -> bool {
    a is Run
}

/// An outbound protocol message of any kind.
pub open spec fn is_send(a: ActionV) -> bool {
    a is Send
}

/// The terminal `Finish` message.
pub open spec fn is_finish_send(a: ActionV) -> bool {
    a matches ActionV::Send(msg) && msg is Finish
}

proof fn lemma_count_cons(a: ActionV, s: Seq<ActionV>, p: spec_fn(ActionV) -> bool)
    ensures
        count_where(seq![a] + s, p) == (if p(a) {
            1nat
        } else {
            0nat
        }) + count_where(s, p),
{
    assert((seq![a] + s).drop_first() =~= s);
    assert((seq![a] + s)[0] == a);
}

/// The machine, standing at a judgment prompt, received a frame carrying
/// the judgment `j`.
pub open spec fn judged(m: MachineV, e: EventV, j: InboundMessage) -> bool {
    &&& m.phase is AwaitJudgment
    &&& e matches EventV::FrameReceived(Some(f)) && parse_inbound(f) == Ok::<
        InboundMessage,
        crate::messages::ProtocolError,
    >(j)
}

/// The event classifies parser output as a `Finish`.
pub open spec fn classified_finish(e: EventV) -> bool {
    e matches EventV::OutputParsed(Some(po)) && po is Finish
}

/// A run judges commands: the good-judgment command is run exactly in
/// answer to a received frame carrying the Good judgment, the bad-judgment
/// command exactly in answer to Bad, and in both cases the command is bound
/// to the machine's repository path and the machine returns to running it.
pub proof fn lemma_judgment_selects_command(m: MachineV, e: EventV)
    ensures
        (step_v(m, e).1 matches ActionV::Run(c) && c.args == good_args()) <==> judged(
            m,
            e,
            InboundMessage::Good,
        ),
        (step_v(m, e).1 matches ActionV::Run(c) && c.args == bad_args()) <==> judged(
            m,
            e,
            InboundMessage::Bad,
        ),
        (judged(m, e, InboundMessage::Good) || judged(m, e, InboundMessage::Bad)) ==> ({
            &&& step_v(m, e).1 matches ActionV::Run(c) && c.repo == repo_of(m)
            &&& step_v(m, e).0.phase is AwaitCommand
        }),
{
    lemma_args_distinct(arbitrary(), arbitrary());
}

/// The reset command is run precisely when a `Finish` output is classified.
pub proof fn lemma_reset_runs_exactly_on_finish(m: MachineV, e: EventV)
    ensures
        is_reset_run(step_v(m, e).1) <==> (m.phase is AwaitParse && classified_finish(e)),
{
    lemma_args_distinct(arbitrary(), arbitrary());
}

/// Once the reset command has been issued, the remainder of the run never
/// issues it again, and never returns to classifying parser output.
proof fn lemma_after_reset_quiet(m: MachineV, events: Seq<EventV>)
    requires
        m.phase is AwaitReset || m.phase is AwaitFinishAck || m.phase is Done,
    ensures
        count_where(emitted(m, events), |a: ActionV| is_reset_run(a)) == 0,
        ({
            let f = final_state(m, events).phase;
            f is AwaitReset || f is AwaitFinishAck || f is Done
        }),
    decreases events.len(),
{
    lemma_args_distinct(arbitrary(), arbitrary());
    if events.len() > 0 {
        let (m1, a) = step_v(m, events[0]);
        assert(!is_reset_run(a));
        lemma_after_reset_quiet(m1, events.drop_first());
        lemma_count_cons(a, emitted(m1, events.drop_first()), |x: ActionV| is_reset_run(x));
    }
}

/// In any run, from any starting state, the reset command is issued at most
/// once; together with `lemma_reset_runs_exactly_on_finish` this makes it
/// exactly once per run that classifies a `Finish`, whatever came before.
pub proof fn lemma_reset_at_most_once(m: MachineV, events: Seq<EventV>)
    ensures
        count_where(emitted(m, events), |a: ActionV| is_reset_run(a)) <= 1,
    decreases events.len(),
{
    if events.len() > 0 {
        let (m1, a) = step_v(m, events[0]);
        lemma_count_cons(a, emitted(m1, events.drop_first()), |x: ActionV| is_reset_run(x));
        if is_reset_run(a) {
            lemma_reset_runs_exactly_on_finish(m, events[0]);
            assert(m1.phase is AwaitReset);
            lemma_after_reset_quiet(m1, events.drop_first());
        } else {
            lemma_reset_at_most_once(m1, events.drop_first());
        }
    }
}

/// The machine after the first `i` events of a run.
pub open spec fn state_at(m: MachineV, events: Seq<EventV>, i: int) -> MachineV {
    final_state(m, events.take(i))
}

proof fn lemma_emitted_len(m: MachineV, events: Seq<EventV>)
    ensures
        emitted(m, events).len() == events.len(),
    decreases events.len(),
{
    if events.len() > 0 {
        lemma_emitted_len(step_v(m, events[0]).0, events.drop_first());
    }
}

proof fn lemma_emitted_at(m: MachineV, events: Seq<EventV>, i: int)
    requires
        0 <= i < events.len(),
    ensures
        emitted(m, events)[i] == step_v(state_at(m, events, i), events[i]).1,
    decreases i,
{
    let (m1, a0) = step_v(m, events[0]);
    if i == 0 {
        assert(events.take(0) =~= Seq::empty());
    } else {
        let rest = events.drop_first();
        lemma_emitted_len(m1, rest);
        lemma_emitted_at(m1, rest, i - 1);
        assert(events.take(i).drop_first() =~= rest.take(i - 1));
        assert(events.take(i)[0] == events[0]);
        assert(emitted(m, events)[i] == emitted(m1, rest)[i - 1]);
    }
}

proof fn lemma_count_at_least_one(s: Seq<ActionV>, p: spec_fn(ActionV) -> bool, i: int)
    requires
        0 <= i < s.len(),
        p(s[i]),
    ensures
        count_where(s, p) >= 1,
    decreases s.len(),
{
    if i > 0 {
        lemma_count_at_least_one(s.drop_first(), p, i - 1);
    }
}

/// The reset command is run exactly once per dispatch run: if the run's
/// `i`-th event classifies a `Finish`, the reset command is issued at that
/// very step and at no other step of the whole run.
pub proof fn lemma_reset_exactly_once(m: MachineV, events: Seq<EventV>, i: int)
    requires
        0 <= i < events.len(),
        state_at(m, events, i).phase is AwaitParse,
        classified_finish(events[i]),
    ensures
        is_reset_run(emitted(m, events)[i]),
        count_where(emitted(m, events), |a: ActionV| is_reset_run(a)) == 1,
{
    lemma_emitted_len(m, events);
    lemma_emitted_at(m, events, i);
    lemma_reset_runs_exactly_on_finish(state_at(m, events, i), events[i]);
    lemma_reset_at_most_once(m, events);
    lemma_count_at_least_one(emitted(m, events), |a: ActionV| is_reset_run(a), i);
}

/// A terminal machine stays terminal and never asks for anything again.
pub proof fn lemma_done_is_quiescent(m: MachineV, events: Seq<EventV>)
    requires
        m.phase is Done,
    ensures
        emitted(m, events) =~= Seq::new(events.len(), |i: int| ActionV::Stop),
        final_state(m, events) == m,
    decreases events.len(),
{
    if events.len() > 0 {
        lemma_done_is_quiescent(m, events.drop_first());
        assert(emitted(m, events) =~= seq![ActionV::Stop] + emitted(m, events.drop_first()));
    }
}

/// The `Finish` message is sent only in the step that sees the reset
/// command succeed.
pub proof fn lemma_finish_sent_only_after_reset_success(m: MachineV, e: EventV)
    ensures
        is_finish_send(step_v(m, e).1) ==> m.phase is AwaitReset && e
            matches EventV::CommandCompleted(Some((true, _))),
{
}

/// If the reset command fails, the session ends abnormally and no `Finish`
/// message is ever sent, however the run goes on.
pub proof fn lemma_reset_failure_sends_no_finish(m: MachineV, e: EventV, rest: Seq<EventV>)
    requires
        m.phase is AwaitReset,
        match e {
            EventV::CommandCompleted(None) => true,
            EventV::CommandCompleted(Some((success, _))) => !success,
            _ => false,
        },
    ensures
        step_v(m, e).1 == ActionV::Stop,
        step_v(m, e).0.phase matches PhaseV::Done(o) && o is Abnormal,
        forall|i: int|
            0 <= i < rest.len() ==> #[trigger] emitted(step_v(m, e).0, rest)[i]
                == ActionV::Stop,
{
    lemma_done_is_quiescent(step_v(m, e).0, rest);
}

/// With the repository path unset: the whole run's first and only outbound
/// message is the `RepoPathNotSet` error, sent at once, and no external
/// command is ever run.
pub proof fn lemma_missing_repo_only_error(bad: Seq<char>, good: Seq<char>, events: Seq<EventV>)
    ensures
        init_v(None, bad, good).1 == ActionV::Send(MsgV::Error(BisectError::RepoPathNotSet)),
        count_where(emitted(init_v(None, bad, good).0, events), |a: ActionV| is_run(a)) == 0,
        count_where(emitted(init_v(None, bad, good).0, events), |a: ActionV| is_send(a)) == 0,
{
    let m0 = init_v(None, bad, good).0;
    lemma_error_track_quiet(m0, events);
}

/// From the error-delivery track the machine only acknowledges the send and
/// stops; it never runs a command and never sends another message.
proof fn lemma_error_track_quiet(m: MachineV, events: Seq<EventV>)
    requires
        m.phase is AwaitErrorAck || m.phase is Done,
    ensures
        count_where(emitted(m, events), |a: ActionV| is_run(a)) == 0,
        count_where(emitted(m, events), |a: ActionV| is_send(a)) == 0,
    decreases events.len(),
{
    if events.len() > 0 {
        let (m1, a) = step_v(m, events[0]);
        assert(a == ActionV::Stop);
        lemma_error_track_quiet(m1, events.drop_first());
        lemma_count_cons(a, emitted(m1, events.drop_first()), |x: ActionV| is_run(x));
        lemma_count_cons(a, emitted(m1, events.drop_first()), |x: ActionV| is_send(x));
    }
}

} // verus!
