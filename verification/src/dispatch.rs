//! The bisection dispatch state machine: an explicit finite-state loop that
//! alternates between driving the external process and exchanging exactly
//! one message with the client per iteration.
//!
//! Each step consumes the machine and an event — the completion of whatever
//! the previous action asked for — and produces the next machine and the
//! next action. The surrounding task performs actions (run a command, hand
//! stdout to the output parser, send a frame, read a frame) and feeds the
//! completion back; every decision stands here.
//!
//! Error routing is two-layered: a shared error moves the machine to an
//! abnormal terminal state with no further protocol message, while the one
//! subhandler error (repository path not configured) is reported to the
//! client as a structured frame and ends the session normally.

use crate::codec::{deserialize, parse_inbound, utf8_to_string};
use crate::command::{
    bad_cmd, bisect_bad, bisect_good, bisect_reset, bisect_start, good_cmd, reset_cmd, start_cmd,
    CmdV, GitCommand,
};
use crate::messages::{
    BisectError, InboundMessage, MsgV, OutboundMessage, PayloadText, ProcessError, ProtocolError,
    verify_repo_path,
};
use vstd::prelude::*;
use vstd::utf8::{decode_utf8, valid_utf8};

verus! {

/// What the runner reports for one external command: whether it exited
/// successfully, and the captured standard output bytes.
#[derive(Debug)]
pub struct CommandOutput {
    pub success: bool,
    pub stdout: Vec<u8>,
}

impl View for CommandOutput {
    type V = (bool, Seq<u8>);

    open spec fn view(&self) -> (bool, Seq<u8>) {
        (self.success, self.stdout@)
    }
}

/// What the external output parser made of one command's stdout text.
#[derive(Debug)]
pub enum ParseOutcome {
    /// An intermediate bisection point was produced.
    Step(PayloadText),
    /// The bisection concluded; a culprit was identified.
    Finish(PayloadText),
}

/// Spec-level value of a parse outcome.
pub enum ParseOutcomeV {
    Step(Seq<u8>),
    Finish(Seq<u8>),
}

impl View for ParseOutcome {
    type V = ParseOutcomeV;

    open spec fn view(&self) -> ParseOutcomeV {
        match self {
            ParseOutcome::Step(p) => ParseOutcomeV::Step(p@),
            ParseOutcome::Finish(p) => ParseOutcomeV::Finish(p@),
        }
    }
}

/// The completion of the previous action, fed back into the machine.
/// `None` stands for the failure of the action itself: a spawn or exit
/// failure, a parser failure, or an I/O failure on the transport.
#[derive(Debug)]
pub enum Event {
    CommandCompleted(Option<CommandOutput>),
    OutputParsed(Option<ParseOutcome>),
    SendCompleted(bool),
    FrameReceived(Option<Vec<u8>>),
}

/// Spec-level value of an event.
pub enum EventV {
    CommandCompleted(Option<(bool, Seq<u8>)>),
    OutputParsed(Option<ParseOutcomeV>),
    SendCompleted(bool),
    FrameReceived(Option<Seq<u8>>),
}

impl View for Event {
    type V = EventV;

    open spec fn view(&self) -> EventV {
        match self {
            Event::CommandCompleted(out) => EventV::CommandCompleted(
                match out {
                    Some(o) => Some(o@),
                    None => None,
                },
            ),
            Event::OutputParsed(po) => EventV::OutputParsed(
                match po {
                    Some(p) => Some(p@),
                    None => None,
                },
            ),
            Event::SendCompleted(ok) => EventV::SendCompleted(*ok),
            Event::FrameReceived(fr) => EventV::FrameReceived(
                match fr {
                    Some(f) => Some(f@),
                    None => None,
                },
            ),
        }
    }
}

/// What the machine asks the surrounding task to do next.
#[derive(Debug)]
pub enum Action {
    /// Run this external command and report `CommandCompleted`.
    Run(GitCommand),
    /// Hand this stdout text to the output parser; report `OutputParsed`.
    Parse(String),
    /// Send this outbound event; report `SendCompleted`.
    Send(OutboundMessage),
    /// Read one inbound frame; report `FrameReceived`.
    Recv,
    /// The session is over; consult the terminal phase.
    Stop,
}

/// Spec-level value of an action.
pub enum ActionV {
    Run(CmdV),
    Parse(Seq<char>),
    Send(MsgV),
    Recv,
    Stop,
}

impl View for Action {
    type V = ActionV;

    open spec fn view(&self) -> ActionV {
        match self {
            Action::Run(c) => ActionV::Run(c@),
            Action::Parse(s) => ActionV::Parse(s@),
            Action::Send(m) => ActionV::Send(m@),
            Action::Recv => ActionV::Recv,
            Action::Stop => ActionV::Stop,
        }
    }
}

/// How a session ends: normally (a terminal event or the subhandler error
/// was delivered) or abnormally, with the shared error that ended it.
#[derive(Clone, Copy, PartialEq, Eq, Structural, Debug)]
pub enum Outcome {
    Normal,
    Abnormal(ProtocolError),
}

/// Where the machine stands in one bisection run.
#[derive(Debug)]
pub enum Phase {
    /// The start command or a judgment command is running.
    AwaitCommand,
    /// Its stdout is with the output parser.
    AwaitParse,
    /// A `Step` event is being sent.
    AwaitStepAck,
    /// The client's judgment frame is awaited.
    AwaitJudgment,
    /// The reset command is running; the finish payload is held back.
    AwaitReset(PayloadText),
    /// The `Finish` event is being sent.
    AwaitFinishAck,
    /// The subhandler error frame is being sent.
    AwaitErrorAck,
    /// Terminal.
    Done(Outcome),
}

/// Spec-level value of a phase.
pub enum PhaseV {
    AwaitCommand,
    AwaitParse,
    AwaitStepAck,
    AwaitJudgment,
    AwaitReset(Seq<u8>),
    AwaitFinishAck,
    AwaitErrorAck,
    Done(Outcome),
}

impl View for Phase {
    type V = PhaseV;

    open spec fn view(&self) -> PhaseV {
        match self {
            Phase::AwaitCommand => PhaseV::AwaitCommand,
            Phase::AwaitParse => PhaseV::AwaitParse,
            Phase::AwaitStepAck => PhaseV::AwaitStepAck,
            Phase::AwaitJudgment => PhaseV::AwaitJudgment,
            Phase::AwaitReset(p) => PhaseV::AwaitReset(p@),
            Phase::AwaitFinishAck => PhaseV::AwaitFinishAck,
            Phase::AwaitErrorAck => PhaseV::AwaitErrorAck,
            Phase::Done(o) => PhaseV::Done(*o),
        }
    }
}

/// The dispatch session state threaded through the loop: the repository
/// path the commands are bound to, and the current phase.
#[derive(Debug)]
pub struct Machine {
    pub repo: Option<String>,
    pub phase: Phase,
}

/// Spec-level value of the machine.
pub struct MachineV {
    pub repo: Option<Seq<char>>,
    pub phase: PhaseV,
}

impl View for Machine {
    type V = MachineV;

    open spec fn view(&self) -> MachineV {
        MachineV {
            repo: match &self.repo {
                Some(r) => Some(r@),
                None => None,
            },
            phase: self.phase@,
        }
    }
}

/// A machine in any phase that may still issue commands has a repository
/// path; only the missing-path error track and the terminal phase go
/// without one.
pub open spec fn wf_v(m: MachineV) -> bool {
    m.repo is None ==> (m.phase is AwaitErrorAck || m.phase is Done)
}

/// The repository path the machine's commands are bound to.
pub open spec fn repo_of(m: MachineV) -> Seq<char> {
    m.repo->Some_0
}

/// An abnormal stop under the given shared error.
pub open spec fn abort_v(m: MachineV, e: ProtocolError) -> (MachineV, ActionV) {
    (MachineV { repo: m.repo, phase: PhaseV::Done(Outcome::Abnormal(e)) }, ActionV::Stop)
}

/// The transition relation, total over machine and event. An event of a
/// kind the current phase did not ask for leaves the machine unchanged and
/// asks for nothing.
pub open spec fn step_v(m: MachineV, e: EventV) -> (MachineV, ActionV) {
    match (m.phase, e) {
        (PhaseV::AwaitCommand, EventV::CommandCompleted(out)) => match out {
            None => abort_v(m, ProtocolError::Process(ProcessError::Failed)),
            Some((success, stdout)) => if !success {
                abort_v(m, ProtocolError::Process(ProcessError::Failed))
            } else if !valid_utf8(stdout) {
                abort_v(m, ProtocolError::Process(ProcessError::Encoding))
            } else {
                (
                    MachineV { repo: m.repo, phase: PhaseV::AwaitParse },
                    ActionV::Parse(decode_utf8(stdout)),
                )
            },
        },
        (PhaseV::AwaitParse, EventV::OutputParsed(po)) => match po {
            None => abort_v(m, ProtocolError::Process(ProcessError::Parsing)),
            Some(ParseOutcomeV::Step(p)) => (
                MachineV { repo: m.repo, phase: PhaseV::AwaitStepAck },
                ActionV::Send(MsgV::Step(p)),
            ),
            Some(ParseOutcomeV::Finish(p)) => (
                MachineV { repo: m.repo, phase: PhaseV::AwaitReset(p) },
                ActionV::Run(reset_cmd(repo_of(m))),
            ),
        },
        (PhaseV::AwaitStepAck, EventV::SendCompleted(ok)) => if ok {
            (MachineV { repo: m.repo, phase: PhaseV::AwaitJudgment }, ActionV::Recv)
        } else {
            abort_v(m, ProtocolError::TcpSend)
        },
        (PhaseV::AwaitJudgment, EventV::FrameReceived(fr)) => match fr {
            None => abort_v(m, ProtocolError::TcpReceive),
            Some(f) => match parse_inbound(f) {
                Err(err) => abort_v(m, err),
                Ok(InboundMessage::Good) => (
                    MachineV { repo: m.repo, phase: PhaseV::AwaitCommand },
                    ActionV::Run(good_cmd(repo_of(m))),
                ),
                Ok(InboundMessage::Bad) => (
                    MachineV { repo: m.repo, phase: PhaseV::AwaitCommand },
                    ActionV::Run(bad_cmd(repo_of(m))),
                ),
            },
        },
        (PhaseV::AwaitReset(p), EventV::CommandCompleted(out)) => match out {
            None => abort_v(m, ProtocolError::Process(ProcessError::Failed)),
            Some((success, stdout)) => if !success {
                abort_v(m, ProtocolError::Process(ProcessError::Failed))
            } else if !valid_utf8(stdout) {
                abort_v(m, ProtocolError::Process(ProcessError::Encoding))
            } else {
                (
                    MachineV { repo: m.repo, phase: PhaseV::AwaitFinishAck },
                    ActionV::Send(MsgV::Finish(p)),
                )
            },
        },
        (PhaseV::AwaitFinishAck, EventV::SendCompleted(ok)) => if ok {
            (MachineV { repo: m.repo, phase: PhaseV::Done(Outcome::Normal) }, ActionV::Stop)
        } else {
            abort_v(m, ProtocolError::TcpSend)
        },
        (PhaseV::AwaitErrorAck, EventV::SendCompleted(ok)) => if ok {
            (MachineV { repo: m.repo, phase: PhaseV::Done(Outcome::Normal) }, ActionV::Stop)
        } else {
            abort_v(m, ProtocolError::TcpSend)
        },
        _ => (m, ActionV::Stop),
    }
}

/// What dispatching opens with: the missing-path error track, or the start
/// command bound to the repository path and the two endpoint references.
pub open spec fn init_v(repo: Option<Seq<char>>, bad: Seq<char>, good: Seq<char>) -> (
    MachineV,
    ActionV,
) {
    match repo {
        None => (
            MachineV { repo: None, phase: PhaseV::AwaitErrorAck },
            ActionV::Send(MsgV::Error(BisectError::RepoPathNotSet)),
        ),
        Some(rp) => (
            MachineV { repo: Some(rp), phase: PhaseV::AwaitCommand },
            ActionV::Run(start_cmd(rp, bad, good)),
        ),
    }
}

/// Opens one bisection dispatch run. With no repository path configured the
/// first and only outbound event is the subhandler error, and no process is
/// ever run; otherwise the start command is issued.
pub fn dispatch_init(repo_path: Option<String>, bad: &String, good: &String) -> (r: (
    Machine,
    Action,
))
    ensures
        (r.0@, r.1@) == init_v(repo_path.deep_view(), bad@, good@),
        wf_v(r.0@),
{
    match verify_repo_path(repo_path) {
        Err(_) => (
            Machine { repo: None, phase: Phase::AwaitErrorAck },
            Action::Send(OutboundMessage::Error(BisectError::RepoPathNotSet)),
        ),
        Ok(rp) => {
            let cmd = bisect_start(&rp, bad, good);
            (Machine { repo: Some(rp), phase: Phase::AwaitCommand }, Action::Run(cmd))
        },
    }
}

/// One transition: consumes the machine and the completion of the previous
/// action, produces the next machine and the next action.
pub fn step(m: Machine, e: Event) -> (r: (Machine, Action))
    requires
        wf_v(m@),
    ensures
        (r.0@, r.1@) == step_v(m@, e@),
        wf_v(r.0@),
{
    let Machine { repo, phase } = m;
    match phase {
        Phase::AwaitCommand => match e {
            Event::CommandCompleted(out) => match out {
                None => fail(repo, ProtocolError::Process(ProcessError::Failed)),
                Some(o) => {
                    if !o.success {
                        fail(repo, ProtocolError::Process(ProcessError::Failed))
                    } else {
                        match utf8_to_string(o.stdout.as_slice()) {
                            None => fail(repo, ProtocolError::Process(ProcessError::Encoding)),
                            Some(text) => (
                                Machine { repo, phase: Phase::AwaitParse },
                                Action::Parse(text),
                            ),
                        }
                    }
                },
            },
            _ => (Machine { repo, phase: Phase::AwaitCommand }, Action::Stop),
        },
        Phase::AwaitParse => match e {
            Event::OutputParsed(po) => match po {
                None => fail(repo, ProtocolError::Process(ProcessError::Parsing)),
                Some(ParseOutcome::Step(p)) => (
                    Machine { repo, phase: Phase::AwaitStepAck },
                    Action::Send(OutboundMessage::Step(p)),
                ),
                Some(ParseOutcome::Finish(p)) => {
                    let cmd = bisect_reset(repo.as_ref().unwrap());
                    (Machine { repo, phase: Phase::AwaitReset(p) }, Action::Run(cmd))
                },
            },
            _ => (Machine { repo, phase: Phase::AwaitParse }, Action::Stop),
        },
        Phase::AwaitStepAck => match e {
            Event::SendCompleted(ok) => if ok {
                (Machine { repo, phase: Phase::AwaitJudgment }, Action::Recv)
            } else {
                fail(repo, ProtocolError::TcpSend)
            },
            _ => (Machine { repo, phase: Phase::AwaitStepAck }, Action::Stop),
        },
        Phase::AwaitJudgment => match e {
            Event::FrameReceived(fr) => match fr {
                None => fail(repo, ProtocolError::TcpReceive),
                Some(f) => match deserialize(f.as_slice()) {
                    Err(err) => fail(repo, err),
                    Ok(InboundMessage::Good) => {
                        let cmd = bisect_good(repo.as_ref().unwrap());
                        (Machine { repo, phase: Phase::AwaitCommand }, Action::Run(cmd))
                    },
                    Ok(InboundMessage::Bad) => {
                        let cmd = bisect_bad(repo.as_ref().unwrap());
                        (Machine { repo, phase: Phase::AwaitCommand }, Action::Run(cmd))
                    },
                },
            },
            _ => (Machine { repo, phase: Phase::AwaitJudgment }, Action::Stop),
        },
        Phase::AwaitReset(p) => match e {
            Event::CommandCompleted(out) => match out {
                None => fail(repo, ProtocolError::Process(ProcessError::Failed)),
                Some(o) => {
                    if !o.success {
                        fail(repo, ProtocolError::Process(ProcessError::Failed))
                    } else {
                        match utf8_to_string(o.stdout.as_slice()) {
                            None => fail(repo, ProtocolError::Process(ProcessError::Encoding)),
                            Some(_) => (
                                Machine { repo, phase: Phase::AwaitFinishAck },
                                Action::Send(OutboundMessage::Finish(p)),
                            ),
                        }
                    }
                },
            },
            _ => (Machine { repo, phase: Phase::AwaitReset(p) }, Action::Stop),
        },
        Phase::AwaitFinishAck => match e {
            Event::SendCompleted(ok) => if ok {
                (Machine { repo, phase: Phase::Done(Outcome::Normal) }, Action::Stop)
            } else {
                fail(repo, ProtocolError::TcpSend)
            },
            _ => (Machine { repo, phase: Phase::AwaitFinishAck }, Action::Stop),
        },
        Phase::AwaitErrorAck => match e {
            Event::SendCompleted(ok) => if ok {
                (Machine { repo, phase: Phase::Done(Outcome::Normal) }, Action::Stop)
            } else {
                fail(repo, ProtocolError::TcpSend)
            },
            _ => (Machine { repo, phase: Phase::AwaitErrorAck }, Action::Stop),
        },
        Phase::Done(o) => (Machine { repo, phase: Phase::Done(o) }, Action::Stop),
    }
}

/// The abnormal terminal state under a shared error.
fn fail(repo: Option<String>, err: ProtocolError) -> (r: (Machine, Action))
    ensures
        r.0@ == (MachineV {
            repo: match repo {
                Some(s) => Some(s@),
                None => None,
            },
            phase: PhaseV::Done(Outcome::Abnormal(err)),
        }),
        r.1@ == ActionV::Stop,
{
    (Machine { repo, phase: Phase::Done(Outcome::Abnormal(err)) }, Action::Stop)
}

} // verus!
