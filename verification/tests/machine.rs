use gitrs_server::command::GitCommand;
use gitrs_server::dispatch::{
    dispatch_init, step, Action, CommandOutput, Event, Machine, Outcome, ParseOutcome, Phase,
};
use gitrs_server::messages::{
    BisectError, DeserializationError, OutboundMessage, PayloadText, ProcessError, ProtocolError,
};

fn payload(s: &str) -> PayloadText {
    PayloadText::from_str(s).expect("payload text should need no escaping")
}

fn command_ok(stdout: &str) -> Event {
    Event::CommandCompleted(Some(CommandOutput {
        success: true,
        stdout: stdout.as_bytes().to_vec(),
    }))
}

fn args_of(c: &GitCommand) -> Vec<&str> {
    c.args.iter().map(|a| a.as_str()).collect()
}

#[test]
fn scenario_one_step_then_finish() {
    // Repo path set; one Step, the client answers Good, then a Finish:
    // outbound [Step, Finish] and exactly three process runs.
    let mut runs: Vec<Vec<String>> = Vec::new();
    let mut sends: Vec<OutboundMessage> = Vec::new();

    let (m, a) = dispatch_init(
        Some("/repo".to_string()),
        &"badref".to_string(),
        &"goodref".to_string(),
    );
    let cmd = match a {
        Action::Run(c) => c,
        _ => panic!("dispatch must open by running the start command"),
    };
    assert_eq!(cmd.repo, "/repo");
    assert_eq!(
        args_of(&cmd),
        ["bisect", "start", "badref", "goodref", "--"]
    );
    runs.push(cmd.args.clone());

    let (m, a) = step(m, command_ok("Bisecting: 1 revision left\n"));
    let text = match a {
        Action::Parse(t) => t,
        _ => panic!("stdout must go to the output parser"),
    };
    assert_eq!(text, "Bisecting: 1 revision left\n");

    let (m, a) = step(m, Event::OutputParsed(Some(ParseOutcome::Step(payload("rev a1")))));
    match a {
        Action::Send(msg) => {
            assert_eq!(msg, OutboundMessage::Step(payload("rev a1")));
            sends.push(msg);
        }
        _ => panic!("a classified step must be sent"),
    }

    let (m, a) = step(m, Event::SendCompleted(true));
    assert!(matches!(a, Action::Recv));

    let (m, a) = step(m, Event::FrameReceived(Some(b"{\"type\":\"Good\"}".to_vec())));
    let cmd = match a {
        Action::Run(c) => c,
        _ => panic!("a judgment must run the matching command"),
    };
    assert_eq!(args_of(&cmd), ["bisect", "good"]);
    runs.push(cmd.args.clone());

    let (m, a) = step(m, command_ok("abc123 is the first bad commit\n"));
    assert!(matches!(a, Action::Parse(_)));

    let (m, a) = step(
        m,
        Event::OutputParsed(Some(ParseOutcome::Finish(payload("abc123")))),
    );
    let cmd = match a {
        Action::Run(c) => c,
        _ => panic!("a classified finish must run the reset command"),
    };
    assert_eq!(args_of(&cmd), ["bisect", "reset"]);
    runs.push(cmd.args.clone());

    let (m, a) = step(m, command_ok(""));
    match a {
        Action::Send(msg) => {
            assert_eq!(msg, OutboundMessage::Finish(payload("abc123")));
            sends.push(msg);
        }
        _ => panic!("after a successful reset the finish must be sent"),
    }

    let (m, a) = step(m, Event::SendCompleted(true));
    assert!(matches!(a, Action::Stop));
    assert!(matches!(m.phase, Phase::Done(Outcome::Normal)));

    assert_eq!(runs.len(), 3);
    assert_eq!(sends.len(), 2);
}

#[test]
fn scenario_repo_path_unset() {
    // Repo path unset: the only outbound message is the error, and no
    // process is ever run.
    let (m, a) = dispatch_init(None, &"b".to_string(), &"g".to_string());
    match a {
        Action::Send(msg) => {
            assert_eq!(msg, OutboundMessage::Error(BisectError::RepoPathNotSet))
        }
        _ => panic!("the missing path must be reported first"),
    }
    let (m, a) = step(m, Event::SendCompleted(true));
    assert!(matches!(a, Action::Stop));
    assert!(matches!(m.phase, Phase::Done(Outcome::Normal)));
}

#[test]
fn scenario_start_command_fails() {
    // The start command exits non-zero: abnormal termination, no outbound
    // message, no further process run.
    let (m, _) = dispatch_init(Some("/repo".to_string()), &"b".to_string(), &"g".to_string());
    let (m, a) = step(
        m,
        Event::CommandCompleted(Some(CommandOutput { success: false, stdout: Vec::new() })),
    );
    assert!(matches!(a, Action::Stop));
    assert!(matches!(
        m.phase,
        Phase::Done(Outcome::Abnormal(ProtocolError::Process(ProcessError::Failed)))
    ));
}

#[test]
fn spawn_failure_ends_abnormally() {
    let (m, _) = dispatch_init(Some("/repo".to_string()), &"b".to_string(), &"g".to_string());
    let (m, a) = step(m, Event::CommandCompleted(None));
    assert!(matches!(a, Action::Stop));
    assert!(matches!(
        m.phase,
        Phase::Done(Outcome::Abnormal(ProtocolError::Process(ProcessError::Failed)))
    ));
}

#[test]
fn stdout_that_is_not_text_ends_abnormally() {
    let (m, _) = dispatch_init(Some("/repo".to_string()), &"b".to_string(), &"g".to_string());
    let (m, a) = step(
        m,
        Event::CommandCompleted(Some(CommandOutput {
            success: true,
            stdout: vec![0xff, 0x00, 0x9f],
        })),
    );
    assert!(matches!(a, Action::Stop));
    assert!(matches!(
        m.phase,
        Phase::Done(Outcome::Abnormal(ProtocolError::Process(ProcessError::Encoding)))
    ));
}

#[test]
fn parser_failure_ends_abnormally() {
    let (m, _) = dispatch_init(Some("/repo".to_string()), &"b".to_string(), &"g".to_string());
    let (m, _) = step(m, command_ok("gibberish"));
    let (m, a) = step(m, Event::OutputParsed(None));
    assert!(matches!(a, Action::Stop));
    assert!(matches!(
        m.phase,
        Phase::Done(Outcome::Abnormal(ProtocolError::Process(ProcessError::Parsing)))
    ));
}

fn machine_awaiting_judgment() -> Machine {
    let (m, _) = dispatch_init(Some("/repo".to_string()), &"b".to_string(), &"g".to_string());
    let (m, _) = step(m, command_ok("out"));
    let (m, _) = step(m, Event::OutputParsed(Some(ParseOutcome::Step(payload("rev")))));
    let (m, _) = step(m, Event::SendCompleted(true));
    m
}

#[test]
fn bad_judgment_runs_the_bad_command() {
    let m = machine_awaiting_judgment();
    let (_, a) = step(m, Event::FrameReceived(Some(b"{\"type\":\"Bad\"}".to_vec())));
    let cmd = match a {
        Action::Run(c) => c,
        _ => panic!("a judgment must run the matching command"),
    };
    assert_eq!(args_of(&cmd), ["bisect", "bad"]);
}

#[test]
fn unknown_judgment_frame_ends_abnormally() {
    let m = machine_awaiting_judgment();
    let (m, a) = step(
        m,
        Event::FrameReceived(Some(b"{\"type\":\"Maybe\"}".to_vec())),
    );
    assert!(matches!(a, Action::Stop));
    assert!(matches!(
        m.phase,
        Phase::Done(Outcome::Abnormal(ProtocolError::Deserialization(
            DeserializationError::Schema
        )))
    ));
}

#[test]
fn receive_failure_ends_abnormally() {
    let m = machine_awaiting_judgment();
    let (m, a) = step(m, Event::FrameReceived(None));
    assert!(matches!(a, Action::Stop));
    assert!(matches!(
        m.phase,
        Phase::Done(Outcome::Abnormal(ProtocolError::TcpReceive))
    ));
}

#[test]
fn reset_failure_sends_no_finish() {
    let (m, _) = dispatch_init(Some("/repo".to_string()), &"b".to_string(), &"g".to_string());
    let (m, _) = step(m, command_ok("out"));
    let (m, a) = step(
        m,
        Event::OutputParsed(Some(ParseOutcome::Finish(payload("abc")))),
    );
    assert!(matches!(a, Action::Run(_)));
    let (m, a) = step(
        m,
        Event::CommandCompleted(Some(CommandOutput { success: false, stdout: Vec::new() })),
    );
    assert!(matches!(a, Action::Stop));
    assert!(matches!(
        m.phase,
        Phase::Done(Outcome::Abnormal(ProtocolError::Process(ProcessError::Failed)))
    ));
    // The machine is terminal: whatever else arrives, nothing more is asked.
    let (m, a) = step(m, Event::SendCompleted(true));
    assert!(matches!(a, Action::Stop));
    assert!(matches!(m.phase, Phase::Done(_)));
}

#[test]
fn send_failure_ends_abnormally() {
    let (m, _) = dispatch_init(Some("/repo".to_string()), &"b".to_string(), &"g".to_string());
    let (m, _) = step(m, command_ok("out"));
    let (m, _) = step(m, Event::OutputParsed(Some(ParseOutcome::Step(payload("rev")))));
    let (m, a) = step(m, Event::SendCompleted(false));
    assert!(matches!(a, Action::Stop));
    assert!(matches!(
        m.phase,
        Phase::Done(Outcome::Abnormal(ProtocolError::TcpSend))
    ));
}
