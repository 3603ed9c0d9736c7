use slider_io::protocol::{BrokenithmSpec, Inbound, Outcome};
use slider_io::session::{Session, SessionPhase};
use slider_io::state::InputState;

fn active(spec: BrokenithmSpec) -> Session {
    let mut session = Session::open(spec);
    session.upgraded(true);
    session
}

fn held() -> InputState {
    InputState { ground: [255u8; 32], air: [1u8; 6] }
}

#[test]
fn session_starts_open() {
    let session = Session::open(BrokenithmSpec::Nostalgia);
    assert_eq!(session.phase, SessionPhase::Open);
    assert_eq!(session.spec, BrokenithmSpec::Nostalgia);
}

#[test]
fn accepted_handshake_activates() {
    let mut session = Session::open(BrokenithmSpec::Basic);
    session.upgraded(true);
    assert_eq!(session.phase, SessionPhase::Active);
    session.upgraded(false);
    assert_eq!(session.phase, SessionPhase::Active);
}

#[test]
fn failed_handshake_closes() {
    let mut session = Session::open(BrokenithmSpec::Basic);
    session.upgraded(false);
    assert_eq!(session.phase, SessionPhase::Closed);
    session.upgraded(true);
    assert_eq!(session.phase, SessionPhase::Closed);
}

#[test]
fn active_session_decodes_under_its_layout() {
    let msg = format!("b{}{}", "1".repeat(32), "111111");
    let mut input = InputState::new();
    let mut session = active(BrokenithmSpec::HandTracking);
    assert_eq!(session.receive(&mut input, &Inbound::Text(msg.clone())), Outcome::Continue);
    assert_eq!(input, InputState { ground: [255u8; 32], air: [0u8; 6] });
    assert_eq!(session.phase, SessionPhase::Active);
    let mut input = InputState::new();
    let mut session = active(BrokenithmSpec::Basic);
    assert_eq!(session.receive(&mut input, &Inbound::Text(msg)), Outcome::Continue);
    assert_eq!(input, held());
    assert_eq!(
        session.receive(&mut input, &Inbound::Text("a00000".to_string())),
        Outcome::Reply("alive".to_string())
    );
    assert_eq!(session.receive(&mut input, &Inbound::Other), Outcome::Continue);
    assert_eq!(session.phase, SessionPhase::Active);
    assert_eq!(input, held());
}

#[test]
fn close_frame_ends_the_session_and_releases_inputs() {
    let mut input = held();
    let mut session = active(BrokenithmSpec::Basic);
    assert_eq!(session.receive(&mut input, &Inbound::Close), Outcome::Stop);
    assert_eq!(session.phase, SessionPhase::Closed);
    assert_eq!(input, InputState::new());
}

#[test]
fn failure_ends_the_session_and_releases_inputs() {
    let mut input = held();
    let mut session = active(BrokenithmSpec::GroundOnly);
    assert_eq!(session.receive(&mut input, &Inbound::Failure), Outcome::Stop);
    assert_eq!(session.phase, SessionPhase::Closed);
    assert_eq!(input, InputState::new());
}

#[test]
fn violation_ends_the_session_and_keeps_inputs() {
    let mut input = held();
    let mut session = active(BrokenithmSpec::Basic);
    assert_eq!(session.receive(&mut input, &Inbound::Text("d10".to_string())), Outcome::Stop);
    assert_eq!(session.phase, SessionPhase::Closed);
    assert_eq!(input, held());
}

#[test]
fn end_of_stream_ends_the_session_and_keeps_inputs() {
    let mut input = held();
    let mut session = active(BrokenithmSpec::Basic);
    assert_eq!(session.receive(&mut input, &Inbound::End), Outcome::Stop);
    assert_eq!(session.phase, SessionPhase::Closed);
    assert_eq!(input, held());
}

#[test]
fn closed_session_reads_nothing() {
    let mut input = held();
    let mut session = active(BrokenithmSpec::Basic);
    session.close();
    assert_eq!(session.phase, SessionPhase::Closed);
    for event in [Inbound::Text("d000000".to_string()), Inbound::Close, Inbound::Failure, Inbound::Other, Inbound::End] {
        assert_eq!(session.receive(&mut input, &event), Outcome::Stop);
        assert_eq!(session.phase, SessionPhase::Closed);
        assert_eq!(input, held());
    }
}

#[test]
fn open_session_reads_nothing() {
    let mut input = held();
    let mut session = Session::open(BrokenithmSpec::Basic);
    assert_eq!(session.receive(&mut input, &Inbound::Close), Outcome::Stop);
    assert_eq!(session.phase, SessionPhase::Open);
    assert_eq!(input, held());
}
