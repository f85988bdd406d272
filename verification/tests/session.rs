use cloudbbq_homie::session::fleet_outcome;
use cloudbbq_homie::session::sessions_to_start;
use cloudbbq_homie::session::Event;
use cloudbbq_homie::session::FleetError;
use cloudbbq_homie::session::Phase;
use cloudbbq_homie::session::Termination;

#[test]
fn session_starts_up_in_order() {
    let phase = Phase::Connecting;
    let phase = phase.advance(Event::Connected);
    assert_eq!(phase, Phase::Authenticating);
    let phase = phase.advance(Event::Authenticated);
    assert_eq!(phase, Phase::Advertising);
    let phase = phase.advance(Event::Advertised);
    assert_eq!(phase, Phase::Running);
    assert_eq!(phase.advance(Event::Handled), Phase::Running);
}

#[test]
fn failures_end_the_session_with_their_reason() {
    assert_eq!(
        Phase::Connecting.advance(Event::Failed),
        Phase::Terminated(Termination::ConnectionFailed)
    );
    assert_eq!(
        Phase::Authenticating.advance(Event::Failed),
        Phase::Terminated(Termination::AuthenticationFailed)
    );
    assert_eq!(
        Phase::Advertising.advance(Event::Failed),
        Phase::Terminated(Termination::ActionFailed)
    );
    assert_eq!(Phase::Running.advance(Event::Failed), Phase::Terminated(Termination::ActionFailed));
}

#[test]
fn running_session_ends_with_tree_or_stream() {
    assert_eq!(
        Phase::Running.advance(Event::PropertyTreeEnded),
        Phase::Terminated(Termination::PropertyTreeEnded)
    );
    assert_eq!(Phase::Running.advance(Event::StreamEnded), Phase::Terminated(Termination::Complete));
}

#[test]
fn events_out_of_place_change_nothing() {
    assert_eq!(Phase::Connecting.advance(Event::Authenticated), Phase::Connecting);
    assert_eq!(Phase::Connecting.advance(Event::StreamEnded), Phase::Connecting);
    assert_eq!(Phase::Authenticating.advance(Event::Connected), Phase::Authenticating);
    assert_eq!(Phase::Advertising.advance(Event::PropertyTreeEnded), Phase::Advertising);
    assert_eq!(Phase::Running.advance(Event::Connected), Phase::Running);
}

#[test]
fn ended_session_stays_ended() {
    let ended = Phase::Terminated(Termination::Complete);
    for event in [
        Event::Connected,
        Event::Authenticated,
        Event::Advertised,
        Event::Handled,
        Event::Failed,
        Event::PropertyTreeEnded,
        Event::StreamEnded,
    ] {
        assert_eq!(ended.advance(event), ended);
    }
}

#[test]
fn only_complete_is_no_failure() {
    assert!(!Termination::Complete.failed());
    assert!(Termination::ConnectionFailed.failed());
    assert!(Termination::AuthenticationFailed.failed());
    assert!(Termination::ActionFailed.failed());
    assert!(Termination::PropertyTreeEnded.failed());
}

#[test]
fn fleet_needs_a_device() {
    assert_eq!(sessions_to_start(0), Err(FleetError::NoDevicesFound));
    assert_eq!(sessions_to_start(1), Ok(1));
    assert_eq!(sessions_to_start(4), Ok(4));
}

#[test]
fn fleet_ends_with_first_failure() {
    assert_eq!(fleet_outcome(&vec![]), Ok(()));
    assert_eq!(fleet_outcome(&vec![Termination::Complete, Termination::Complete]), Ok(()));
    assert_eq!(
        fleet_outcome(&vec![
            Termination::Complete,
            Termination::PropertyTreeEnded,
            Termination::ActionFailed
        ]),
        Err(FleetError::SessionFailed(1))
    );
}
