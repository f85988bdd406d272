//! The life of a session with one thermometer, and of the fleet of sessions.

use vstd::prelude::*;

verus! {

/// Why a session has ended.
#[derive(Clone, Copy, Debug, PartialEq, Eq, Structural)]
pub enum Termination {
    /// The thermometer could not be reached.
    ConnectionFailed,
    /// The thermometer refused the credentials.
    AuthenticationFailed,
    /// An operation on the thermometer or on the property tree failed.
    ActionFailed,
    /// The connection of the property tree has ended.
    PropertyTreeEnded,
    /// A stream of the thermometer has ended: the session is complete.
    Complete,
}

impl Termination {
    /// Whether the session ended in failure.
    pub open spec fn is_failure(self) -> bool {
        self != Termination::Complete
    }

    pub fn failed(&self) -> (failure: bool)
        ensures
            failure == self.is_failure(),
    {
        match self {
            Termination::Complete => false,
            _ => true,
        }
    }
}

/// Where a session stands.
#[derive(Clone, Copy, Debug, PartialEq, Eq, Structural)]
pub enum Phase {
    Connecting,
    Authenticating,
    /// The nodes are being advertised and the streams opened.
    Advertising,
    /// Reports and writes are being handled, one at a time.
    Running,
    Terminated(Termination),
}

/// What happens to a session.
#[derive(Clone, Copy, Debug, PartialEq, Eq, Structural)]
pub enum Event {
    Connected,
    Authenticated,
    /// All that a starting session has to do is done.
    Advertised,
    /// A report of the thermometer has been handled.
    Handled,
    /// A connection attempt, a handshake or an operation has failed.
    Failed,
    PropertyTreeEnded,
    StreamEnded,
}

/// The phase that follows on an event.
///
/// A session connects, authenticates, advertises and then runs. A failure
/// ends it, whatever its phase. While it runs, the end of the property tree's
/// connection ends it in failure and the end of a stream of the thermometer
/// ends it as complete. An event that does not belong to a phase leaves the
/// phase as it is, and nothing leads out of the end.
pub open spec fn next_phase(phase: Phase, event: Event) -> Phase {
    match (phase, event) {
        (Phase::Terminated(_), _) => phase,
        (Phase::Connecting, Event::Connected) => Phase::Authenticating,
        (Phase::Connecting, Event::Failed) => Phase::Terminated(Termination::ConnectionFailed),
        (Phase::Authenticating, Event::Authenticated) => Phase::Advertising,
        (Phase::Authenticating, Event::Failed) => Phase::Terminated(
            Termination::AuthenticationFailed,
        ),
        (Phase::Advertising, Event::Advertised) => Phase::Running,
        (Phase::Advertising, Event::Failed) => Phase::Terminated(Termination::ActionFailed),
        (Phase::Running, Event::Handled) => Phase::Running,
        (Phase::Running, Event::Failed) => Phase::Terminated(Termination::ActionFailed),
        (Phase::Running, Event::PropertyTreeEnded) => Phase::Terminated(
            Termination::PropertyTreeEnded,
        ),
        (Phase::Running, Event::StreamEnded) => Phase::Terminated(Termination::Complete),
        _ => phase,
    }
}

impl Phase {
    pub fn advance(self, event: Event) -> (next: Phase)
        ensures
            next == next_phase(self, event),
    {
        match (self, event) {
            (Phase::Terminated(_), _) => self,
            (Phase::Connecting, Event::Connected) => Phase::Authenticating,
            (Phase::Connecting, Event::Failed) => Phase::Terminated(Termination::ConnectionFailed),
            (Phase::Authenticating, Event::Authenticated) => Phase::Advertising,
            (Phase::Authenticating, Event::Failed) => Phase::Terminated(
                Termination::AuthenticationFailed,
            ),
            (Phase::Advertising, Event::Advertised) => Phase::Running,
            (Phase::Advertising, Event::Failed) => Phase::Terminated(Termination::ActionFailed),
            (Phase::Running, Event::Handled) => Phase::Running,
            (Phase::Running, Event::Failed) => Phase::Terminated(Termination::ActionFailed),
            (Phase::Running, Event::PropertyTreeEnded) => Phase::Terminated(
                Termination::PropertyTreeEnded,
            ),
            (Phase::Running, Event::StreamEnded) => Phase::Terminated(Termination::Complete),
            _ => self,
        }
    }
}

/// The phase after a run of events.
pub open spec fn phase_after(phase: Phase, events: Seq<Event>) -> Phase
    decreases events.len(),
{
    if events.len() == 0 {
        phase
    } else {
        next_phase(phase_after(phase, events.drop_last()), events.last())
    }
}

/// A session that has ended stays ended, with the same reason.
pub proof fn lemma_terminated_is_final(reason: Termination, events: Seq<Event>)
    ensures
        phase_after(Phase::Terminated(reason), events) == Phase::Terminated(reason),
    decreases events.len(),
{
    if events.len() > 0 {
        lemma_terminated_is_final(reason, events.drop_last());
    }
}

/// A session runs only after it has connected, authenticated and advertised,
/// in this order.
pub proof fn lemma_running_needs_startup(events: Seq<Event>)
    requires
        phase_after(Phase::Connecting, events) == Phase::Running,
    ensures
        exists|i: int, j: int, k: int|
            0 <= i < j < k < events.len() && events[i] == Event::Connected && events[j]
                == Event::Authenticated && events[k] == Event::Advertised,
    decreases events.len(),
{
    lemma_phase_history(events);
}

/// What the events so far must hold for a session to stand where it stands.
proof fn lemma_phase_history(events: Seq<Event>)
    ensures
        ({
            let phase = phase_after(Phase::Connecting, events);
            &&& phase == Phase::Authenticating ==> exists|i: int|
                0 <= i < events.len() && events[i] == Event::Connected
            &&& phase == Phase::Advertising ==> exists|i: int, j: int|
                0 <= i < j < events.len() && events[i] == Event::Connected && events[j]
                    == Event::Authenticated
            &&& phase == Phase::Running ==> exists|i: int, j: int, k: int|
                0 <= i < j < k < events.len() && events[i] == Event::Connected && events[j]
                    == Event::Authenticated && events[k] == Event::Advertised
        }),
    decreases events.len(),
{
    if events.len() > 0 {
        let before = events.drop_last();
        let n = before.len() as int;
        lemma_phase_history(before);
        let earlier = phase_after(Phase::Connecting, before);
        let phase = phase_after(Phase::Connecting, events);
        assert(forall|i: int| 0 <= i < n ==> before[i] == events[i]);
        if phase == Phase::Authenticating {
            if earlier == Phase::Connecting {
                assert(events[n] == Event::Connected);
            } else {
                let i = choose|i: int| 0 <= i < before.len() && before[i] == Event::Connected;
                assert(events[i] == Event::Connected);
            }
        }
        if phase == Phase::Advertising {
            if earlier == Phase::Authenticating {
                let i = choose|i: int| 0 <= i < before.len() && before[i] == Event::Connected;
                assert(events[i] == Event::Connected && events[n] == Event::Authenticated);
            } else {
                let (i, j) = choose|i: int, j: int|
                    0 <= i < j < before.len() && before[i] == Event::Connected && before[j]
                        == Event::Authenticated;
                assert(events[i] == Event::Connected && events[j] == Event::Authenticated);
            }
        }
        if phase == Phase::Running {
            if earlier == Phase::Advertising {
                let (i, j) = choose|i: int, j: int|
                    0 <= i < j < before.len() && before[i] == Event::Connected && before[j]
                        == Event::Authenticated;
                assert(events[i] == Event::Connected && events[j] == Event::Authenticated
                    && events[n] == Event::Advertised);
            } else {
                let (i, j, k) = choose|i: int, j: int, k: int|
                    0 <= i < j < k < before.len() && before[i] == Event::Connected && before[j]
                        == Event::Authenticated && before[k] == Event::Advertised;
                assert(events[i] == Event::Connected && events[j] == Event::Authenticated
                    && events[k] == Event::Advertised);
            }
        }
    }
}

/// Why the fleet of sessions cannot go on.
#[derive(Clone, Copy, Debug, PartialEq, Eq, Structural)]
pub enum FleetError {
    /// The scan found no thermometer.
    NoDevicesFound,
    /// The session with this position, in the order in which sessions ended,
    /// ended in failure.
    SessionFailed(usize),
}

/// How many sessions to start for the thermometers that a scan found: one
/// each, and an error where it found none.
pub fn sessions_to_start(devices_found: usize) -> (sessions: Result<usize, FleetError>)
    ensures
        devices_found == 0 ==> sessions == Err::<usize, FleetError>(FleetError::NoDevicesFound),
        devices_found > 0 ==> sessions == Ok::<usize, FleetError>(devices_found),
{
    if devices_found == 0 {
        Err(FleetError::NoDevicesFound)
    } else {
        Ok(devices_found)
    }
}

/// Whether the session at position `i` is the first that ended in failure.
pub open spec fn is_first_failure(ends: Seq<Termination>, i: int) -> bool {
    &&& 0 <= i < ends.len()
    &&& ends[i].is_failure()
    &&& forall|j: int| 0 <= j < i ==> !(#[trigger] ends[j]).is_failure()
}

/// How the fleet ends, given how its sessions ended, in the order in which
/// they ended: with the first failure, or well where every session is
/// complete.
pub fn fleet_outcome(ends: &Vec<Termination>) -> (outcome: Result<(), FleetError>)
    ensures
        match outcome {
            Ok(_) => forall|j: int| 0 <= j < ends@.len() ==> !(#[trigger] ends@[j]).is_failure(),
            Err(FleetError::SessionFailed(i)) => is_first_failure(ends@, i as int),
            Err(FleetError::NoDevicesFound) => false,
        },
{
    let mut i: usize = 0;
    while i < ends.len()
        invariant
            i <= ends.len(),
            forall|j: int| 0 <= j < i ==> !(#[trigger] ends@[j]).is_failure(),
        decreases ends.len() - i,
    {
        if ends[i].failed() {
            return Err(FleetError::SessionFailed(i));
        }
        i += 1;
    }
    Ok(())
}

} // verus!
