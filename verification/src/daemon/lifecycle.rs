//! The life of the daemon's listening endpoint, as a state machine.
//!
//! The daemon clears whatever a previous run left at its socket path, binds
//! there, serves connections until it is interrupted, and removes the socket
//! again on the way out. The machine is told what happened and answers with
//! what to do next; it performs nothing itself.

use vstd::prelude::*;

verus! {

/// Where the daemon stands.
#[derive(Clone, Copy, Debug, PartialEq, Eq)]
pub enum Phase {
    /// Removing a stale socket before binding.
    Clearing,
    /// Binding the listening socket.
    Binding,
    /// Accepting connections.
    Serving,
    /// Interrupted: removing the socket so that later connection attempts
    /// fail at once.
    Closing,
    /// Shut down in good order.
    Stopped,
    /// The socket could not be bound; nothing was served.
    Failed,
}

/// What the outside world reports to the daemon.
#[derive(Clone, Copy, Debug, PartialEq, Eq)]
pub enum Event {
    /// The removal of the socket file was attempted. Whether there was a
    /// file, and whether removing it worked, makes no difference.
    ArtifactCleared,
    /// The listening socket is bound.
    Bound,
    /// Binding failed.
    BindFailed,
    /// A client connected.
    Accepted,
    /// Accepting a connection failed.
    AcceptFailed,
    /// The interrupt signal arrived.
    Interrupted,
}

/// What the daemon asks of the outside world.
#[derive(Debug, PartialEq, Eq)]
pub enum Action {
    /// Remove the file at the socket path, ignoring any failure.
    RemoveArtifact,
    /// Bind the listening socket at the socket path.
    Bind,
    /// Wait for the next connection or the interrupt, whichever comes first.
    Listen,
    /// Serve the connection just accepted in a session of its own, without
    /// waiting for it, and listen again.
    Serve,
    /// Leave, reporting success.
    Exit,
    /// Leave, reporting this message as a failure.
    Abort(String),
}

/// What an `Action` stands for in contracts.
pub enum ActionView {
    RemoveArtifact,
    Bind,
    Listen,
    Serve,
    Exit,
    Abort(Seq<char>),
}

impl View for Action {
    type V = ActionView;

    open spec fn view(&self) -> ActionView {
        match self {
            Action::RemoveArtifact => ActionView::RemoveArtifact,
            Action::Bind => ActionView::Bind,
            Action::Listen => ActionView::Listen,
            Action::Serve => ActionView::Serve,
            Action::Exit => ActionView::Exit,
            Action::Abort(message) => ActionView::Abort(message@),
        }
    }
}

/// The phase that follows `phase` on `event`. An event that the phase does
/// not wait for changes nothing.
pub open spec fn next_phase(phase: Phase, event: Event) -> Phase {
    match (phase, event) {
        (Phase::Clearing, Event::ArtifactCleared) => Phase::Binding,
        (Phase::Binding, Event::Bound) => Phase::Serving,
        (Phase::Binding, Event::BindFailed) => Phase::Failed,
        (Phase::Serving, Event::Interrupted) => Phase::Closing,
        (Phase::Closing, Event::ArtifactCleared) => Phase::Stopped,
        _ => phase,
    }
}

/// The message of a daemon that could not bind its socket.
pub open spec fn bind_failure(socket_path: Seq<char>) -> Seq<char> {
    "Failed to bind to socket: "@ + socket_path
}

/// What a daemon in `phase` is waiting to have done.
pub open spec fn awaited(phase: Phase, socket_path: Seq<char>) -> ActionView {
    match phase {
        Phase::Clearing => ActionView::RemoveArtifact,
        Phase::Binding => ActionView::Bind,
        Phase::Serving => ActionView::Listen,
        Phase::Closing => ActionView::RemoveArtifact,
        Phase::Stopped => ActionView::Exit,
        Phase::Failed => ActionView::Abort(bind_failure(socket_path)),
    }
}

/// What a daemon in `phase` asks for on `event`: a session for a connection
/// accepted while serving, and otherwise whatever its next phase waits for.
pub open spec fn next_action(phase: Phase, event: Event, socket_path: Seq<char>) -> ActionView {
    if phase == Phase::Serving && event == Event::Accepted {
        ActionView::Serve
    } else {
        awaited(next_phase(phase, event), socket_path)
    }
}

/// What a `Daemon` stands for in contracts.
pub struct DaemonView {
    pub phase: Phase,
    pub socket_path: Seq<char>,
}

/// A daemon's lifecycle: its phase and the socket path it owns.
#[derive(Debug)]
pub struct Daemon {
    phase: Phase,
    socket_path: String,
}

impl View for Daemon {
    type V = DaemonView;

    closed spec fn view(&self) -> DaemonView {
        DaemonView { phase: self.phase, socket_path: self.socket_path@ }
    }
}

/// Begins the life of a daemon that is to listen at `socket_path`: the
/// daemon is about to clear the path, and asks for just that.
pub fn start(socket_path: &str) -> (launch: (Daemon, Action))
    ensures
        launch.0@ == (DaemonView { phase: Phase::Clearing, socket_path: socket_path@ }),
        launch.1@ == awaited(Phase::Clearing, socket_path@),
{
    (Daemon { phase: Phase::Clearing, socket_path: socket_path.to_owned() }, Action::RemoveArtifact)
}

impl Daemon {
    /// The phase the daemon is in.
    pub fn phase(&self) -> (phase: Phase)
        ensures
            phase == self@.phase,
    {
        self.phase
    }

    /// The socket path the daemon owns.
    pub fn socket_path(&self) -> (path: &str)
        ensures
            path@ == self@.socket_path,
    {
        self.socket_path.as_str()
    }

    /// Takes note of `event` and says what is to be done next.
    pub fn step(&mut self, event: Event) -> (action: Action)
        ensures
            final(self)@ == (DaemonView {
                phase: next_phase(old(self)@.phase, event),
                socket_path: old(self)@.socket_path,
            }),
            action@ == next_action(old(self)@.phase, event, old(self)@.socket_path),
    {
        match (self.phase, event) {
            (Phase::Clearing, Event::ArtifactCleared) => {
                self.phase = Phase::Binding;
                Action::Bind
            },
            (Phase::Binding, Event::Bound) => {
                self.phase = Phase::Serving;
                Action::Listen
            },
            (Phase::Binding, Event::BindFailed) => {
                self.phase = Phase::Failed;
                self.pending()
            },
            (Phase::Serving, Event::Accepted) => Action::Serve,
            (Phase::Serving, Event::Interrupted) => {
                self.phase = Phase::Closing;
                Action::RemoveArtifact
            },
            (Phase::Closing, Event::ArtifactCleared) => {
                self.phase = Phase::Stopped;
                Action::Exit
            },
            _ => self.pending(),
        }
    }

    /// What the daemon is waiting to have done in its present phase.
    pub fn pending(&self) -> (action: Action)
        ensures
            action@ == awaited(self@.phase, self@.socket_path),
    {
        match self.phase {
            Phase::Clearing => Action::RemoveArtifact,
            Phase::Binding => Action::Bind,
            Phase::Serving => Action::Listen,
            Phase::Closing => Action::RemoveArtifact,
            Phase::Stopped => Action::Exit,
            Phase::Failed => {
                let mut message = "Failed to bind to socket: ".to_owned();
                message.append(self.socket_path.as_str());
                Action::Abort(message)
            },
        }
    }
}

/// The phases come in order. Serving begins only once the socket is bound,
/// binding only once the path is cleared, and the daemon stops only once the
/// socket it served on has been removed.
pub proof fn lemma_phases_come_in_order(phase: Phase, event: Event)
    requires
        next_phase(phase, event) != phase,
    ensures
        next_phase(phase, event) == Phase::Binding ==> phase == Phase::Clearing && event
            == Event::ArtifactCleared,
        next_phase(phase, event) == Phase::Serving ==> phase == Phase::Binding && event
            == Event::Bound,
        next_phase(phase, event) == Phase::Failed ==> phase == Phase::Binding && event
            == Event::BindFailed,
        next_phase(phase, event) == Phase::Closing ==> phase == Phase::Serving && event
            == Event::Interrupted,
        next_phase(phase, event) == Phase::Stopped ==> phase == Phase::Closing && event
            == Event::ArtifactCleared,
        next_phase(phase, event) != Phase::Clearing,
{
}

/// Nothing but the interrupt ends serving: a daemon that serves goes on
/// serving whatever else is reported, a failed accept included.
pub proof fn lemma_serving_outlasts_failures(event: Event)
    requires
        event != Event::Interrupted,
    ensures
        next_phase(Phase::Serving, event) == Phase::Serving,
{
}

/// A daemon that has left the serving phase never returns to it and never
/// again asks for a session.
pub proof fn lemma_no_session_after_shutdown(phase: Phase, event: Event, socket_path: Seq<char>)
    requires
        phase == Phase::Closing || phase == Phase::Stopped || phase == Phase::Failed,
    ensures
        next_phase(phase, event) == Phase::Closing || next_phase(phase, event) == Phase::Stopped
            || next_phase(phase, event) == Phase::Failed,
        next_action(phase, event, socket_path) != ActionView::Serve,
{
}

} // verus!
