use vstd::prelude::*;

verus! {

/// A failure, by kind, as the driver of the watch loop reports it.
#[derive(Clone, Copy, Debug, PartialEq, Eq, Structural)]
pub enum ErrorKind {
    /// The sequencer could not do what was asked of it.
    Backend,
    /// A port went away between the event that named it and its lookup.
    StaleReference,
    /// Making a subscription or sending a confirmation note failed.
    Connection,
}

pub open spec fn spec_is_fatal(kind: ErrorKind) -> bool {
    kind == ErrorKind::Backend
}

impl ErrorKind {
    /// Whether a failure of this kind, met while handling an event, stops the
    /// watcher; the others only skip the event at hand.
    pub fn is_fatal(&self) -> (r: bool)
        ensures
            r == spec_is_fatal(*self),
    {
        match self {
            ErrorKind::Backend => true,
            _ => false,
        }
    }
}

/// Where the watcher stands.
#[derive(Clone, Copy, Debug, PartialEq, Eq, Structural)]
pub enum Stage {
    OpenClient,
    CreateListenerPort,
    SubscribeAnnouncements,
    Initialize,
    /// Blocked until input is ready or the poll times out.
    Wait,
    /// Asking how many events are pending.
    CheckPending,
    /// Fetching and handling the next pending event.
    Handle,
    /// Stopped for good on a failure of this kind.
    Stopped(ErrorKind),
}

/// What the driver is to do next.
#[derive(Clone, Copy, Debug, PartialEq, Eq, Structural)]
pub enum Action {
    /// Open a sequencer client under `CLIENT_NAME`.
    OpenClient,
    /// Create the writable application port `LISTENER_PORT_NAME`.
    CreateListenerPort,
    /// Subscribe the listener port to the system announcement port.
    SubscribeAnnouncements,
    /// Run the one-shot initializer.
    RunInitializer,
    /// Block until input is ready, for at most `POLL_TIMEOUT_MS`.
    Poll,
    /// Report the number of pending events.
    CountPending,
    /// Fetch the next pending event and hand it to the handler.
    HandleNextEvent,
    /// Stop, reporting the failure.
    Exit(ErrorKind),
}

/// What came of the last action.
#[derive(Clone, Copy, Debug, PartialEq, Eq, Structural)]
pub enum Outcome {
    Done,
    Pending(u32),
    Failed(ErrorKind),
}

/// The name the sequencer client is opened under.
pub const CLIENT_NAME: &'static str = "Synchronizer";

/// The name of the port that listens to the system announcements.
pub const LISTENER_PORT_NAME: &'static str = "Listener";

/// The longest a poll blocks, in milliseconds.
pub const POLL_TIMEOUT_MS: i32 = 1000;

pub open spec fn action_of(stage: Stage) -> Action {
    match stage {
        Stage::OpenClient => Action::OpenClient,
        Stage::CreateListenerPort => Action::CreateListenerPort,
        Stage::SubscribeAnnouncements => Action::SubscribeAnnouncements,
        Stage::Initialize => Action::RunInitializer,
        Stage::Wait => Action::Poll,
        Stage::CheckPending => Action::CountPending,
        Stage::Handle => Action::HandleNextEvent,
        Stage::Stopped(k) => Action::Exit(k),
    }
}

/// The stage after `stage`, given what came of its action. Every failure
/// before the loop, and every failure of the loop's own steps, stops the
/// watcher; a failure in handling an event stops it only when fatal.
pub open spec fn next_stage(stage: Stage, outcome: Outcome) -> Stage {
    match outcome {
        Outcome::Failed(k) => match stage {
            Stage::Handle => if spec_is_fatal(k) {
                Stage::Stopped(k)
            } else {
                Stage::CheckPending
            },
            Stage::Stopped(j) => Stage::Stopped(j),
            _ => Stage::Stopped(k),
        },
        _ => match stage {
            Stage::OpenClient => Stage::CreateListenerPort,
            Stage::CreateListenerPort => Stage::SubscribeAnnouncements,
            Stage::SubscribeAnnouncements => Stage::Initialize,
            Stage::Initialize => Stage::Wait,
            Stage::Wait => Stage::CheckPending,
            Stage::CheckPending => match outcome {
                Outcome::Pending(n) => if n > 0 {
                    Stage::Handle
                } else {
                    Stage::Wait
                },
                _ => Stage::Wait,
            },
            Stage::Handle => Stage::CheckPending,
            Stage::Stopped(j) => Stage::Stopped(j),
        },
    }
}

/// The stages from which the initializer has already run.
pub open spec fn is_watching(stage: Stage) -> bool {
    match stage {
        Stage::Wait | Stage::CheckPending | Stage::Handle | Stage::Stopped(_) => true,
        _ => false,
    }
}

/// The watch loop's decisions: which step comes next, given the outcome of
/// the last one.
pub struct Watcher {
    pub stage: Stage,
}

/// A watcher that has done nothing yet: its first step opens the client.
pub fn start() -> (r: Watcher)
    ensures
        r.view() == Stage::OpenClient,
{
    Watcher { stage: Stage::OpenClient }
}

impl View for Watcher {
    type V = Stage;

    open spec fn view(&self) -> Stage {
        self.stage
    }
}

impl Watcher {
    /// The stage the watcher stands in.
    pub fn stage(&self) -> (r: Stage)
        ensures
            r == self@,
    {
        self.stage
    }

    /// What the driver is to do next.
    pub fn action(&self) -> (r: Action)
        ensures
            r == action_of(self@),
    {
        match self.stage {
            Stage::OpenClient => Action::OpenClient,
            Stage::CreateListenerPort => Action::CreateListenerPort,
            Stage::SubscribeAnnouncements => Action::SubscribeAnnouncements,
            Stage::Initialize => Action::RunInitializer,
            Stage::Wait => Action::Poll,
            Stage::CheckPending => Action::CountPending,
            Stage::Handle => Action::HandleNextEvent,
            Stage::Stopped(k) => Action::Exit(k),
        }
    }

    /// Moves on, given what came of the last action.
    pub fn step(&mut self, outcome: Outcome)
        ensures
            final(self)@ == next_stage(old(self)@, outcome),
    {
        let next = match outcome {
            Outcome::Failed(k) => match self.stage {
                Stage::Handle => if k.is_fatal() {
                    Stage::Stopped(k)
                } else {
                    Stage::CheckPending
                },
                Stage::Stopped(j) => Stage::Stopped(j),
                _ => Stage::Stopped(k),
            },
            _ => match self.stage {
                Stage::OpenClient => Stage::CreateListenerPort,
                Stage::CreateListenerPort => Stage::SubscribeAnnouncements,
                Stage::SubscribeAnnouncements => Stage::Initialize,
                Stage::Initialize => Stage::Wait,
                Stage::Wait => Stage::CheckPending,
                Stage::CheckPending => match outcome {
                    Outcome::Pending(n) => if n > 0 {
                        Stage::Handle
                    } else {
                        Stage::Wait
                    },
                    _ => Stage::Wait,
                },
                Stage::Handle => Stage::CheckPending,
                Stage::Stopped(j) => Stage::Stopped(j),
            },
        };
        self.stage = next;
    }
}

/// Once the initializer has run, the watcher never comes back to it: the
/// initializer runs at most once.
pub proof fn lemma_initializer_runs_once(stage: Stage, outcome: Outcome)
    requires
        is_watching(stage),
    ensures
        is_watching(next_stage(stage, outcome)),
        next_stage(stage, outcome) != Stage::Initialize,
{
}

/// While events are pending, the next step handles one: none is dropped.
pub proof fn lemma_pending_events_are_handled(n: u32)
    requires
        n > 0,
    ensures
        next_stage(Stage::CheckPending, Outcome::Pending(n)) == Stage::Handle,
        action_of(Stage::Handle) == Action::HandleNextEvent,
{
}

/// A stopped watcher stays stopped, on the failure that stopped it.
pub proof fn lemma_stopped_is_final(k: ErrorKind, outcome: Outcome)
    ensures
        next_stage(Stage::Stopped(k), outcome) == Stage::Stopped(k),
{
}

} // verus!
