//! Automatic wiring of MIDI source ports to the first synthesizer port of a
//! sequencer graph.
//!
//! The library holds the decisions: how ports are classified, which
//! subscriptions a fresh view of the graph calls for, whether a subscription
//! is new, and how the watch loop moves from one step to the next. Talking to
//! the sequencer itself is left to the program that drives these functions.
pub mod port;
pub mod subscription;
pub mod synchronizer;
pub mod watch;

pub use port::{Addr, Port, PortClass, classify, contains_tags, is_midi_source, is_synthetizer};
pub use subscription::{
    ConnectDecision, Subscription, confirmation_notes, connect, find_subscription,
};
pub use synchronizer::{
    Detection, Event, InitPlan, InitStatus, Reaction, Summary, Warning, auto_connect, connect_all,
    connections_to, handle, midi_sources, synthetizer,
};
pub use watch::{Action, ErrorKind, Outcome, Stage, Watcher, start};
