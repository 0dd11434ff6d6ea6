//! The decisions of the long-running daemon: its options, the reconnect
//! back-off and what to do with watch events. The loop that performs
//! sessions, sleeps and channel sends runs in the program around the library.

pub mod options;

pub use options::{
    next_retry_delay, watch_decision, Daemon, DaemonConfig, DaemonOptions, RetryStep,
    SessionOutcome, WatchDecision, WatchReceive,
};
