use vstd::arithmetic::power::lemma_pow0;
use vstd::arithmetic::power2::{lemma_pow2_pos, lemma_pow2_unfold, pow2};
use vstd::prelude::*;

verus! {

/// The daemon section of the configuration.
#[derive(Debug, Clone, Copy, PartialEq, Eq, Structural)]
pub struct DaemonConfig {
    pub watch_enabled: bool,
    pub retry_min_seconds: u64,
    pub retry_max_seconds: u64,
}

/// The daemon's effective options; reconnect delays are whole seconds.
#[derive(Debug, Clone, Copy, PartialEq, Eq, Structural)]
pub struct DaemonOptions {
    pub watch_enabled: bool,
    pub retry_min: u64,
    pub retry_max: u64,
}

/// How a session ended.
#[derive(Debug, Clone, Copy, PartialEq, Eq, Structural)]
pub enum SessionOutcome {
    /// The session ended without an error.
    Closed,
    /// The session stopped with an error.
    Failed,
}

/// What the daemon does after a session ends: sleep for some seconds or
/// not, then reconnect, waiting `next_delay` after the next failure.
#[derive(Debug, Clone, Copy, PartialEq, Eq, Structural)]
pub struct RetryStep {
    pub sleep: Option<u64>,
    pub next_delay: u64,
}

/// What the watch receiver handed over.
#[derive(Debug, Clone, Copy, PartialEq, Eq, Structural)]
pub enum WatchReceive {
    /// The watch task has stopped and its channel is closed.
    Closed,
    /// The watch task reported an error.
    Error,
    /// A vault event arrived.
    Event,
}

/// What the daemon does with what the watch receiver handed over.
#[derive(Debug, Clone, Copy, PartialEq, Eq, Structural)]
pub enum WatchDecision {
    /// Stop the session: the watch task stopped.
    StopWatchTaskStopped,
    /// Stop the session with the watch error.
    StopWithError,
    /// Forward the event to the session.
    Forward,
}

/// The next reconnect delay: twice the current one, saturating, and at most `max`.
pub open spec fn spec_next_retry_delay(current: u64, max: u64) -> u64 {
    let doubled: int = if 2 * current > u64::MAX { u64::MAX as int } else { 2 * current };
    if doubled < max { doubled as u64 } else { max }
}

pub fn next_retry_delay(current: u64, max: u64) -> (r: u64)
    ensures
        r == spec_next_retry_delay(current, max),
{
    let doubled = match current.checked_mul(2) {
        Some(d) => d,
        None => u64::MAX,
    };
    if doubled < max {
        doubled
    } else {
        max
    }
}

/// The options a configuration asks for: watching as configured, the
/// configured shortest delay, and the configured longest delay but never
/// less than the shortest.
pub open spec fn spec_daemon_options(config: DaemonConfig) -> DaemonOptions {
    DaemonOptions {
        watch_enabled: config.watch_enabled,
        retry_min: config.retry_min_seconds,
        retry_max: if config.retry_max_seconds >= config.retry_min_seconds {
            config.retry_max_seconds
        } else {
            config.retry_min_seconds
        },
    }
}

impl DaemonOptions {
    /// The options a configuration asks for; the longest delay is never
    /// shorter than the shortest.
    pub fn from_config(config: &DaemonConfig) -> (o: Self)
        ensures
            o == spec_daemon_options(*config),
            o.retry_min <= o.retry_max,
    {
        let retry_min = config.retry_min_seconds;
        let retry_max = if config.retry_max_seconds >= retry_min {
            config.retry_max_seconds
        } else {
            retry_min
        };
        DaemonOptions { watch_enabled: config.watch_enabled, retry_min, retry_max }
    }

    /// Watching on, reconnecting after 5 to 300 seconds.
    pub fn default_options() -> (o: Self)
        ensures
            o.watch_enabled,
            o.retry_min == 5,
            o.retry_max == 300,
    {
        DaemonOptions { watch_enabled: true, retry_min: 5, retry_max: 300 }
    }

    /// The delay before the first reconnect.
    pub fn initial_delay(&self) -> (d: u64)
        ensures
            d == self.retry_min,
    {
        self.retry_min
    }

    /// What to do when a session ends while the reconnect delay is `delay`:
    /// after a clean end reconnect at once and reset the delay; after a
    /// failure sleep for the delay and double it, up to the longest delay.
    pub fn after_session(&self, delay: u64, outcome: SessionOutcome) -> (s: RetryStep)
        ensures
            outcome == SessionOutcome::Closed ==> s == (RetryStep { sleep: None, next_delay: self.retry_min }),
            outcome == SessionOutcome::Failed ==> s == (RetryStep {
                sleep: Some(delay),
                next_delay: spec_next_retry_delay(delay, self.retry_max),
            }),
    {
        match outcome {
            SessionOutcome::Closed => RetryStep { sleep: None, next_delay: self.retry_min },
            SessionOutcome::Failed => RetryStep {
                sleep: Some(delay),
                next_delay: next_retry_delay(delay, self.retry_max),
            },
        }
    }
}

impl Default for DaemonOptions {
    fn default() -> (o: Self)
        ensures
            o.watch_enabled,
            o.retry_min == 5,
            o.retry_max == 300,
    {
        DaemonOptions::default_options()
    }
}

/// The long-running daemon: its configuration and the options derived from it.
#[derive(Debug)]
pub struct Daemon {
    config: DaemonConfig,
    options: DaemonOptions,
}

impl Daemon {
    /// The daemon's configuration.
    pub closed spec fn spec_config(&self) -> DaemonConfig {
        self.config
    }

    /// The daemon's options.
    pub closed spec fn spec_options(&self) -> DaemonOptions {
        self.options
    }

    /// A daemon for `config`, with the options it asks for.
    pub fn new(config: DaemonConfig) -> (d: Self)
        ensures
            d.spec_config() == config,
            d.spec_options() == spec_daemon_options(config),
    {
        let options = DaemonOptions::from_config(&config);
        Daemon { config, options }
    }

    /// The daemon's configuration.
    pub fn config(&self) -> (c: DaemonConfig)
        ensures
            c == self.spec_config(),
    {
        self.config
    }

    /// The daemon's options.
    pub fn options(&self) -> (o: DaemonOptions)
        ensures
            o == self.spec_options(),
    {
        self.options
    }
}

/// What to do with what the watch receiver handed over.
pub fn watch_decision(received: WatchReceive) -> (d: WatchDecision)
    ensures
        received == WatchReceive::Closed ==> d == WatchDecision::StopWatchTaskStopped,
        received == WatchReceive::Error ==> d == WatchDecision::StopWithError,
        received == WatchReceive::Event ==> d == WatchDecision::Forward,
{
    match received {
        WatchReceive::Closed => WatchDecision::StopWatchTaskStopped,
        WatchReceive::Error => WatchDecision::StopWithError,
        WatchReceive::Event => WatchDecision::Forward,
    }
}

/// Law: once the delay lies between the shortest and longest delay, every
/// step keeps it there, failures never shorten it, and a clean end resets it.
pub proof fn lemma_retry_delay_bounded(o: DaemonOptions, delay: u64, outcome: SessionOutcome)
    requires
        o.retry_min <= delay <= o.retry_max,
    ensures
        ({
            let next = match outcome {
                SessionOutcome::Closed => o.retry_min,
                SessionOutcome::Failed => spec_next_retry_delay(delay, o.retry_max),
            };
            &&& o.retry_min <= next <= o.retry_max
            &&& outcome == SessionOutcome::Failed ==> delay <= next
            &&& outcome == SessionOutcome::Closed ==> next == o.retry_min
        }),
{
}

/// Law: once the delay has reached the longest delay, a failure leaves it there.
pub proof fn lemma_retry_delay_saturates(delay: u64, max: u64)
    requires
        delay >= max,
    ensures
        spec_next_retry_delay(delay, max) == max,
{
}

/// The reconnect delay after `i` failures in a row since the last clean
/// end (or since the start): the shortest delay, doubled after each failure.
pub open spec fn delay_after_failures(o: DaemonOptions, i: nat) -> u64
    decreases i,
{
    if i == 0 {
        o.retry_min
    } else {
        spec_next_retry_delay(delay_after_failures(o, (i - 1) as nat), o.retry_max)
    }
}

/// Law: over a run of failures, the daemon sleeps `min(retry_min * 2^i,
/// retry_max)` after the `i`-th failure (counting from zero) before the next
/// session, and a clean end causes no sleep and resets the delay to the
/// shortest one.
pub proof fn lemma_failure_run_delays(o: DaemonOptions, i: nat)
    requires
        o.retry_min <= o.retry_max,
    ensures
        delay_after_failures(o, i) == (if o.retry_min * pow2(i) < o.retry_max {
            o.retry_min * pow2(i)
        } else {
            o.retry_max as int
        }),
        o.retry_min <= delay_after_failures(o, i) <= o.retry_max,
        spec_next_retry_delay(delay_after_failures(o, i), o.retry_max) == delay_after_failures(
            o,
            i + 1,
        ),
        delay_after_failures(o, i) <= delay_after_failures(o, i + 1),
    decreases i,
{
    lemma_pow2_pos(i);
    if i > 0 {
        let j = (i - 1) as nat;
        lemma_failure_run_delays(o, j);
        lemma_pow2_unfold(i);
        let m = o.retry_min as int;
        assert(m * pow2(i) == 2 * (m * pow2(j))) by (nonlinear_arith)
            requires
                pow2(i) == 2 * pow2(j),
        ;
        assert(m * pow2(j) >= m) by (nonlinear_arith)
            requires
                pow2(j) > 0,
                m >= 0,
        ;
    } else {
        lemma_pow0(2);
    }
}

} // verus!
