//! The decisions of the captive-core supervisor: which ledger to resume from,
//! how long to wait before each restart, when to fall back to the remote
//! source and when to try the primary again. The caller runs the process,
//! reads frames, sleeps and fetches remote ledgers, and reports each outcome.
use vstd::prelude::*;
use crate::config::{min_nat, power_of_two, two_pow};
use crate::duration::{max_nanos, Duration};
use crate::ingestion::{CaptiveCoreConfig, IngestionSource};

verus! {

/// What the supervisor reports about itself.
#[derive(Debug, Clone)]
pub struct SupervisorStatus {
    pub active_source: IngestionSource,
    pub last_processed_ledger: Option<u32>,
    pub consecutive_restart_failures: u32,
    pub fallback_reason: Option<String>,
    pub last_archive_path: Option<String>,
    /// Wall-clock time of the last ledger, in milliseconds since the Unix epoch.
    pub last_heartbeat_at: Option<u64>,
}

/// The supervisor's state.
pub struct IngestionSupervisor {
    start_ledger: u32,
    max_restart_attempts: u32,
    restart_backoff: Duration,
    heartbeat_timeout: Duration,
    last_processed_ledger: Option<u32>,
    consecutive_restart_failures: u32,
    active_source: IngestionSource,
    fallback_reason: Option<String>,
    next_primary_retry_at: u128,
    last_archive_path: Option<String>,
    last_heartbeat_at: Option<u64>,
    phase: Phase,
}

/// What the supervisor is waiting for.
#[derive(Clone, Copy, Debug, PartialEq, Eq, Structural)]
pub enum Phase {
    /// A request for the next ledger.
    Idle,
    /// Whether the primary process is running.
    AwaitRunning,
    /// A frame from the primary.
    AwaitFrame,
    /// The primary stopped and its state archived.
    AwaitArchive,
    /// The outcome of a restart attempt.
    AwaitRestart,
    /// The outcome of trying the primary again from the remote source.
    AwaitRecovery,
    /// A ledger from the remote source.
    AwaitRemote,
}

/// The supervisor's state as values. Monotonic times are nanoseconds on the
/// caller's clock.
pub struct SupervisorView {
    pub start_ledger: u32,
    pub max_restart_attempts: u32,
    pub restart_backoff: nat,
    pub heartbeat_timeout: nat,
    pub last_processed_ledger: Option<u32>,
    pub consecutive_restart_failures: u32,
    pub active_source: IngestionSource,
    pub fallback_reason: Option<Seq<char>>,
    pub next_primary_retry_at: u128,
    pub last_archive_path: Option<Seq<char>>,
    pub last_heartbeat_at: Option<u64>,
    pub phase: Phase,
}

/// The view of an optional string.
pub open spec fn opt_text(o: Option<String>) -> Option<Seq<char>> {
    match o {
        Some(s) => Some(s@),
        None => None,
    }
}

impl View for IngestionSupervisor {
    type V = SupervisorView;

    closed spec fn view(&self) -> SupervisorView {
        SupervisorView {
            start_ledger: self.start_ledger,
            max_restart_attempts: self.max_restart_attempts,
            restart_backoff: self.restart_backoff@,
            heartbeat_timeout: self.heartbeat_timeout@,
            last_processed_ledger: self.last_processed_ledger,
            consecutive_restart_failures: self.consecutive_restart_failures,
            active_source: self.active_source,
            fallback_reason: opt_text(self.fallback_reason),
            next_primary_retry_at: self.next_primary_retry_at,
            last_archive_path: opt_text(self.last_archive_path),
            last_heartbeat_at: self.last_heartbeat_at,
            phase: self.phase,
        }
    }
}

/// The ledger to (re)start from: the one after the last processed ledger
/// (saturating), or the configured start ledger before any was processed.
pub open spec fn resume_ledger(v: SupervisorView) -> u32 {
    match v.last_processed_ledger {
        Some(l) => if l == u32::MAX { l } else { (l + 1) as u32 },
        None => v.start_ledger,
    }
}

/// The wait before restart `attempt` (1-based): the restart backoff doubled
/// `attempt - 1` times (at most 8), or the backoff itself when that product is
/// longer than any duration.
pub open spec fn restart_delay_nanos(backoff: nat, attempt: u32) -> nat {
    let k: nat = if attempt == 0 { 0 } else { min_nat((attempt - 1) as nat, 8) };
    let product = backoff * two_pow(k);
    if product <= max_nanos() { product } else { backoff }
}

/// `t + d`, or the largest time when that does not fit.
pub open spec fn later_by(t: u128, d: nat) -> u128 {
    if t + d <= u128::MAX { (t + d) as u128 } else { u128::MAX }
}

impl IngestionSupervisor {
    /// Restart failures never exceed the configured attempts.
    pub closed spec fn wf(&self) -> bool {
        self.consecutive_restart_failures <= self.max_restart_attempts
    }

    /// A supervisor for `config`, on the primary source, before any ledger;
    /// `now` is the caller's monotonic clock.
    pub fn new(config: &CaptiveCoreConfig, now: u128) -> (r: Self)
        ensures
            r.wf(),
            r@.start_ledger == config.start_ledger,
            r@.max_restart_attempts == config.max_restart_attempts,
            r@.restart_backoff == config.restart_backoff@,
            r@.heartbeat_timeout == config.heartbeat_timeout@,
            r@.last_processed_ledger == (if config.start_ledger == 0 { None } else { Some((config.start_ledger - 1) as u32) }),
            r@.consecutive_restart_failures == 0,
            r@.active_source == IngestionSource::CaptiveCore,
            r@.fallback_reason is None,
            r@.next_primary_retry_at == now,
            r@.last_archive_path is None,
            r@.last_heartbeat_at is None,
            r@.phase == Phase::Idle,
    {
        IngestionSupervisor {
            start_ledger: config.start_ledger,
            max_restart_attempts: config.max_restart_attempts,
            restart_backoff: config.restart_backoff,
            heartbeat_timeout: config.heartbeat_timeout,
            last_processed_ledger: config.start_ledger.checked_sub(1),
            consecutive_restart_failures: 0,
            active_source: IngestionSource::CaptiveCore,
            fallback_reason: None,
            next_primary_retry_at: now,
            last_archive_path: None,
            last_heartbeat_at: None,
            phase: Phase::Idle,
        }
    }

    /// The ledger to (re)start from.
    pub fn next_start_ledger(&self) -> (r: u32)
        ensures
            r == resume_ledger(self@),
    {
        match self.last_processed_ledger {
            Some(l) => l.saturating_add(1),
            None => self.start_ledger,
        }
    }

    /// The wait before restart `attempt` (1-based).
    pub fn restart_delay(&self, attempt: u32) -> (r: Duration)
        ensures
            r@ == restart_delay_nanos(self@.restart_backoff, attempt),
    {
        let shift: u32 = if attempt == 0 { 0 } else if attempt - 1 < 8 { attempt - 1 } else { 8 };
        let multiplier = power_of_two(shift);
        match self.restart_backoff.checked_mul(multiplier) {
            Some(d) => d,
            None => self.restart_backoff,
        }
    }

    /// How long to wait for the next frame from the primary.
    pub fn heartbeat_timeout(&self) -> (r: Duration)
        ensures
            r@ == self@.heartbeat_timeout,
    {
        self.heartbeat_timeout
    }

    /// Whether ledgers currently come from the primary (captive core).
    pub fn on_primary(&self) -> (r: bool)
        ensures
            r == (self@.active_source == IngestionSource::CaptiveCore),
    {
        self.active_source == IngestionSource::CaptiveCore
    }

    /// What the supervisor reports.
    pub fn status(&self) -> (r: SupervisorStatus)
        ensures
            r.active_source == self@.active_source,
            r.last_processed_ledger == self@.last_processed_ledger,
            r.consecutive_restart_failures == self@.consecutive_restart_failures,
            opt_text(r.fallback_reason) == self@.fallback_reason,
            opt_text(r.last_archive_path) == self@.last_archive_path,
            r.last_heartbeat_at == self@.last_heartbeat_at,
    {
        SupervisorStatus {
            active_source: self.active_source,
            last_processed_ledger: self.last_processed_ledger,
            consecutive_restart_failures: self.consecutive_restart_failures,
            fallback_reason: match &self.fallback_reason {
                Some(s) => Some(s.clone()),
                None => None,
            },
            last_archive_path: match &self.last_archive_path {
                Some(s) => Some(s.clone()),
                None => None,
            },
            last_heartbeat_at: self.last_heartbeat_at,
        }
    }
}


impl IngestionSupervisor {
    /// A frame arrived from the primary: its sequence (when it has one) becomes
    /// the last processed ledger, the primary is active again, the fallback
    /// reason and the restart failures are cleared, and the heartbeat is `now_wall`.
    pub fn record_primary_ledger(&mut self, ledger_sequence: Option<u32>, now_wall: u64)
        requires
            old(self).wf(),
        ensures
            final(self).wf(),
            final(self)@ == (SupervisorView {
                last_processed_ledger: if ledger_sequence is Some { ledger_sequence } else { old(self)@.last_processed_ledger },
                active_source: IngestionSource::CaptiveCore,
                fallback_reason: None,
                consecutive_restart_failures: 0,
                last_heartbeat_at: Some(now_wall),
                ..old(self)@
            }),
    {
        if ledger_sequence.is_some() {
            self.last_processed_ledger = ledger_sequence;
        }
        self.active_source = IngestionSource::CaptiveCore;
        self.fallback_reason = None;
        self.consecutive_restart_failures = 0;
        self.last_heartbeat_at = Some(now_wall);
    }

    /// The primary failed (it stopped running, or reading a frame failed): the
    /// remote source takes over and `reason` is kept. The caller then stops the
    /// primary and archives its state.
    pub fn record_primary_failure(&mut self, reason: String)
        requires
            old(self).wf(),
        ensures
            final(self).wf(),
            final(self)@ == (SupervisorView {
                fallback_reason: Some(reason@),
                active_source: IngestionSource::Remote,
                ..old(self)@
            }),
    {
        self.fallback_reason = Some(reason);
        self.active_source = IngestionSource::Remote;
    }

    /// Where the primary's state was archived, if it was.
    pub fn record_archive(&mut self, path: Option<String>)
        requires
            old(self).wf(),
        ensures
            final(self).wf(),
            final(self)@ == (SupervisorView { last_archive_path: opt_text(path), ..old(self)@ }),
    {
        self.last_archive_path = path;
    }

    /// Starts the next restart attempt when any are left: counts it and returns
    /// how long to wait before starting the primary again.
    pub fn begin_restart(&mut self) -> (r: Option<Duration>)
        requires
            old(self).wf(),
        ensures
            final(self).wf(),
            old(self)@.consecutive_restart_failures < old(self)@.max_restart_attempts ==> {
                &&& final(self)@ == (SupervisorView {
                    consecutive_restart_failures: (old(self)@.consecutive_restart_failures + 1) as u32,
                    ..old(self)@
                })
                &&& r matches Some(d) && d@ == restart_delay_nanos(old(self)@.restart_backoff, final(self)@.consecutive_restart_failures)
            },
            old(self)@.consecutive_restart_failures >= old(self)@.max_restart_attempts ==> r is None && final(self)@ == old(self)@,
    {
        if self.consecutive_restart_failures < self.max_restart_attempts {
            self.consecutive_restart_failures = self.consecutive_restart_failures + 1;
            Some(self.restart_delay(self.consecutive_restart_failures))
        } else {
            None
        }
    }

    /// The outcome of starting the primary again: on success it is active
    /// again and the fallback reason is cleared; on failure the error becomes
    /// the fallback reason. Returns whether the primary is back.
    pub fn record_restart(&mut self, outcome: Result<(), String>) -> (r: bool)
        requires
            old(self).wf(),
        ensures
            final(self).wf(),
            r == outcome is Ok,
            outcome is Ok ==> final(self)@ == (SupervisorView {
                active_source: IngestionSource::CaptiveCore,
                fallback_reason: None,
                ..old(self)@
            }),
            outcome matches Err(e) ==> final(self)@ == (SupervisorView { fallback_reason: Some(e@), ..old(self)@ }),
    {
        match outcome {
            Ok(()) => {
                self.active_source = IngestionSource::CaptiveCore;
                self.fallback_reason = None;
                true
            },
            Err(e) => {
                self.fallback_reason = Some(e);
                false
            },
        }
    }

    /// All restart attempts failed: the primary is next tried one restart
    /// backoff after `now`.
    pub fn defer_primary(&mut self, now: u128)
        requires
            old(self).wf(),
        ensures
            final(self).wf(),
            final(self)@ == (SupervisorView {
                next_primary_retry_at: later_by(now, old(self)@.restart_backoff),
                ..old(self)@
            }),
    {
        let b = self.restart_backoff.as_nanos();
        self.next_primary_retry_at = now.saturating_add(b);
    }

    /// Whether the primary may be tried again at `now`.
    pub fn primary_retry_due(&self, now: u128) -> (r: bool)
        ensures
            r == (now >= self@.next_primary_retry_at),
    {
        now >= self.next_primary_retry_at
    }

    /// The outcome of trying the primary again while on the remote source: on
    /// success it is active again; on failure the error is kept and the next
    /// try is one restart backoff after `now`. Returns whether the primary is back.
    pub fn record_recovery(&mut self, outcome: Result<(), String>, now: u128) -> (r: bool)
        requires
            old(self).wf(),
        ensures
            final(self).wf(),
            r == outcome is Ok,
            outcome is Ok ==> final(self)@ == (SupervisorView {
                active_source: IngestionSource::CaptiveCore,
                fallback_reason: None,
                ..old(self)@
            }),
            outcome matches Err(e) ==> final(self)@ == (SupervisorView {
                fallback_reason: Some(e@),
                next_primary_retry_at: later_by(now, old(self)@.restart_backoff),
                ..old(self)@
            }),
    {
        match outcome {
            Ok(()) => {
                self.active_source = IngestionSource::CaptiveCore;
                self.fallback_reason = None;
                true
            },
            Err(e) => {
                self.fallback_reason = Some(e);
                self.defer_primary(now);
                false
            },
        }
    }

    /// A ledger arrived from the remote source: its sequence (when it has one)
    /// becomes the last processed ledger, the remote source is active, and the
    /// heartbeat is `now_wall`.
    pub fn record_remote_ledger(&mut self, ledger_sequence: Option<u32>, now_wall: u64)
        requires
            old(self).wf(),
        ensures
            final(self).wf(),
            final(self)@ == (SupervisorView {
                last_processed_ledger: if ledger_sequence is Some { ledger_sequence } else { old(self)@.last_processed_ledger },
                active_source: IngestionSource::Remote,
                last_heartbeat_at: Some(now_wall),
                ..old(self)@
            }),
    {
        if ledger_sequence.is_some() {
            self.last_processed_ledger = ledger_sequence;
        }
        self.active_source = IngestionSource::Remote;
        self.last_heartbeat_at = Some(now_wall);
    }
}

/// Resuming: after a ledger with a sequence arrives (from either source), the
/// next start is the ledger after it.
pub proof fn lemma_resume_after_ledger(v: SupervisorView, sequence: u32)
    requires
        v.last_processed_ledger == Some(sequence),
    ensures
        resume_ledger(v) == if sequence == u32::MAX { sequence } else { (sequence + 1) as u32 },
{
}

/// Restart attempts are bounded: a supervisor never counts more restart
/// failures than it is configured to attempt.
pub proof fn lemma_restarts_bounded(s: &IngestionSupervisor)
    requires
        s.wf(),
    ensures
        s@.consecutive_restart_failures <= s@.max_restart_attempts,
{
}

/// Restart waits grow: each attempt waits at least as long as the one before,
/// and before the eighth doubling, twice as long, while it fits in a duration.
pub proof fn lemma_restart_delay_doubles(backoff: nat, attempt: u32)
    requires
        1 <= attempt < 9,
        backoff * two_pow(attempt as nat) <= max_nanos(),
    ensures
        restart_delay_nanos(backoff, (attempt + 1) as u32) == 2 * restart_delay_nanos(backoff, attempt),
{
    let k = (attempt - 1) as nat;
    assert(two_pow(attempt as nat) == 2 * two_pow(k));
    assert(backoff * (2 * two_pow(k)) == 2 * (backoff * two_pow(k))) by (nonlinear_arith);
    crate::config::lemma_two_pow_positive(k);
    assert(backoff * two_pow(k) <= backoff * two_pow(attempt as nat)) by (nonlinear_arith)
        requires
            two_pow(attempt as nat) == 2 * two_pow(k),
            two_pow(k) >= 1,
    {}
}

/// Restart waits are capped: from the ninth attempt on, the wait no longer grows.
pub proof fn lemma_restart_delay_capped(backoff: nat, a: u32, b: u32)
    requires
        9 <= a <= b,
    ensures
        restart_delay_nanos(backoff, a) == restart_delay_nanos(backoff, b),
{
}

/// What the caller reports to the supervisor: each outcome of the work it
/// was asked to do. Monotonic times (`now`) are nanoseconds on the caller's
/// clock; wall times are milliseconds since the Unix epoch.
#[derive(Debug)]
pub enum SupervisorEvent {
    /// The next ledger is wanted.
    NextLedger { now: u128 },
    /// Whether the primary process is running.
    PrimaryRunning { running: bool },
    /// A frame from the primary, decoded to its ledger sequence (when it has
    /// one), or why reading it failed.
    Frame { outcome: Result<Option<u32>, String>, now_wall: u64 },
    /// The primary was stopped and its state archived (where, if anywhere),
    /// or why archiving failed.
    Archived { outcome: Result<Option<String>, String>, now: u128 },
    /// The outcome of starting the primary.
    Started { outcome: Result<(), String>, now: u128 },
    /// A ledger from the remote source (its sequence, when it has one), or
    /// why fetching it failed.
    RemoteLedger { outcome: Result<Option<u32>, String>, now_wall: u64 },
}

/// What the supervisor asks the caller to do next.
#[derive(Debug, Clone)]
pub enum SupervisorAction {
    /// Check whether the primary process is running.
    CheckPrimaryRunning,
    /// Read the next frame from the primary, waiting at most `timeout`.
    ReadFrame { timeout: Duration },
    /// Stop the primary and archive its state.
    StopAndArchive,
    /// Wait `delay`, then start the primary from `start_ledger`.
    SleepThenStart { delay: Duration, start_ledger: u32 },
    /// Start the primary from `start_ledger` now.
    StartPrimary { start_ledger: u32 },
    /// Fetch the ledger `start_ledger` from the remote source.
    FetchRemote { start_ledger: u32 },
    /// Hand out the ledger just reported, from `source`.
    Deliver { source: IngestionSource },
    /// Give up on this request with `reason`.
    Fail { reason: String },
}

/// An action as values.
pub enum ActionView {
    CheckPrimaryRunning,
    ReadFrame(nat),
    StopAndArchive,
    SleepThenStart(nat, u32),
    StartPrimary(u32),
    FetchRemote(u32),
    Deliver(IngestionSource),
    Fail(Seq<char>),
}

/// The values of an action.
pub open spec fn action_view(a: SupervisorAction) -> ActionView {
    match a {
        SupervisorAction::CheckPrimaryRunning => ActionView::CheckPrimaryRunning,
        SupervisorAction::ReadFrame { timeout } => ActionView::ReadFrame(timeout@),
        SupervisorAction::StopAndArchive => ActionView::StopAndArchive,
        SupervisorAction::SleepThenStart { delay, start_ledger } => ActionView::SleepThenStart(delay@, start_ledger),
        SupervisorAction::StartPrimary { start_ledger } => ActionView::StartPrimary(start_ledger),
        SupervisorAction::FetchRemote { start_ledger } => ActionView::FetchRemote(start_ledger),
        SupervisorAction::Deliver { source } => ActionView::Deliver(source),
        SupervisorAction::Fail { reason } => ActionView::Fail(reason@),
    }
}

/// The event the supervisor waits for in `phase`.
pub open spec fn event_fits(phase: Phase, e: SupervisorEvent) -> bool {
    match e {
        SupervisorEvent::NextLedger { .. } => phase == Phase::Idle,
        SupervisorEvent::PrimaryRunning { .. } => phase == Phase::AwaitRunning,
        SupervisorEvent::Frame { .. } => phase == Phase::AwaitFrame,
        SupervisorEvent::Archived { .. } => phase == Phase::AwaitArchive,
        SupervisorEvent::Started { .. } => phase == Phase::AwaitRestart || phase == Phase::AwaitRecovery,
        SupervisorEvent::RemoteLedger { .. } => phase == Phase::AwaitRemote,
    }
}

/// The primary failed with `reason`: the remote source takes over, and the
/// primary is stopped and its state archived.
pub open spec fn after_failure(v: SupervisorView, reason: Seq<char>) -> (SupervisorView, ActionView) {
    (SupervisorView {
        fallback_reason: Some(reason),
        active_source: IngestionSource::Remote,
        phase: Phase::AwaitArchive,
        ..v
    }, ActionView::StopAndArchive)
}

/// On the remote source at `now`: try the primary again once its retry time
/// has come, else fetch the next ledger remotely.
pub open spec fn toward_remote(v: SupervisorView, now: u128) -> (SupervisorView, ActionView) {
    if now >= v.next_primary_retry_at {
        (SupervisorView { phase: Phase::AwaitRecovery, ..v }, ActionView::StartPrimary(resume_ledger(v)))
    } else {
        (SupervisorView { phase: Phase::AwaitRemote, ..v }, ActionView::FetchRemote(resume_ledger(v)))
    }
}

/// After the primary's state is archived or a restart failed: restart again,
/// after the backoff for the next attempt, while attempts are left; once all
/// are used, defer the primary by one backoff and go on with the remote source.
pub open spec fn restart_or_fall_back(v: SupervisorView, now: u128) -> (SupervisorView, ActionView) {
    if v.consecutive_restart_failures < v.max_restart_attempts {
        let attempt = (v.consecutive_restart_failures + 1) as u32;
        (SupervisorView { consecutive_restart_failures: attempt, phase: Phase::AwaitRestart, ..v },
            ActionView::SleepThenStart(restart_delay_nanos(v.restart_backoff, attempt), resume_ledger(v)))
    } else {
        toward_remote(SupervisorView { next_primary_retry_at: later_by(now, v.restart_backoff), ..v }, now)
    }
}

/// The supervisor's next state and action after event `e` in state `v`.
pub open spec fn step_spec(v: SupervisorView, e: SupervisorEvent) -> (SupervisorView, ActionView) {
    match e {
        SupervisorEvent::NextLedger { now } => if v.active_source == IngestionSource::CaptiveCore {
            (SupervisorView { phase: Phase::AwaitRunning, ..v }, ActionView::CheckPrimaryRunning)
        } else {
            toward_remote(v, now)
        },
        SupervisorEvent::PrimaryRunning { running } => if running {
            (SupervisorView { phase: Phase::AwaitFrame, ..v }, ActionView::ReadFrame(v.heartbeat_timeout))
        } else {
            after_failure(v, "captive core process not running"@)
        },
        SupervisorEvent::Frame { outcome, now_wall } => match outcome {
            Ok(sequence) => (SupervisorView {
                last_processed_ledger: if sequence is Some { sequence } else { v.last_processed_ledger },
                active_source: IngestionSource::CaptiveCore,
                fallback_reason: None,
                consecutive_restart_failures: 0,
                last_heartbeat_at: Some(now_wall),
                phase: Phase::Idle,
                ..v
            }, ActionView::Deliver(IngestionSource::CaptiveCore)),
            Err(reason) => after_failure(v, reason@),
        },
        SupervisorEvent::Archived { outcome, now } => match outcome {
            Ok(path) => restart_or_fall_back(SupervisorView { last_archive_path: opt_text(path), ..v }, now),
            Err(reason) => (SupervisorView { phase: Phase::Idle, ..v }, ActionView::Fail(reason@)),
        },
        SupervisorEvent::Started { outcome, now } => match outcome {
            Ok(()) => (SupervisorView {
                active_source: IngestionSource::CaptiveCore,
                fallback_reason: None,
                phase: Phase::AwaitRunning,
                ..v
            }, ActionView::CheckPrimaryRunning),
            Err(reason) => if v.phase == Phase::AwaitRestart {
                restart_or_fall_back(SupervisorView { fallback_reason: Some(reason@), ..v }, now)
            } else {
                let w = SupervisorView {
                    fallback_reason: Some(reason@),
                    next_primary_retry_at: later_by(now, v.restart_backoff),
                    phase: Phase::AwaitRemote,
                    ..v
                };
                (w, ActionView::FetchRemote(resume_ledger(w)))
            },
        },
        SupervisorEvent::RemoteLedger { outcome, now_wall } => match outcome {
            Ok(sequence) => (SupervisorView {
                last_processed_ledger: if sequence is Some { sequence } else { v.last_processed_ledger },
                active_source: IngestionSource::Remote,
                last_heartbeat_at: Some(now_wall),
                phase: Phase::Idle,
                ..v
            }, ActionView::Deliver(IngestionSource::Remote)),
            Err(reason) => (SupervisorView { phase: Phase::Idle, ..v }, ActionView::Fail(reason@)),
        },
    }
}

impl IngestionSupervisor {
    /// What the supervisor waits for.
    pub fn phase(&self) -> (r: Phase)
        ensures
            r == self@.phase,
    {
        self.phase
    }

    fn toward_remote_step(&mut self, now: u128) -> (a: SupervisorAction)
        requires
            old(self).wf(),
        ensures
            final(self).wf(),
            (final(self)@, action_view(a)) == toward_remote(old(self)@, now),
    {
        let start_ledger = self.next_start_ledger();
        if now >= self.next_primary_retry_at {
            self.phase = Phase::AwaitRecovery;
            SupervisorAction::StartPrimary { start_ledger }
        } else {
            self.phase = Phase::AwaitRemote;
            SupervisorAction::FetchRemote { start_ledger }
        }
    }

    fn restart_or_fall_back_step(&mut self, now: u128) -> (a: SupervisorAction)
        requires
            old(self).wf(),
        ensures
            final(self).wf(),
            (final(self)@, action_view(a)) == restart_or_fall_back(old(self)@, now),
    {
        let start_ledger = self.next_start_ledger();
        match self.begin_restart() {
            Some(delay) => {
                self.phase = Phase::AwaitRestart;
                SupervisorAction::SleepThenStart { delay, start_ledger }
            },
            None => {
                self.defer_primary(now);
                self.toward_remote_step(now)
            },
        }
    }

    /// Takes the outcome the caller reports and says what to do next. Driving
    /// it from `NextLedger` to `Deliver` or `Fail` fetches one ledger: from
    /// the primary while it runs; when it fails, the primary is stopped and
    /// archived, then restarted with growing backoff up to the configured
    /// attempts; after that the remote source serves ledgers, and the primary
    /// is tried again once per restart backoff.
    pub fn step(&mut self, event: SupervisorEvent) -> (a: SupervisorAction)
        requires
            old(self).wf(),
            event_fits(old(self)@.phase, event),
        ensures
            final(self).wf(),
            (final(self)@, action_view(a)) == step_spec(old(self)@, event),
    {
        match event {
            SupervisorEvent::NextLedger { now } => {
                if self.active_source == IngestionSource::CaptiveCore {
                    self.phase = Phase::AwaitRunning;
                    SupervisorAction::CheckPrimaryRunning
                } else {
                    self.toward_remote_step(now)
                }
            },
            SupervisorEvent::PrimaryRunning { running } => {
                if running {
                    self.phase = Phase::AwaitFrame;
                    SupervisorAction::ReadFrame { timeout: self.heartbeat_timeout }
                } else {
                    self.record_primary_failure(String::from_str("captive core process not running"));
                    self.phase = Phase::AwaitArchive;
                    SupervisorAction::StopAndArchive
                }
            },
            SupervisorEvent::Frame { outcome, now_wall } => match outcome {
                Ok(sequence) => {
                    self.record_primary_ledger(sequence, now_wall);
                    self.phase = Phase::Idle;
                    SupervisorAction::Deliver { source: IngestionSource::CaptiveCore }
                },
                Err(reason) => {
                    self.record_primary_failure(reason);
                    self.phase = Phase::AwaitArchive;
                    SupervisorAction::StopAndArchive
                },
            },
            SupervisorEvent::Archived { outcome, now } => match outcome {
                Ok(path) => {
                    self.record_archive(path);
                    self.restart_or_fall_back_step(now)
                },
                Err(reason) => {
                    self.phase = Phase::Idle;
                    SupervisorAction::Fail { reason }
                },
            },
            SupervisorEvent::Started { outcome, now } => {
                let restarting = self.phase == Phase::AwaitRestart;
                match outcome {
                    Ok(()) => {
                        self.active_source = IngestionSource::CaptiveCore;
                        self.fallback_reason = None;
                        self.phase = Phase::AwaitRunning;
                        SupervisorAction::CheckPrimaryRunning
                    },
                    Err(reason) => {
                        if restarting {
                            self.fallback_reason = Some(reason);
                            self.restart_or_fall_back_step(now)
                        } else {
                            self.fallback_reason = Some(reason);
                            self.defer_primary(now);
                            self.phase = Phase::AwaitRemote;
                            SupervisorAction::FetchRemote { start_ledger: self.next_start_ledger() }
                        }
                    },
                }
            },
            SupervisorEvent::RemoteLedger { outcome, now_wall } => match outcome {
                Ok(sequence) => {
                    self.record_remote_ledger(sequence, now_wall);
                    self.phase = Phase::Idle;
                    SupervisorAction::Deliver { source: IngestionSource::Remote }
                },
                Err(reason) => {
                    self.phase = Phase::Idle;
                    SupervisorAction::Fail { reason }
                },
            },
        }
    }
}

/// Restart with backoff: once the primary's state is archived after a
/// failure, while restart attempts are left the supervisor asks for a restart
/// after the backoff of the next attempt, from the ledger after the last one
/// processed.
pub proof fn lemma_restart_after_archive(v: SupervisorView, path: Option<String>, now: u128)
    requires
        v.phase == Phase::AwaitArchive,
        v.consecutive_restart_failures < v.max_restart_attempts,
    ensures
        step_spec(v, SupervisorEvent::Archived { outcome: Ok(path), now }).1 == ActionView::SleepThenStart(
            restart_delay_nanos(v.restart_backoff, (v.consecutive_restart_failures + 1) as u32),
            resume_ledger(v),
        ),
        step_spec(v, SupervisorEvent::Archived { outcome: Ok(path), now }).0.consecutive_restart_failures
            == v.consecutive_restart_failures + 1,
{
}

/// Fallback after the last attempt: when a restart fails and no attempts are
/// left, the supervisor stays on the remote source, puts off the primary by
/// one backoff, and asks for the next ledger remotely (or, with no backoff, to
/// try the primary at once); it never asks for another restart.
pub proof fn lemma_fall_back_after_last_attempt(v: SupervisorView, reason: String, now: u128)
    requires
        v.phase == Phase::AwaitRestart,
        v.consecutive_restart_failures >= v.max_restart_attempts,
    ensures
        ({
            let (w, a) = step_spec(v, SupervisorEvent::Started { outcome: Err(reason), now });
            &&& w.next_primary_retry_at == later_by(now, v.restart_backoff)
            &&& w.active_source == v.active_source
            &&& w.fallback_reason == Some(reason@)
            &&& (a == ActionView::FetchRemote(resume_ledger(v)) || a == ActionView::StartPrimary(resume_ledger(v)))
            &&& v.restart_backoff > 0 && now as int + v.restart_backoff <= u128::MAX ==> a == ActionView::FetchRemote(resume_ledger(v))
        }),
{
}

/// The primary is tried again from the remote source only once its retry time
/// has come; a failed try puts it off by one more backoff.
pub proof fn lemma_retry_primary_when_due(v: SupervisorView, now: u128)
    requires
        v.phase == Phase::Idle,
        v.active_source == IngestionSource::Remote,
    ensures
        now >= v.next_primary_retry_at ==> step_spec(v, SupervisorEvent::NextLedger { now }).1 == ActionView::StartPrimary(resume_ledger(v)),
        now < v.next_primary_retry_at ==> step_spec(v, SupervisorEvent::NextLedger { now }).1 == ActionView::FetchRemote(resume_ledger(v)),
{
}

} // verus!
