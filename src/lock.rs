//! The single-instance lock: what the lock file records about its holder, how
//! a recorded holder is judged alive, and the decisions of the shutdown
//! request and of the acquire-or-takeover protocol. The file locking, reads,
//! writes and signals themselves are performed by the caller, which reports
//! each outcome back here.

use vstd::prelude::*;

use crate::layout::{join, join_path, BUILD_DIR};
use crate::stat::{parse_start_time_ticks_from_stat, start_time_of_record, StatError};
use crate::text::{is_whitespace, is_whitespace_char};

verus! {

/// File name of the lock file inside the build directory.
pub const LOCK_FILE_NAME: &'static str = "instance.lock";

/// What the current holder writes into the lock file right after acquiring it.
#[derive(Debug, Clone, Copy, PartialEq, Eq, Structural)]
pub struct LockMetadata {
    pub process_id: u32,
    /// The unit of cancellation: the whole group is signalled on takeover.
    pub process_group_id: u32,
    /// Start-time token of `process_id` when the lock was taken; compared
    /// for equality only.
    pub process_start_time_ticks: u64,
}

pub open spec fn lock_file_path_spec(base_dir: Seq<char>) -> Seq<char> {
    join_path(join_path(base_dir, BUILD_DIR@), LOCK_FILE_NAME@)
}

/// `<base_dir>/.flatplay/instance.lock`
pub fn lock_file_path(base_dir: &str) -> (r: String)
    ensures
        r@ == lock_file_path_spec(base_dir@),
{
    let dir = join(base_dir, BUILD_DIR);
    join(dir.as_str(), LOCK_FILE_NAME)
}

/// Text made of whitespace only (the empty text included).
pub open spec fn is_blank(s: Seq<char>) -> bool {
    forall|i: int| 0 <= i < s.len() ==> is_whitespace(#[trigger] s[i])
}

pub fn is_blank_text(s: &str) -> (r: bool)
    ensures
        r == is_blank(s@),
{
    let n = s.unicode_len();
    let mut i: usize = 0;
    while i < n
        invariant
            i <= n,
            n == s@.len(),
            forall|k: int| 0 <= k < i ==> is_whitespace(#[trigger] s@[k]),
        decreases n - i,
    {
        if !is_whitespace_char(s.get_char(i)) {
            return false;
        }
        i = i + 1;
    }
    true
}

/// The holder that a lock file records. `content` is the file's text (`None`
/// when there is no file) and `decoded` the metadata decoded from it (`None`
/// when it does not decode). An absent, blank or undecodable body records no
/// holder.
pub open spec fn recorded_holder_spec(
    content: Option<Seq<char>>,
    decoded: Option<LockMetadata>,
) -> Option<LockMetadata> {
    match content {
        None => None,
        Some(c) => if is_blank(c) {
            None
        } else {
            decoded
        },
    }
}

pub fn read_metadata(content: Option<&str>, decoded: Option<LockMetadata>) -> (r: Option<
    LockMetadata,
>)
    ensures
        r == recorded_holder_spec(
            match content {
                Some(c) => Some(c@),
                None => None,
            },
            decoded,
        ),
{
    match content {
        None => None,
        Some(c) => if is_blank_text(c) {
            None
        } else {
            decoded
        },
    }
}

/// The recorded holder is still the process that wrote the record: the
/// status record now found under its process id (`None` when there is none)
/// carries the same start-time token.
pub open spec fn is_same_instance(recorded: LockMetadata, current_stat: Option<Seq<char>>) -> bool {
    match current_stat {
        None => false,
        Some(s) => start_time_of_record(s) == Ok::<u64, StatError>(
            recorded.process_start_time_ticks,
        ),
    }
}

pub fn is_same_process_instance_running(metadata: &LockMetadata, current_stat: Option<&str>) -> (r:
    bool)
    ensures
        r == is_same_instance(
            *metadata,
            match current_stat {
                Some(s) => Some(s@),
                None => None,
            },
        ),
{
    match current_stat {
        None => false,
        Some(s) => match parse_start_time_ticks_from_stat(s) {
            Ok(t) => t == metadata.process_start_time_ticks,
            Err(_) => false,
        },
    }
}

/// The metadata that a process writes on acquiring the lock, from its own
/// status record.
pub open spec fn metadata_for(process_id: u32, process_group_id: u32, own_stat: Seq<char>) -> Result<
    LockMetadata,
    StatError,
> {
    match start_time_of_record(own_stat) {
        Ok(t) => Ok(
            LockMetadata {
                process_id,
                process_group_id,
                process_start_time_ticks: t,
            },
        ),
        Err(e) => Err(e),
    }
}

pub fn current_metadata(process_id: u32, process_group_id: u32, own_stat: &str) -> (r: Result<
    LockMetadata,
    StatError,
>)
    ensures
        r == metadata_for(process_id, process_group_id, own_stat@),
        r matches Ok(m) ==> m.process_id == process_id,
{
    match parse_start_time_ticks_from_stat(own_stat) {
        Ok(t) => Ok(LockMetadata { process_id, process_group_id, process_start_time_ticks: t }),
        Err(e) => Err(e),
    }
}

/// What the shutdown request does once the lock file has been read.
#[derive(Debug, Clone, Copy, PartialEq, Eq, Structural)]
pub enum ShutdownPlan {
    /// No holder is recorded: nothing to do.
    NothingRunning,
    /// The recorded holder is gone or its id was reused: clear the metadata,
    /// signal nobody.
    ClearStale,
    /// The recorded holder is alive: terminate this process group.
    SignalGroup(u32),
}

pub open spec fn shutdown_plan_spec(
    holder: Option<LockMetadata>,
    current_stat: Option<Seq<char>>,
) -> ShutdownPlan {
    match holder {
        None => ShutdownPlan::NothingRunning,
        Some(m) => if is_same_instance(m, current_stat) {
            ShutdownPlan::SignalGroup(m.process_group_id)
        } else {
            ShutdownPlan::ClearStale
        },
    }
}

/// Decides the shutdown request from the recorded holder and the status
/// record currently found under its process id.
pub fn plan_shutdown(holder: Option<LockMetadata>, current_stat: Option<&str>) -> (r: ShutdownPlan)
    ensures
        r == shutdown_plan_spec(
            holder,
            match current_stat {
                Some(s) => Some(s@),
                None => None,
            },
        ),
{
    match holder {
        None => ShutdownPlan::NothingRunning,
        Some(m) => if is_same_process_instance_running(&m, current_stat) {
            ShutdownPlan::SignalGroup(m.process_group_id)
        } else {
            ShutdownPlan::ClearStale
        },
    }
}

/// How sending the termination signal to a process group went.
#[derive(Debug, Clone, Copy, PartialEq, Eq, Structural)]
pub enum SignalOutcome {
    Delivered,
    /// The group no longer exists: it exited after the liveness check.
    NoSuchProcess,
    /// Any other failure, with its error number.
    Failed(i32),
}

/// How a shutdown request ended when it succeeded.
#[derive(Debug, Clone, Copy, PartialEq, Eq, Structural)]
pub enum ShutdownOutcome {
    NothingRunning,
    /// The metadata was stale and has to be cleared; nobody was signalled.
    StaleCleared,
    /// The holder's process group was signalled.
    Stopped(u32),
}

/// Errors of the lock protocol.
#[derive(Debug, Clone, Copy, PartialEq, Eq, Structural)]
pub enum LockError {
    /// The lock stayed held for the whole takeover deadline.
    Timeout { wait_ms: u64 },
    /// Locking failed for another reason than contention (error number).
    LockFailed(i32),
    /// The holder's process group could not be signalled (error number).
    SignalFailed(i32),
}

pub open spec fn shutdown_result_spec(plan: ShutdownPlan, signal: Option<SignalOutcome>) -> Result<
    ShutdownOutcome,
    LockError,
> {
    match plan {
        ShutdownPlan::NothingRunning => Ok(ShutdownOutcome::NothingRunning),
        ShutdownPlan::ClearStale => Ok(ShutdownOutcome::StaleCleared),
        ShutdownPlan::SignalGroup(g) => match signal->Some_0 {
            SignalOutcome::Delivered => Ok(ShutdownOutcome::Stopped(g)),
            SignalOutcome::NoSuchProcess => Ok(ShutdownOutcome::StaleCleared),
            SignalOutcome::Failed(e) => Err(LockError::SignalFailed(e)),
        },
    }
}

/// Concludes a shutdown request. `signal` is what sending the termination
/// signal gave, present exactly when the plan was to signal a group.
pub fn request_shutdown_from_lock(plan: ShutdownPlan, signal: Option<SignalOutcome>) -> (r: Result<
    ShutdownOutcome,
    LockError,
>)
    requires
        (plan is SignalGroup) == (signal is Some),
    ensures
        r == shutdown_result_spec(plan, signal),
{
    match plan {
        ShutdownPlan::NothingRunning => Ok(ShutdownOutcome::NothingRunning),
        ShutdownPlan::ClearStale => Ok(ShutdownOutcome::StaleCleared),
        ShutdownPlan::SignalGroup(g) => match signal {
            Some(SignalOutcome::Delivered) => Ok(ShutdownOutcome::Stopped(g)),
            Some(SignalOutcome::NoSuchProcess) => Ok(ShutdownOutcome::StaleCleared),
            Some(SignalOutcome::Failed(e)) => Err(LockError::SignalFailed(e)),
            // Ruled out by the precondition.
            None => Ok(ShutdownOutcome::Stopped(g)),
        },
    }
}

/// Timing of the takeover poll loop.
#[derive(Debug, Clone, Copy, PartialEq, Eq, Structural)]
pub struct TakeoverConfig {
    /// How long to keep polling for the lock after requesting a shutdown.
    pub wait_ms: u64,
    /// Pause between two lock attempts.
    pub poll_ms: u64,
}

/// Default deadline of the takeover poll loop, in milliseconds.
pub const TAKEOVER_WAIT_MS: u64 = 5000;

/// Default pause between two lock attempts, in milliseconds.
pub const TAKEOVER_POLL_MS: u64 = 100;

impl TakeoverConfig {
    pub fn standard() -> (r: Self)
        ensures
            r.wait_ms == TAKEOVER_WAIT_MS,
            r.poll_ms == TAKEOVER_POLL_MS,
    {
        TakeoverConfig { wait_ms: TAKEOVER_WAIT_MS, poll_ms: TAKEOVER_POLL_MS }
    }
}

/// Result of one non-blocking attempt at the exclusive lock.
#[derive(Debug, Clone, Copy, PartialEq, Eq, Structural)]
pub enum LockAttempt {
    Acquired,
    /// Another process holds the lock.
    WouldBlock,
    /// Any other failure, with its error number.
    Failed(i32),
}

/// Where the acquire-or-takeover protocol stands.
#[derive(Debug, Clone, Copy, PartialEq, Eq, Structural)]
pub enum TakeoverPhase {
    /// No attempt made yet.
    Initial,
    /// A shutdown was requested; attempts are repeated until the deadline.
    Polling,
    /// The protocol has ended, with the lock or with an error.
    Finished,
}

/// What the caller does next.
#[derive(Debug, Clone, Copy, PartialEq, Eq, Structural)]
pub enum TakeoverStep {
    /// The lock is held: write this process's metadata into it.
    WriteMetadata,
    /// The lock is held elsewhere: send the shutdown request, start the
    /// deadline clock, then attempt again.
    RequestShutdown,
    /// Sleep this many milliseconds, then attempt again.
    Sleep(u64),
    /// Give up with this error.
    Fail(LockError),
}

/// The acquire-or-takeover protocol as a state machine: it is fed the outcome
/// of each lock attempt together with the milliseconds elapsed since the
/// shutdown request, and answers with the next step.
pub struct Takeover {
    pub config: TakeoverConfig,
    pub phase: TakeoverPhase,
}

pub open spec fn takeover_spec(
    config: TakeoverConfig,
    phase: TakeoverPhase,
    attempt: LockAttempt,
    elapsed_ms: u64,
) -> (TakeoverPhase, TakeoverStep) {
    match phase {
        TakeoverPhase::Initial => match attempt {
            LockAttempt::Acquired => (TakeoverPhase::Finished, TakeoverStep::WriteMetadata),
            LockAttempt::WouldBlock => (TakeoverPhase::Polling, TakeoverStep::RequestShutdown),
            LockAttempt::Failed(e) => (
                TakeoverPhase::Finished,
                TakeoverStep::Fail(LockError::LockFailed(e)),
            ),
        },
        TakeoverPhase::Polling => match attempt {
            LockAttempt::Acquired => (TakeoverPhase::Finished, TakeoverStep::WriteMetadata),
            LockAttempt::WouldBlock => if elapsed_ms >= config.wait_ms {
                (
                    TakeoverPhase::Finished,
                    TakeoverStep::Fail(LockError::Timeout { wait_ms: config.wait_ms }),
                )
            } else {
                (TakeoverPhase::Polling, TakeoverStep::Sleep(config.poll_ms))
            },
            LockAttempt::Failed(e) => (
                TakeoverPhase::Finished,
                TakeoverStep::Fail(LockError::LockFailed(e)),
            ),
        },
        TakeoverPhase::Finished => (
            TakeoverPhase::Finished,
            TakeoverStep::Fail(LockError::LockFailed(attempt_errno(attempt))),
        ),
    }
}

/// The error number that an attempt reports (0 when it reports none).
pub open spec fn attempt_errno(attempt: LockAttempt) -> i32 {
    match attempt {
        LockAttempt::Failed(e) => e,
        _ => 0,
    }
}

/// The takeover never waits past its deadline and never gives up on a lock
/// that has come free: while polling, a free lock is always taken, a held one
/// before the deadline leads to one more pause of the poll interval, and at
/// the deadline the protocol ends with the timeout error.
pub proof fn lemma_takeover_bounded(config: TakeoverConfig, phase: TakeoverPhase, elapsed_ms: u64)
    requires
        phase != TakeoverPhase::Finished,
    ensures
        takeover_spec(config, phase, LockAttempt::Acquired, elapsed_ms) == (
            TakeoverPhase::Finished,
            TakeoverStep::WriteMetadata,
        ),
        phase == TakeoverPhase::Polling && elapsed_ms < config.wait_ms ==> takeover_spec(
            config,
            phase,
            LockAttempt::WouldBlock,
            elapsed_ms,
        ) == (TakeoverPhase::Polling, TakeoverStep::Sleep(config.poll_ms)),
        phase == TakeoverPhase::Polling && elapsed_ms >= config.wait_ms ==> takeover_spec(
            config,
            phase,
            LockAttempt::WouldBlock,
            elapsed_ms,
        ) == (
            TakeoverPhase::Finished,
            TakeoverStep::Fail(LockError::Timeout { wait_ms: config.wait_ms }),
        ),
{
}

impl Takeover {
    pub fn new(config: TakeoverConfig) -> (r: Self)
        ensures
            r.config == config,
            r.phase == TakeoverPhase::Initial,
    {
        Takeover { config, phase: TakeoverPhase::Initial }
    }

    /// Advances the protocol by one lock attempt. A finished protocol takes
    /// no further attempts: it answers with a failure.
    pub fn step(&mut self, attempt: LockAttempt, elapsed_ms: u64) -> (r: TakeoverStep)
        ensures
            final(self).config == old(self).config,
            (final(self).phase, r) == takeover_spec(
                old(self).config,
                old(self).phase,
                attempt,
                elapsed_ms,
            ),
    {
        let (phase, step) = match self.phase {
            TakeoverPhase::Initial => match attempt {
                LockAttempt::Acquired => (TakeoverPhase::Finished, TakeoverStep::WriteMetadata),
                LockAttempt::WouldBlock => (TakeoverPhase::Polling, TakeoverStep::RequestShutdown),
                LockAttempt::Failed(e) => (
                    TakeoverPhase::Finished,
                    TakeoverStep::Fail(LockError::LockFailed(e)),
                ),
            },
            TakeoverPhase::Polling => match attempt {
                LockAttempt::Acquired => (TakeoverPhase::Finished, TakeoverStep::WriteMetadata),
                LockAttempt::WouldBlock => if elapsed_ms >= self.config.wait_ms {
                    (
                        TakeoverPhase::Finished,
                        TakeoverStep::Fail(LockError::Timeout { wait_ms: self.config.wait_ms }),
                    )
                } else {
                    (TakeoverPhase::Polling, TakeoverStep::Sleep(self.config.poll_ms))
                },
                LockAttempt::Failed(e) => (
                    TakeoverPhase::Finished,
                    TakeoverStep::Fail(LockError::LockFailed(e)),
                ),
            },
            TakeoverPhase::Finished => {
                let e = match attempt {
                    LockAttempt::Failed(e) => e,
                    _ => 0,
                };
                (TakeoverPhase::Finished, TakeoverStep::Fail(LockError::LockFailed(e)))
            },
        };
        self.phase = phase;
        step
    }
}

/// Liveness validation is by start-time token: when the status record found
/// under a process id carries another token than the record the metadata was
/// taken from, the recorded holder is not the same instance.
pub proof fn lemma_changed_start_time_is_not_same_instance(
    process_id: u32,
    process_group_id: u32,
    first_stat: Seq<char>,
    second_stat: Seq<char>,
)
    requires
        metadata_for(process_id, process_group_id, first_stat) is Ok,
        start_time_of_record(second_stat) != start_time_of_record(first_stat),
    ensures
        !is_same_instance(
            metadata_for(process_id, process_group_id, first_stat)->Ok_0,
            Some(second_stat),
        ),
{
}

/// A shutdown request against a project with no lock file, or with an empty
/// one, finds nothing running, signals no process and succeeds.
pub proof fn lemma_empty_lock_file_signals_nobody(
    content: Option<Seq<char>>,
    decoded: Option<LockMetadata>,
    current_stat: Option<Seq<char>>,
    signal: Option<SignalOutcome>,
)
    requires
        content is None || content->Some_0.len() == 0,
    ensures
        shutdown_plan_spec(recorded_holder_spec(content, decoded), current_stat)
            == ShutdownPlan::NothingRunning,
        shutdown_result_spec(
            shutdown_plan_spec(recorded_holder_spec(content, decoded), current_stat),
            signal,
        ) == Ok::<ShutdownOutcome, LockError>(ShutdownOutcome::NothingRunning),
{
}

/// Two acquisitions by the same process id whose status records carry
/// different start-time tokens (the id was reused after a crash): the second
/// writes different metadata, and finding the first one's metadata it judges
/// it stale, clearing it without signalling anybody.
pub proof fn lemma_reused_process_id_is_not_continuation(
    process_id: u32,
    first_group: u32,
    second_group: u32,
    first_stat: Seq<char>,
    second_stat: Seq<char>,
)
    requires
        metadata_for(process_id, first_group, first_stat) is Ok,
        metadata_for(process_id, second_group, second_stat) is Ok,
        start_time_of_record(first_stat) != start_time_of_record(second_stat),
    ensures
        metadata_for(process_id, second_group, second_stat) != metadata_for(
            process_id,
            first_group,
            first_stat,
        ),
        shutdown_plan_spec(
            Some(metadata_for(process_id, first_group, first_stat)->Ok_0),
            Some(second_stat),
        ) == ShutdownPlan::ClearStale,
{
}

} // verus!
