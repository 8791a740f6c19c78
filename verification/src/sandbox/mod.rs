//! Sandbox records, limits, the bookkeeping of live sandboxes and the commands
//! that sandboxes run.

pub mod docker;
pub mod limits;
pub mod pty;
pub mod table;

use vstd::prelude::*;

pub use limits::ResourceLimitConfig;
use table::{table_after_insert, table_after_remove, KeyedTable};

verus! {

/// Why a sandbox operation was refused.
#[derive(Debug, Clone, PartialEq, Eq)]
pub enum SandboxError {
    InvalidCpuCores,
    InvalidMemory,
    NotFound(String),
    UnsupportedLanguage(String),
    LocalBoundsExceeded,
}

/// The message of each error.
pub open spec fn sandbox_error_text(e: SandboxError) -> Seq<char> {
    match e {
        SandboxError::InvalidCpuCores => "cpu_cores must be between 1 and 1"@,
        SandboxError::InvalidMemory => "memory_mb must be between 1 and 512"@,
        SandboxError::NotFound(id) => "sandbox not found: "@ + id@,
        SandboxError::UnsupportedLanguage(language) => "unsupported language: "@ + language@,
        SandboxError::LocalBoundsExceeded => "resource limits exceed local backend bounds"@,
    }
}

impl SandboxError {
    /// The error for a sandbox id that no entry has.
    pub fn not_found(sandbox_id: &str) -> (e: Self)
        ensures
            e matches SandboxError::NotFound(id) && id@ == sandbox_id@,
    {
        SandboxError::NotFound(sandbox_id.to_owned())
    }

    /// The error's message.
    pub fn message(&self) -> (s: String)
        ensures
            s@ == sandbox_error_text(*self),
    {
        match self {
            SandboxError::InvalidCpuCores => String::from_str("cpu_cores must be between 1 and 1"),
            SandboxError::InvalidMemory => String::from_str("memory_mb must be between 1 and 512"),
            SandboxError::NotFound(id) => {
                let mut s = String::from_str("sandbox not found: ");
                s.append(id.as_str());
                s
            },
            SandboxError::UnsupportedLanguage(language) => {
                let mut s = String::from_str("unsupported language: ");
                s.append(language.as_str());
                s
            },
            SandboxError::LocalBoundsExceeded => String::from_str(
                "resource limits exceed local backend bounds",
            ),
        }
    }
}

/// What a sandbox is created with: the agent it serves, its limits and the host
/// directory mounted as its workspace.
#[derive(Debug, Clone)]
pub struct SandboxConfig {
    pub agent_id: String,
    pub limits: ResourceLimitConfig,
    pub workspace_dir: String,
}

/// A created sandbox: its id, the path of its session log and its creation time.
#[derive(Debug, Clone)]
pub struct SandboxInfo {
    pub sandbox_id: String,
    pub pty_path: String,
    pub created_at: i64,
}

/// The outcome of running code in a sandbox.
#[derive(Debug, Clone)]
pub struct ExecutionResult {
    pub exit_code: i32,
    pub stdout: String,
    pub stderr: String,
    pub duration_ms: i64,
}

/// Whether a sandbox is alive, and when it was last seen so.
#[derive(Debug, Clone)]
pub struct SandboxStatus {
    pub alive: bool,
    pub last_seen: i64,
}

/// What the manager remembers of a live sandbox.
#[derive(Debug, Clone)]
pub struct SandboxRecord {
    pub info: SandboxInfo,
    pub agent_id: String,
    pub last_seen: i64,
}

/// A record with its last-seen time replaced.
pub open spec fn seen_at(record: SandboxRecord, when: i64) -> SandboxRecord {
    SandboxRecord { last_seen: when, ..record }
}

/// The registry after a sandbox is created, seen at `now`; a record with the same id is
/// replaced.
pub open spec fn registry_after_created(
    before: Map<Seq<char>, SandboxRecord>,
    info: SandboxInfo,
    agent_id: String,
    now: i64,
) -> Map<Seq<char>, SandboxRecord> {
    table_after_insert(before, info.sandbox_id@, SandboxRecord { info, agent_id, last_seen: now })
}

/// The registry after code ran in a sandbox at `when`: its record is seen then; an
/// unknown id changes nothing.
pub open spec fn registry_after_activity(
    before: Map<Seq<char>, SandboxRecord>,
    sandbox_id: Seq<char>,
    when: i64,
) -> Map<Seq<char>, SandboxRecord> {
    if before.contains_key(sandbox_id) {
        table_after_insert(before, sandbox_id, seen_at(before[sandbox_id], when))
    } else {
        before
    }
}

/// The registry after a heartbeat: a live sandbox is seen at the heartbeat's time; a
/// dead one changes nothing.
pub open spec fn registry_after_heartbeat(
    before: Map<Seq<char>, SandboxRecord>,
    sandbox_id: Seq<char>,
    status: SandboxStatus,
) -> Map<Seq<char>, SandboxRecord> {
    if status.alive {
        registry_after_activity(before, sandbox_id, status.last_seen)
    } else {
        before
    }
}

/// The registry after a sandbox is terminated: its record is gone.
pub open spec fn registry_after_terminated(
    before: Map<Seq<char>, SandboxRecord>,
    sandbox_id: Seq<char>,
) -> Map<Seq<char>, SandboxRecord> {
    table_after_remove(before, sandbox_id)
}

/// The records of the sandboxes a manager has created and not yet terminated,
/// keyed by sandbox id.
pub struct SandboxRegistry {
    records: KeyedTable<SandboxRecord>,
}

impl View for SandboxRegistry {
    type V = Map<Seq<char>, SandboxRecord>;

    closed spec fn view(&self) -> Map<Seq<char>, SandboxRecord> {
        self.records@
    }
}

impl SandboxRegistry {
    /// A registry with no sandboxes.
    pub fn new() -> (r: Self)
        ensures
            r@ == Map::<Seq<char>, SandboxRecord>::empty(),
    {
        SandboxRegistry { records: KeyedTable::new() }
    }

    /// The number of registered sandboxes.
    pub fn len(&self) -> (n: usize)
        ensures
            n == self@.len(),
    {
        self.records.len()
    }

    /// The record of a sandbox, if it is registered.
    pub fn get(&self, sandbox_id: &str) -> (r: Option<&SandboxRecord>)
        ensures
            r is Some == self@.contains_key(sandbox_id@),
            r matches Some(rec) ==> *rec == self@[sandbox_id@],
    {
        self.records.get(sandbox_id)
    }

    /// Registers a sandbox that the backend has just created, seen at `now`; a record
    /// with the same id is replaced.
    pub fn record_created(&mut self, info: SandboxInfo, agent_id: String, now: i64)
        ensures
            final(self)@ == registry_after_created(old(self)@, info, agent_id, now),
    {
        let key = info.sandbox_id.clone();
        self.records.insert(key, SandboxRecord { info, agent_id, last_seen: now });
    }

    /// Notes that code ran in a sandbox at `now`; unknown ids are ignored.
    pub fn record_activity(&mut self, sandbox_id: &str, now: i64)
        ensures
            final(self)@ == registry_after_activity(old(self)@, sandbox_id@, now),
    {
        match self.records.remove(sandbox_id) {
            Some(record) => {
                let updated = SandboxRecord { last_seen: now, ..record };
                self.records.insert(sandbox_id.to_owned(), updated);
                assert(self@ =~= old(self)@.insert(sandbox_id@, seen_at(old(self)@[sandbox_id@], now)));
            },
            None => {
                assert(self@ =~= old(self)@);
            },
        }
    }

    /// Forgets a terminated sandbox.
    pub fn record_terminated(&mut self, sandbox_id: &str)
        ensures
            final(self)@ == registry_after_terminated(old(self)@, sandbox_id@),
    {
        let _ = self.records.remove(sandbox_id);
    }

    /// Takes in a heartbeat: a live sandbox is seen at the heartbeat's time; a dead
    /// one, or an unknown id, leaves the registry as it is.
    pub fn record_heartbeat(&mut self, sandbox_id: &str, status: &SandboxStatus)
        ensures
            final(self)@ == registry_after_heartbeat(old(self)@, sandbox_id@, *status),
    {
        if status.alive {
            self.record_activity(sandbox_id, status.last_seen);
        }
    }
}

/// `record_created` then `record_terminated` on the same id: the sandbox is found under
/// its id with the agent and creation time it was created with until it is terminated;
/// termination removes it and leaves every other record as it was before creation.
pub proof fn lemma_registry_lifecycle(
    before: Map<Seq<char>, SandboxRecord>,
    info: SandboxInfo,
    agent_id: String,
    now: i64,
    other: Seq<char>,
)
    requires
        other != info.sandbox_id@,
    ensures
        ({
            let created = registry_after_created(before, info, agent_id, now);
            let terminated = registry_after_terminated(created, info.sandbox_id@);
            &&& created.contains_key(info.sandbox_id@)
            &&& created[info.sandbox_id@].agent_id == agent_id
            &&& created[info.sandbox_id@].info == info
            &&& created[info.sandbox_id@].last_seen == now
            &&& !terminated.contains_key(info.sandbox_id@)
            &&& terminated.contains_key(other) == before.contains_key(other)
            &&& before.contains_key(other) ==> terminated[other] == before[other]
        }),
{
}

/// `record_terminated` undoes `record_created` on a fresh id: the registry is back as it
/// was.
pub proof fn lemma_terminate_undoes_create(
    before: Map<Seq<char>, SandboxRecord>,
    info: SandboxInfo,
    agent_id: String,
    now: i64,
)
    requires
        !before.contains_key(info.sandbox_id@),
    ensures
        registry_after_terminated(registry_after_created(before, info, agent_id, now), info.sandbox_id@)
            == before,
{
    assert(registry_after_terminated(registry_after_created(before, info, agent_id, now), info.sandbox_id@)
        =~= before);
}

/// `record_activity` and `record_heartbeat` change only last-seen times: the same
/// sandboxes stay registered, each with its info and agent; the sandbox named is seen at
/// the given time when it is registered (and, for a heartbeat, alive).
pub proof fn lemma_activity_keeps_identity(
    before: Map<Seq<char>, SandboxRecord>,
    sandbox_id: Seq<char>,
    when: i64,
    status: SandboxStatus,
)
    ensures
        ({
            let after = registry_after_activity(before, sandbox_id, when);
            let beat = registry_after_heartbeat(before, sandbox_id, status);
            &&& after.dom() == before.dom()
            &&& beat.dom() == before.dom()
            &&& forall|k: Seq<char>| #[trigger] before.contains_key(k) ==> {
                &&& after[k].info == before[k].info
                &&& after[k].agent_id == before[k].agent_id
                &&& beat[k].info == before[k].info
                &&& beat[k].agent_id == before[k].agent_id
            }
            &&& before.contains_key(sandbox_id) ==> after[sandbox_id].last_seen == when
            &&& before.contains_key(sandbox_id) && status.alive ==> beat[sandbox_id].last_seen
                == status.last_seen
        }),
{
    let after = registry_after_activity(before, sandbox_id, when);
    let beat = registry_after_heartbeat(before, sandbox_id, status);
    assert(after.dom() =~= before.dom());
    assert(beat.dom() =~= before.dom());
}

/// `std::time::SystemTime`, opaque: only passed from the clock to `since_unix_epoch`.
#[verifier::external_type_specification]
#[verifier::external_body]
pub struct ExSystemTime(std::time::SystemTime);

/// Calls `std::time::SystemTime::now`. Nothing is stated of the time read.
#[verifier::external_body]
fn system_time_now() -> std::time::SystemTime {
    std::time::SystemTime::now()
}

/// `std::time::SystemTimeError`, opaque: only passed to `before_epoch_by`.
#[verifier::external_type_specification]
#[verifier::external_body]
pub struct ExSystemTimeError(std::time::SystemTimeError);

/// Calls `SystemTime::duration_since` with the Unix epoch: the time elapsed since the
/// epoch, or an error when the time lies before it. Nothing is stated of either.
#[verifier::external_body]
fn since_unix_epoch(t: &std::time::SystemTime) -> Result<std::time::Duration, std::time::SystemTimeError> {
    t.duration_since(std::time::UNIX_EPOCH)
}

/// Calls `SystemTimeError::duration`: how far before the epoch the time lay. Nothing is
/// stated of it.
#[verifier::external_body]
fn before_epoch_by(e: &std::time::SystemTimeError) -> std::time::Duration {
    e.duration()
}

/// Calls `Duration::as_secs`. Nothing is stated of the count, as the duration is opaque here.
#[verifier::external_body]
fn whole_seconds(d: &std::time::Duration) -> u64 {
    d.as_secs()
}

/// The Unix time in whole seconds for a clock reading: `Ok(s)` when the clock lay `s`
/// whole seconds after the epoch (the count cast to `i64`, as the clock's own seconds
/// are), `Err(b)` when it lay `b` whole seconds before it (then `-b`, never below
/// `i64::MIN`).
pub open spec fn epoch_seconds(read: Result<u64, u64>) -> i64 {
    match read {
        Ok(s) => s as i64,
        Err(b) => if b > i64::MAX {
            i64::MIN
        } else {
            (0 - b) as i64
        },
    }
}

/// The Unix time in whole seconds for a clock reading (see `epoch_seconds`).
pub fn seconds_since_epoch(read: Result<u64, u64>) -> (t: i64)
    ensures
        t == epoch_seconds(read),
{
    match read {
        Ok(s) => s as i64,
        Err(b) => {
            if b > 9223372036854775807u64 {
                i64::MIN
            } else {
                0 - (b as i64)
            }
        },
    }
}

/// Reads the system clock as whole seconds after the epoch (`Ok`) or before it (`Err`).
/// What it reads is the clock's and is not stated.
fn read_system_clock() -> Result<u64, u64> {
    let now = system_time_now();
    match since_unix_epoch(&now) {
        Ok(elapsed) => Ok(whole_seconds(&elapsed)),
        Err(e) => Err(whole_seconds(&before_epoch_by(&e))),
    }
}

/// The current Unix time in whole seconds by the system clock: `epoch_seconds` of what
/// the clock read, so never negative for a clock after the epoch (up to `i64::MAX`
/// seconds), and negative for a clock before it.
pub fn unix_now() -> (t: i64)
    ensures
        exists|read: Result<u64, u64>| t == #[trigger] epoch_seconds(read),
{
    let read = read_system_clock();
    seconds_since_epoch(read)
}

} // verus!
