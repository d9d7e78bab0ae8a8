//! The application's shared vocabulary: roles, modes, screen sides, the event
//! log and the machine's name.
//!
//! The event log is a ring buffer: each entry is stamped with the local wall
//! clock time and, past `MAX_LOG_ENTRIES` entries, the oldest entry leaves.
use std::collections::VecDeque;
use vstd::prelude::*;

verus! {

/// The TCP port a server listens on, and that a client dials when the address
/// it is given names no port.
pub const DEFAULT_PORT: u16 = 24800;

/// The number of entries the event log keeps.
pub const MAX_LOG_ENTRIES: usize = 500;

#[derive(Debug, Clone, Copy, PartialEq, Eq, Structural)]
pub enum Role {
    Server,
    Client,
}

#[derive(Debug, Clone, Copy, PartialEq, Eq, Structural)]
pub enum InputMode {
    Local,
    Remote,
}

#[derive(Debug, Clone, Copy, PartialEq, Eq, Structural)]
pub enum Side {
    Left,
    Right,
    Top,
    Bottom,
}

#[derive(Debug, Clone)]
pub struct LogEntry {
    pub timestamp: String,
    pub message: String,
    pub level: LogLevel,
}

#[derive(Debug, Clone, Copy, PartialEq, Eq, Structural)]
pub enum LogLevel {
    Info,
    Success,
    Warning,
    Mode,
}

pub enum NetworkCommand {
    StartServer { port: u16 },
    ConnectTo { addr: String },
    Disconnect,
}

#[derive(Debug, Clone, Copy, PartialEq, Eq, Structural)]
pub enum Tab {
    ScreenLayout,
    Connections,
    Settings,
}

// ── Event log ────────────────────────────────────────────────────────

/// The log after appending `entry`: when that makes it longer than
/// `MAX_LOG_ENTRIES`, the oldest entry leaves.
pub open spec fn spec_log_push(log: Seq<LogEntry>, entry: LogEntry) -> Seq<LogEntry> {
    let pushed = log.push(entry);
    if pushed.len() > MAX_LOG_ENTRIES {
        pushed.drop_first()
    } else {
        pushed
    }
}

/// The log after appending each of `entries` in turn.
pub open spec fn spec_log_push_all(log: Seq<LogEntry>, entries: Seq<LogEntry>) -> Seq<
    LogEntry,
>
    decreases entries.len(),
{
    if entries.len() == 0 {
        log
    } else {
        spec_log_push_all(spec_log_push(log, entries[0]), entries.drop_first())
    }
}

/// The last `n` elements of `s`, or all of them when there are fewer.
pub open spec fn last_n<A>(s: Seq<A>, n: nat) -> Seq<A> {
    if s.len() > n {
        s.skip(s.len() - n)
    } else {
        s
    }
}

/// A wall clock reading as `%H:%M:%S` writes it: two digits, a colon, two
/// digits, a colon, two digits.
pub open spec fn is_clock_time(s: Seq<char>) -> bool {
    &&& s.len() == 8
    &&& s[2] == ':'
    &&& s[5] == ':'
    &&& forall|i: int| 0 <= i < 8 && i != 2 && i != 5 ==> '0' <= #[trigger] s[i] <= '9'
}

/// Append `entry` to the event log; past `MAX_LOG_ENTRIES` entries the oldest leaves.
pub fn push_log_entry(log: &mut VecDeque<LogEntry>, entry: LogEntry)
    ensures
        final(log)@ == spec_log_push(old(log)@, entry),
{
    log.push_back(entry);
    if log.len() > MAX_LOG_ENTRIES {
        let _ = log.pop_front();
    }
}

/// Log `message` at `level`, stamped with the current local time.
pub fn log_event(log: &mut VecDeque<LogEntry>, message: String, level: LogLevel)
    ensures
        exists|timestamp: String|
            #![trigger is_clock_time(timestamp@)]
            is_clock_time(timestamp@) && final(log)@ == spec_log_push(
                old(log)@,
                (LogEntry { timestamp, message, level }),
            ),
{
    let timestamp = local_clock_time();
    let ghost ts = timestamp;
    push_log_entry(log, LogEntry { timestamp, message, level });
    assert(is_clock_time(ts@));
}

/// The current local wall clock time, from chrono's `Local::now()` formatted
/// with `"%H:%M:%S"`. chrono documents `%H`, `%M` and `%S` as zero-padded
/// two-digit numbers, so the contract states the `HH:MM:SS` shape; which time
/// it reads is left unsaid, as it is the machine's clock.
#[verifier::external_body]
fn local_clock_time() -> (s: String)
    ensures
        is_clock_time(s@),
{
    chrono::Local::now().format("%H:%M:%S").to_string()
}

/// A log that holds at most `MAX_LOG_ENTRIES` entries still does after an entry
/// is logged, and its newest entry is the one just logged.
pub proof fn lemma_log_push_bounded(log: Seq<LogEntry>, entry: LogEntry)
    requires
        log.len() <= MAX_LOG_ENTRIES,
    ensures
        spec_log_push(log, entry).len() <= MAX_LOG_ENTRIES,
        spec_log_push(log, entry).last() == entry,
        spec_log_push(log, entry) == last_n(log.push(entry), MAX_LOG_ENTRIES as nat),
{
    let pushed = log.push(entry);
    if pushed.len() > MAX_LOG_ENTRIES {
        assert(pushed.drop_first() =~= pushed.skip(pushed.len() - MAX_LOG_ENTRIES));
    }
}

proof fn lemma_last_n_absorbs<A>(s: Seq<A>, t: Seq<A>, n: nat)
    ensures
        last_n(last_n(s, n) + t, n) == last_n(s + t, n),
{
    if s.len() > n {
        let k = (s.len() - n) as int;
        let kept = s.skip(k);
        assert(s + t =~= s.subrange(0, k) + (kept + t));
        if (kept + t).len() > n {
            assert((s + t).skip((s + t).len() - n) =~= (kept + t).skip((kept + t).len() - n));
        } else {
            assert(t.len() == 0);
            assert(kept + t =~= kept);
            assert(s + t =~= s);
        }
    }
}

/// Logging entries one after another leaves exactly the newest
/// `MAX_LOG_ENTRIES` of all entries, old and new, in the order they came.
pub proof fn lemma_log_keeps_newest(log: Seq<LogEntry>, entries: Seq<LogEntry>)
    requires
        log.len() <= MAX_LOG_ENTRIES,
    ensures
        spec_log_push_all(log, entries) == last_n(log + entries, MAX_LOG_ENTRIES as nat),
    decreases entries.len(),
{
    if entries.len() == 0 {
        assert(log + entries =~= log);
    } else {
        let e = entries[0];
        let rest = entries.drop_first();
        lemma_log_push_bounded(log, e);
        lemma_log_keeps_newest(spec_log_push(log, e), rest);
        lemma_last_n_absorbs(log.push(e), rest, MAX_LOG_ENTRIES as nat);
        assert(log.push(e) + rest =~= log + entries);
    }
}

// ── Machine name ─────────────────────────────────────────────────────

/// The machine's host name, from the `hostname` crate's `get()`: `None` when
/// the call fails or the name is not valid UTF-8. Which name it is depends on
/// the machine and is left unsaid; what holds of every outcome is that it has
/// no NUL character: on Unix `get()` cuts the `gethostname` buffer at its first
/// NUL byte, and on Windows it takes the null-terminated `GetComputerNameExW`
/// string without its terminator.
#[verifier::external_body]
fn system_hostname() -> (host: Option<String>)
    ensures
        host matches Some(h) ==> !h@.contains('\0'),
{
    match hostname::get() {
        Ok(name) => name.into_string().ok(),
        Err(_) => None,
    }
}

/// The name a machine goes by: its host name, or "Unknown" when it has none.
pub fn machine_name_or_unknown(host: Option<String>) -> (name: String)
    ensures
        match host {
            Some(h) => name@ == h@,
            None => name@ == "Unknown"@,
        },
{
    match host {
        Some(h) => h,
        None => "Unknown".to_owned(),
    }
}

/// This machine's name: its host name, or "Unknown" when the system gives none.
/// Either way it holds no NUL character.
pub fn default_machine_name() -> (name: String)
    ensures
        !name@.contains('\0'),
{
    let host = system_hostname();
    proof {
        reveal_strlit("Unknown");
        assert(!"Unknown"@.contains('\0')) by {
            assert forall|i: int| 0 <= i < "Unknown"@.len() implies "Unknown"@[i] != '\0' by {}
        }
    }
    machine_name_or_unknown(host)
}

} // verus!
