//! The decisions of the daemon's life cycle commands: reading its PID file,
//! telling whether it runs, and stopping it (SIGTERM, up to ten liveness
//! probes 200 ms apart, then SIGKILL).

use vstd::prelude::*;
use crate::text::{
    join2, owned, trim, trimmed_text, parse_i32, i32_parse, signed_decimal_value, parses_as_i32, utf8_lossy, utf8_lossy_text, contains_text,
    occurs_in, decimal_i32, signed_decimal_text,
};

verus! {

/// A signal sent with `kill`.
#[derive(Clone, Copy, Debug, PartialEq, Eq, Structural)]
pub enum Signal {
    /// `-15`: ask the daemon to terminate.
    Term,
    /// `-0`: only ask whether the process exists.
    Probe,
    /// `-9`: kill the daemon.
    Kill,
}

pub open spec fn signal_arg(s: Signal) -> Seq<char> {
    match s {
        Signal::Term => "-15"@,
        Signal::Probe => "-0"@,
        Signal::Kill => "-9"@,
    }
}

/// The arguments of `kill` for a signal and a process.
pub fn kill_args(pid: i32, signal: Signal) -> (r: Vec<String>)
    ensures
        r@.len() == 2,
        r@[0]@ == signal_arg(signal),
        r@[1]@ == signed_decimal_text(pid as int),
{
    let mut v: Vec<String> = Vec::new();
    let a = match signal {
        Signal::Term => "-15",
        Signal::Probe => "-0",
        Signal::Kill => "-9",
    };
    v.push(owned(a));
    v.push(decimal_i32(pid));
    v
}

/// How `kill` ended: whether it succeeded, and what it wrote to stderr.
#[derive(Clone, Debug)]
pub struct KillOutput {
    pub success: bool,
    pub stderr: Vec<u8>,
}

/// What the caller is to do next.
#[derive(Clone, Debug)]
pub enum DaemonAction {
    /// Tell whether the PID file exists.
    CheckPidFile,
    /// Read the PID file.
    ReadPidFile,
    /// Run `kill` with these arguments.
    Send { pid: i32, signal: Signal },
    /// Remove the PID file (whatever the outcome).
    RemovePidFile,
    /// Wait this long.
    Sleep { millis: u64 },
    /// Print this line.
    Print(String),
    /// Nothing more: the outcome is ready.
    Finish,
}

pub open spec fn read_failed_message(e: Seq<char>) -> Seq<char> {
    "Failed to read PID file: "@ + e
}

pub open spec fn invalid_pid_message(e: Seq<char>) -> Seq<char> {
    "Invalid PID in PID file: "@ + e
}

/// The PID held by the text of a PID file, or the error to report.
pub open spec fn pid_of_text(text: Seq<char>) -> Result<i32, Seq<char>> {
    match i32_parse(trimmed_text(text)) {
        Ok(p) => Ok(p),
        Err(e) => Err(invalid_pid_message(e)),
    }
}

/// The PID held by the outcome of reading the PID file, or the error to report.
pub open spec fn pid_of_read(read: Result<Seq<char>, Seq<char>>) -> Result<i32, Seq<char>> {
    match read {
        Ok(t) => pid_of_text(t),
        Err(e) => Err(read_failed_message(e)),
    }
}

pub open spec fn result_view(r: Result<String, String>) -> Result<Seq<char>, Seq<char>> {
    match r {
        Ok(s) => Ok(s@),
        Err(e) => Err(e@),
    }
}

/// The PID from the outcome of parsing the trimmed PID file text.
pub fn pid_from_parsed(parsed: Result<i32, String>) -> (r: Result<i32, String>)
    ensures
        parsed matches Ok(p) ==> r == Ok::<i32, String>(p),
        parsed matches Err(e) ==> (r matches Err(m) && m@ == invalid_pid_message(e@)),
{
    match parsed {
        Ok(p) => Ok(p),
        Err(e) => Err(join2("Invalid PID in PID file: ", e.as_str())),
    }
}

/// The PID in the text of a PID file (surrounding whitespace ignored).
pub fn parse_pid_text(text: &str) -> (r: Result<i32, String>)
    ensures
        match (r, pid_of_text(text@)) {
            (Ok(a), Ok(b)) => a == b,
            (Err(a), Err(b)) => a@ == b,
            _ => false,
        },
        r is Ok <==> (signed_decimal_value(trimmed_text(text@)) matches Some(v) && i32::MIN <= v <= i32::MAX),
        r matches Ok(p) ==> parses_as_i32(trimmed_text(text@), p),
{
    let t = trim(text);
    pid_from_parsed(parse_i32(t.as_str()))
}

/// What a failed SIGTERM means, given `kill`'s stderr as text: the process
/// does not exist (a stale PID file, `Ok`), or the error to report.
pub fn term_failure(stderr_text: &str) -> (r: Result<(), String>)
    ensures
        occurs_in(stderr_text@, "No such process"@) ==> r is Ok,
        !occurs_in(stderr_text@, "No such process"@) ==> (r matches Err(m) && m@ == terminate_failed_message(stderr_text@)),
{
    if contains_text(stderr_text, "No such process") {
        Ok(())
    } else {
        Err(join2("Failed to terminate process: ", stderr_text))
    }
}

/// The PID from the outcome of reading the PID file.
pub fn pid_from_read(read: Result<String, String>) -> (r: Result<i32, String>)
    ensures
        match (r, pid_of_read(result_view(read))) {
            (Ok(a), Ok(b)) => a == b,
            (Err(a), Err(b)) => a@ == b,
            _ => false,
        },
        r is Ok <==> (read matches Ok(t) && signed_decimal_value(trimmed_text(t@)) matches Some(v) && i32::MIN <= v
            <= i32::MAX),
        r matches Ok(p) ==> (read matches Ok(t) && parses_as_i32(trimmed_text(t@), p)),
{
    match read {
        Ok(t) => parse_pid_text(t.as_str()),
        Err(e) => Err(join2("Failed to read PID file: ", e.as_str())),
    }
}

// ---------------------------------------------------------------------------
// Status

/// Where a status query stands.
#[derive(Clone, Copy, Debug, PartialEq, Eq, Structural)]
pub enum StatusPhase {
    Start,
    AwaitPidFile,
    AwaitPidText,
    AwaitProbe(i32),
    CleaningStale,
    Done,
}

/// The status query: is the daemon running, and under which PID.
#[derive(Clone, Debug)]
pub struct StatusQuery {
    pub phase: StatusPhase,
    /// The status text and PID, or the error, once done.
    pub outcome: Option<Result<(String, Option<i32>), String>>,
}

pub open spec fn status_outcome_view(o: Option<Result<(String, Option<i32>), String>>) -> Option<Result<(Seq<char>, Option<i32>), Seq<char>>> {
    match o {
        Some(Ok((s, p))) => Some(Ok((s@, p))),
        Some(Err(e)) => Some(Err(e@)),
        None => None,
    }
}

impl StatusQuery {
    pub fn new() -> (r: StatusQuery)
        ensures
            r.phase == StatusPhase::Start,
            r.outcome is None,
    {
        StatusQuery { phase: StatusPhase::Start, outcome: None }
    }

    /// First look for the PID file.
    pub fn start(&mut self) -> (a: DaemonAction)
        requires
            old(self).phase == StatusPhase::Start,
        ensures
            final(self).phase == StatusPhase::AwaitPidFile,
            final(self).outcome == old(self).outcome,
            a is CheckPidFile,
    {
        self.phase = StatusPhase::AwaitPidFile;
        DaemonAction::CheckPidFile
    }

    /// Without a PID file the daemon is stopped; otherwise read it.
    pub fn on_pid_file(&mut self, exists: bool) -> (a: DaemonAction)
        requires
            old(self).phase == StatusPhase::AwaitPidFile,
        ensures
            !exists ==> final(self).phase == StatusPhase::Done && a is Finish
                && status_outcome_view(final(self).outcome) == Some(Ok::<(Seq<char>, Option<i32>), Seq<char>>(("Stopped"@, None))),
            exists ==> final(self).phase == StatusPhase::AwaitPidText && a is ReadPidFile
                && final(self).outcome == old(self).outcome,
    {
        if !exists {
            self.phase = StatusPhase::Done;
            self.outcome = Some(Ok((owned("Stopped"), None)));
            DaemonAction::Finish
        } else {
            self.phase = StatusPhase::AwaitPidText;
            DaemonAction::ReadPidFile
        }
    }

    /// With the PID read, probe the process; a read or parse error ends the query.
    pub fn on_pid_text(&mut self, read: Result<String, String>) -> (a: DaemonAction)
        requires
            old(self).phase == StatusPhase::AwaitPidText,
        ensures
            match pid_of_read(result_view(read)) {
                Ok(pid) => final(self).phase == StatusPhase::AwaitProbe(pid)
                    && (a matches DaemonAction::Send { pid: p, signal } && p == pid && signal == Signal::Probe)
                    && final(self).outcome == old(self).outcome,
                Err(e) => final(self).phase == StatusPhase::Done && a is Finish
                    && status_outcome_view(final(self).outcome) == Some(Err::<(Seq<char>, Option<i32>), Seq<char>>(e)),
            },
    {
        match pid_from_read(read) {
            Ok(pid) => {
                self.phase = StatusPhase::AwaitProbe(pid);
                DaemonAction::Send { pid, signal: Signal::Probe }
            },
            Err(e) => {
                self.phase = StatusPhase::Done;
                self.outcome = Some(Err(e));
                DaemonAction::Finish
            },
        }
    }

    /// A process that answers the probe is running; otherwise the PID file is stale.
    pub fn on_probe(&mut self, probe: Result<KillOutput, String>) -> (a: DaemonAction)
        requires
            old(self).phase is AwaitProbe,
        ensures
            ({
                let pid = old(self).phase->AwaitProbe_0;
                if probe matches Ok(o) && o.success {
                    &&& final(self).phase == StatusPhase::Done && a is Finish
                    &&& status_outcome_view(final(self).outcome) == Some(
                        Ok::<(Seq<char>, Option<i32>), Seq<char>>(("Running"@, Some(pid))),
                    )
                } else {
                    &&& final(self).phase == StatusPhase::CleaningStale && a is RemovePidFile
                    &&& final(self).outcome == old(self).outcome
                }
            }),
    {
        let pid = match self.phase {
            StatusPhase::AwaitProbe(p) => p,
            _ => 0,
        };
        let alive = match &probe {
            Ok(o) => o.success,
            Err(_) => false,
        };
        if alive {
            self.phase = StatusPhase::Done;
            self.outcome = Some(Ok((owned("Running"), Some(pid))));
            DaemonAction::Finish
        } else {
            self.phase = StatusPhase::CleaningStale;
            DaemonAction::RemovePidFile
        }
    }

    /// Once the stale PID file is gone, the daemon is reported stopped.
    pub fn on_removed(&mut self) -> (a: DaemonAction)
        requires
            old(self).phase == StatusPhase::CleaningStale,
        ensures
            final(self).phase == StatusPhase::Done && a is Finish,
            status_outcome_view(final(self).outcome) == Some(
                Ok::<(Seq<char>, Option<i32>), Seq<char>>(("Stopped (Stale PID file cleaned up)"@, None)),
            ),
    {
        self.phase = StatusPhase::Done;
        self.outcome = Some(Ok((owned("Stopped (Stale PID file cleaned up)"), None)));
        DaemonAction::Finish
    }
}

// ---------------------------------------------------------------------------
// Stop

/// How many times a terminating daemon is probed before it is killed.
pub open spec fn probe_limit() -> u32 {
    10
}

/// Where a stop request stands.
#[derive(Clone, Copy, Debug, PartialEq, Eq, Structural)]
pub enum StopPhase {
    Start,
    AwaitPidFile,
    AwaitPidText,
    AwaitTerm(i32),
    AnnouncingTerm(i32),
    /// Waiting for the answer to probe number `n` (from 0).
    Probing(i32, u32),
    /// Waiting after unanswered probe number `n`.
    Sleeping(i32, u32),
    Killing(i32),
    CleaningAfterKill,
    AnnouncingKill,
    CleaningAfterStop,
    AnnouncingStop,
    CleaningStale,
    Done,
}

/// A request to stop the daemon.
#[derive(Clone, Debug)]
pub struct StopRequest {
    pub phase: StopPhase,
    pub outcome: Option<Result<(), String>>,
}

pub open spec fn stop_outcome_view(o: Option<Result<(), String>>) -> Option<Result<(), Seq<char>>> {
    match o {
        Some(Ok(())) => Some(Ok(())),
        Some(Err(e)) => Some(Err(e@)),
        None => None,
    }
}

/// A measure of the work left; every step lowers it, so a stop request ends.
pub open spec fn stop_measure(p: StopPhase) -> nat {
    match p {
        StopPhase::Start => 100,
        StopPhase::AwaitPidFile => 99,
        StopPhase::AwaitPidText => 98,
        StopPhase::AwaitTerm(_) => 97,
        StopPhase::AnnouncingTerm(_) => 96,
        StopPhase::Probing(_, n) => if n < 10 { (40 - 2 * n) as nat } else { 0 },
        StopPhase::Sleeping(_, n) => if n < 10 { (39 - 2 * n) as nat } else { 0 },
        StopPhase::Killing(_) => 10,
        StopPhase::CleaningAfterKill => 9,
        StopPhase::AnnouncingKill => 8,
        StopPhase::CleaningAfterStop => 7,
        StopPhase::AnnouncingStop => 6,
        StopPhase::CleaningStale => 5,
        StopPhase::Done => 0,
    }
}

/// The probe counter stays below the limit.
pub open spec fn stop_phase_wf(p: StopPhase) -> bool {
    match p {
        StopPhase::Probing(_, n) => n < probe_limit(),
        StopPhase::Sleeping(_, n) => n < probe_limit(),
        _ => true,
    }
}

pub open spec fn term_sent_message(pid: i32) -> Seq<char> {
    "Sent termination signal to daemon process (PID "@ + signed_decimal_text(pid as int) + ")."@
}

pub open spec fn kill_failed_message(e: Seq<char>) -> Seq<char> {
    "Failed to execute kill command: "@ + e
}

pub open spec fn terminate_failed_message(err: Seq<char>) -> Seq<char> {
    "Failed to terminate process: "@ + err
}

pub open spec fn not_running_message() -> Seq<char> {
    "Daemon is not running (PID file not found)."@
}

pub open spec fn stale_message() -> Seq<char> {
    "Daemon process was not found. Cleaned up stale PID file."@
}

pub open spec fn stopped_message() -> Seq<char> {
    "Daemon stopped successfully."@
}

pub open spec fn forced_message() -> Seq<char> {
    "Daemon did not respond to SIGTERM. Sent SIGKILL (forced stop)."@
}

impl StopRequest {
    pub fn new() -> (r: StopRequest)
        ensures
            r.phase == StopPhase::Start,
            r.outcome is None,
    {
        StopRequest { phase: StopPhase::Start, outcome: None }
    }

    /// First look for the PID file.
    pub fn start(&mut self) -> (a: DaemonAction)
        requires
            old(self).phase == StopPhase::Start,
        ensures
            final(self).phase == StopPhase::AwaitPidFile && a is CheckPidFile,
            final(self).outcome == old(self).outcome,
            stop_measure(final(self).phase) < stop_measure(old(self).phase),
    {
        self.phase = StopPhase::AwaitPidFile;
        DaemonAction::CheckPidFile
    }

    /// Without a PID file there is nothing to stop; otherwise read it.
    pub fn on_pid_file(&mut self, exists: bool) -> (a: DaemonAction)
        requires
            old(self).phase == StopPhase::AwaitPidFile,
        ensures
            !exists ==> final(self).phase == StopPhase::Done && a is Finish
                && stop_outcome_view(final(self).outcome) == Some(Err::<(), Seq<char>>(not_running_message())),
            exists ==> final(self).phase == StopPhase::AwaitPidText && a is ReadPidFile
                && final(self).outcome == old(self).outcome,
            stop_measure(final(self).phase) < stop_measure(old(self).phase),
    {
        if !exists {
            self.phase = StopPhase::Done;
            self.outcome = Some(Err(owned("Daemon is not running (PID file not found).")));
            DaemonAction::Finish
        } else {
            self.phase = StopPhase::AwaitPidText;
            DaemonAction::ReadPidFile
        }
    }

    /// With the PID read, send SIGTERM; a read or parse error ends the request.
    pub fn on_pid_text(&mut self, read: Result<String, String>) -> (a: DaemonAction)
        requires
            old(self).phase == StopPhase::AwaitPidText,
        ensures
            match pid_of_read(result_view(read)) {
                Ok(pid) => final(self).phase == StopPhase::AwaitTerm(pid)
                    && (a matches DaemonAction::Send { pid: p, signal } && p == pid && signal == Signal::Term)
                    && final(self).outcome == old(self).outcome,
                Err(e) => final(self).phase == StopPhase::Done && a is Finish
                    && stop_outcome_view(final(self).outcome) == Some(Err::<(), Seq<char>>(e)),
            },
            stop_measure(final(self).phase) < stop_measure(old(self).phase),
    {
        match pid_from_read(read) {
            Ok(pid) => {
                self.phase = StopPhase::AwaitTerm(pid);
                DaemonAction::Send { pid, signal: Signal::Term }
            },
            Err(e) => {
                self.phase = StopPhase::Done;
                self.outcome = Some(Err(e));
                DaemonAction::Finish
            },
        }
    }

    /// The answer to SIGTERM, to a probe, or to SIGKILL.
    /// After SIGTERM: announce it when `kill` succeeded; when it failed because
    /// the process does not exist, clean up the stale PID file; otherwise fail.
    /// After a probe: a process that is gone means the daemon stopped;
    /// otherwise wait 200 ms. After SIGKILL, whatever its outcome, remove the
    /// PID file.
    pub fn on_kill(&mut self, out: Result<KillOutput, String>) -> (a: DaemonAction)
        requires
            old(self).phase is AwaitTerm || old(self).phase is Probing || old(self).phase is Killing,
            stop_phase_wf(old(self).phase),
        ensures
            stop_phase_wf(final(self).phase),
            stop_measure(final(self).phase) < stop_measure(old(self).phase),
            match old(self).phase {
                StopPhase::AwaitTerm(pid) => match out {
                    Err(e) => final(self).phase == StopPhase::Done && a is Finish
                        && stop_outcome_view(final(self).outcome) == Some(Err::<(), Seq<char>>(kill_failed_message(e@))),
                    Ok(o) => if o.success {
                        &&& final(self).phase == StopPhase::AnnouncingTerm(pid)
                        &&& a matches DaemonAction::Print(m) && m@ == term_sent_message(pid)
                        &&& final(self).outcome == old(self).outcome
                    } else if occurs_in(utf8_lossy_text(o.stderr@), "No such process"@) {
                        &&& final(self).phase == StopPhase::CleaningStale && a is RemovePidFile
                        &&& final(self).outcome == old(self).outcome
                    } else {
                        &&& final(self).phase == StopPhase::Done && a is Finish
                        &&& stop_outcome_view(final(self).outcome) == Some(
                            Err::<(), Seq<char>>(terminate_failed_message(utf8_lossy_text(o.stderr@))),
                        )
                    },
                },
                StopPhase::Probing(pid, n) => if out matches Ok(o) && !o.success {
                    &&& final(self).phase == StopPhase::CleaningAfterStop && a is RemovePidFile
                    &&& final(self).outcome == old(self).outcome
                } else {
                    &&& final(self).phase == StopPhase::Sleeping(pid, n)
                    &&& a matches DaemonAction::Sleep { millis } && millis == 200
                    &&& final(self).outcome == old(self).outcome
                },
                _ => final(self).phase == StopPhase::CleaningAfterKill && a is RemovePidFile
                    && final(self).outcome == old(self).outcome,
            },
    {
        match self.phase {
            StopPhase::AwaitTerm(pid) => match out {
                Err(e) => {
                    self.phase = StopPhase::Done;
                    self.outcome = Some(Err(join2("Failed to execute kill command: ", e.as_str())));
                    DaemonAction::Finish
                },
                Ok(o) => {
                    if o.success {
                        self.phase = StopPhase::AnnouncingTerm(pid);
                        let mut m = owned("Sent termination signal to daemon process (PID ");
                        let d = decimal_i32(pid);
                        m.append(d.as_str());
                        m.append(").");
                        DaemonAction::Print(m)
                    } else {
                        let err = utf8_lossy(o.stderr.as_slice());
                        match term_failure(err.as_str()) {
                            Ok(()) => {
                                self.phase = StopPhase::CleaningStale;
                                DaemonAction::RemovePidFile
                            },
                            Err(m) => {
                                self.phase = StopPhase::Done;
                                self.outcome = Some(Err(m));
                                DaemonAction::Finish
                            },
                        }
                    }
                },
            },
            StopPhase::Probing(pid, n) => {
                let gone = match &out {
                    Ok(o) => !o.success,
                    Err(_) => false,
                };
                if gone {
                    self.phase = StopPhase::CleaningAfterStop;
                    DaemonAction::RemovePidFile
                } else {
                    self.phase = StopPhase::Sleeping(pid, n);
                    DaemonAction::Sleep { millis: 200 }
                }
            },
            _ => {
                self.phase = StopPhase::CleaningAfterKill;
                DaemonAction::RemovePidFile
            },
        }
    }

    /// After SIGTERM was announced, start probing.
    pub fn on_printed(&mut self) -> (a: DaemonAction)
        requires
            old(self).phase is AnnouncingTerm || old(self).phase == StopPhase::AnnouncingKill
                || old(self).phase == StopPhase::AnnouncingStop,
        ensures
            stop_phase_wf(final(self).phase),
            stop_measure(final(self).phase) < stop_measure(old(self).phase),
            match old(self).phase {
                StopPhase::AnnouncingTerm(pid) => final(self).phase == StopPhase::Probing(pid, 0)
                    && (a matches DaemonAction::Send { pid: p, signal } && p == pid && signal == Signal::Probe)
                    && final(self).outcome == old(self).outcome,
                _ => final(self).phase == StopPhase::Done && a is Finish
                    && stop_outcome_view(final(self).outcome) == Some(Ok::<(), Seq<char>>(())),
            },
    {
        match self.phase {
            StopPhase::AnnouncingTerm(pid) => {
                self.phase = StopPhase::Probing(pid, 0);
                DaemonAction::Send { pid, signal: Signal::Probe }
            },
            _ => {
                self.phase = StopPhase::Done;
                self.outcome = Some(Ok(()));
                DaemonAction::Finish
            },
        }
    }

    /// After 200 ms, probe again; after the tenth unanswered probe, SIGKILL.
    pub fn on_slept(&mut self) -> (a: DaemonAction)
        requires
            old(self).phase is Sleeping,
            stop_phase_wf(old(self).phase),
        ensures
            stop_phase_wf(final(self).phase),
            stop_measure(final(self).phase) < stop_measure(old(self).phase),
            final(self).outcome == old(self).outcome,
            ({
                let pid = old(self).phase->Sleeping_0;
                let n = old(self).phase->Sleeping_1;
                if n + 1 < probe_limit() {
                    final(self).phase == StopPhase::Probing(pid, (n + 1) as u32)
                        && (a matches DaemonAction::Send { pid: p, signal } && p == pid && signal == Signal::Probe)
                } else {
                    final(self).phase == StopPhase::Killing(pid)
                        && (a matches DaemonAction::Send { pid: p, signal } && p == pid && signal == Signal::Kill)
                }
            }),
    {
        let (pid, n) = match self.phase {
            StopPhase::Sleeping(p, n) => (p, n),
            _ => (0, 0),
        };
        if n + 1 < 10 {
            self.phase = StopPhase::Probing(pid, n + 1);
            DaemonAction::Send { pid, signal: Signal::Probe }
        } else {
            self.phase = StopPhase::Killing(pid);
            DaemonAction::Send { pid, signal: Signal::Kill }
        }
    }

    /// Once the PID file is removed: announce the stop or the kill, or fail
    /// on a stale PID file.
    pub fn on_removed(&mut self) -> (a: DaemonAction)
        requires
            old(self).phase == StopPhase::CleaningAfterKill || old(self).phase == StopPhase::CleaningAfterStop
                || old(self).phase == StopPhase::CleaningStale,
        ensures
            stop_phase_wf(final(self).phase),
            stop_measure(final(self).phase) < stop_measure(old(self).phase),
            old(self).phase == StopPhase::CleaningAfterKill ==> final(self).phase == StopPhase::AnnouncingKill
                && (a matches DaemonAction::Print(m) && m@ == forced_message()) && final(self).outcome == old(self).outcome,
            old(self).phase == StopPhase::CleaningAfterStop ==> final(self).phase == StopPhase::AnnouncingStop
                && (a matches DaemonAction::Print(m) && m@ == stopped_message()) && final(self).outcome == old(self).outcome,
            old(self).phase == StopPhase::CleaningStale ==> final(self).phase == StopPhase::Done && a is Finish
                && stop_outcome_view(final(self).outcome) == Some(Err::<(), Seq<char>>(stale_message())),
    {
        match self.phase {
            StopPhase::CleaningAfterKill => {
                self.phase = StopPhase::AnnouncingKill;
                DaemonAction::Print(owned("Daemon did not respond to SIGTERM. Sent SIGKILL (forced stop)."))
            },
            StopPhase::CleaningAfterStop => {
                self.phase = StopPhase::AnnouncingStop;
                DaemonAction::Print(owned("Daemon stopped successfully."))
            },
            _ => {
                self.phase = StopPhase::Done;
                self.outcome = Some(Err(owned("Daemon process was not found. Cleaned up stale PID file.")));
                DaemonAction::Finish
            },
        }
    }
}

} // verus!
