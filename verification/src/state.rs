//! What the daemon knows at run time: per-profile sync status, repository
//! status, and a bounded log.

use vstd::prelude::*;
use std::collections::VecDeque;
use crate::config::{
    Config, SyncProfile, SyncProfileView, profile_views, has_profile, first_profile_with,
    lemma_first_profile_unique, lemma_has_profile_extend,
};
use crate::text::{owned, same_text, opt_text, to_lowercase, lowercase_text};

verus! {

/// An instant, as seconds and nanoseconds since the Unix epoch (UTC).
#[derive(Clone, Copy, Debug, PartialEq, Eq, Structural)]
pub struct Timestamp {
    pub secs: i64,
    pub nanos: u32,
}

/// `chrono::Utc::now`: the current instant. Nothing is claimed of it: it
/// depends on the clock.
#[verifier::external_body]
pub fn clock_now() -> (r: Timestamp)
{
    let t = chrono::Utc::now();
    Timestamp { secs: t.timestamp(), nanos: t.timestamp_subsec_nanos() }
}

/// The sync status of one repository.
#[derive(Clone, Debug)]
pub struct RepoStatus {
    pub name: String,
    pub full_name: String,
    /// "Idle", "Cloning", "Pulling", "Success" or "Failed"
    pub status: String,
    pub error: Option<String>,
    pub last_sync: Option<Timestamp>,
    pub is_private: bool,
}

pub struct RepoStatusView {
    pub name: Seq<char>,
    pub full_name: Seq<char>,
    pub status: Seq<char>,
    pub error: Option<Seq<char>>,
    pub last_sync: Option<Timestamp>,
    pub is_private: bool,
}

impl View for RepoStatus {
    type V = RepoStatusView;

    open spec fn view(&self) -> RepoStatusView {
        RepoStatusView {
            name: self.name@,
            full_name: self.full_name@,
            status: self.status@,
            error: opt_text(self.error),
            last_sync: self.last_sync,
            is_private: self.is_private,
        }
    }
}

/// One line of a profile's log.
#[derive(Clone, Debug)]
pub struct LogMessage {
    pub timestamp: Timestamp,
    pub level: String,
    pub message: String,
}

pub struct LogMessageView {
    pub timestamp: Timestamp,
    pub level: Seq<char>,
    pub message: Seq<char>,
}

impl View for LogMessage {
    type V = LogMessageView;

    open spec fn view(&self) -> LogMessageView {
        LogMessageView { timestamp: self.timestamp, level: self.level@, message: self.message@ }
    }
}

impl LogMessage {
    pub fn duplicate(&self) -> (r: LogMessage)
        ensures
            r@ == self@,
    {
        LogMessage { timestamp: self.timestamp, level: self.level.clone(), message: self.message.clone() }
    }
}

/// How many log lines a profile keeps.
pub open spec fn log_capacity() -> nat {
    100
}

/// The sync state of one profile.
#[derive(Clone, Debug)]
pub struct ProfileSyncState {
    /// "Idle", "Syncing" or "Error"
    pub status: String,
    pub last_sync_time: Option<Timestamp>,
    pub repos: Vec<RepoStatus>,
    pub logs: VecDeque<LogMessage>,
    pub auto_sync: bool,
}

pub struct ProfileSyncStateView {
    pub status: Seq<char>,
    pub last_sync_time: Option<Timestamp>,
    pub repos: Seq<RepoStatusView>,
    pub logs: Seq<LogMessageView>,
    pub auto_sync: bool,
}

pub open spec fn repo_views(rs: Seq<RepoStatus>) -> Seq<RepoStatusView> {
    rs.map_values(|r: RepoStatus| r@)
}

pub open spec fn log_views(ls: Seq<LogMessage>) -> Seq<LogMessageView> {
    ls.map_values(|l: LogMessage| l@)
}

impl View for ProfileSyncState {
    type V = ProfileSyncStateView;

    open spec fn view(&self) -> ProfileSyncStateView {
        ProfileSyncStateView {
            status: self.status@,
            last_sync_time: self.last_sync_time,
            repos: repo_views(self.repos@),
            logs: log_views(self.logs@),
            auto_sync: self.auto_sync,
        }
    }
}

/// The state of a profile that has not synced yet.
pub open spec fn fresh_state() -> ProfileSyncStateView {
    ProfileSyncStateView {
        status: "Idle"@,
        last_sync_time: None,
        repos: Seq::empty(),
        logs: Seq::empty(),
        auto_sync: false,
    }
}

/// The log after `entry` is added: the oldest line is dropped when the log is full.
pub open spec fn logs_after_add(logs: Seq<LogMessageView>, entry: LogMessageView) -> Seq<LogMessageView> {
    if logs.len() >= log_capacity() {
        logs.subrange(1, logs.len() as int).push(entry)
    } else {
        logs.push(entry)
    }
}

/// The profile state after `entry` is logged.
pub open spec fn logged(p: ProfileSyncStateView, entry: LogMessageView) -> ProfileSyncStateView {
    ProfileSyncStateView { logs: logs_after_add(p.logs, entry), ..p }
}

/// Whether `entry` is a line at level `level` saying `msg`.
pub open spec fn says(entry: LogMessageView, level: Seq<char>, msg: Seq<char>) -> bool {
    entry.level == level && entry.message == msg
}

impl ProfileSyncState {
    /// The state of a profile that has not synced yet.
    pub fn new() -> (r: ProfileSyncState)
        ensures
            r@ == fresh_state(),
    {
        let r = ProfileSyncState {
            status: owned("Idle"),
            last_sync_time: None,
            repos: Vec::new(),
            logs: VecDeque::with_capacity(100),
            auto_sync: false,
        };
        assert(r@.repos =~= Seq::<RepoStatusView>::empty());
        assert(r@.logs =~= Seq::<LogMessageView>::empty());
        r
    }

    /// Logs a line stamped `at`, dropping the oldest one when 100 are kept;
    /// returns a copy of the line.
    pub fn add_log_at(&mut self, level: &str, msg: &str, at: Timestamp) -> (r: LogMessage)
        ensures
            r@ == (LogMessageView { timestamp: at, level: level@, message: msg@ }),
            final(self)@ == logged(old(self)@, r@),
    {
        let ghost before = self@.logs;
        if self.logs.len() >= 100 {
            let _ = self.logs.pop_front();
            assert(log_views(self.logs@) =~= before.subrange(1, before.len() as int));
        }
        let ghost mid = log_views(self.logs@);
        let entry = LogMessage { timestamp: at, level: owned(level), message: owned(msg) };
        let copy = entry.duplicate();
        self.logs.push_back(entry);
        assert(log_views(self.logs@) =~= mid.push(copy@));
        copy
    }

    /// Logs a line stamped with the current time; returns a copy of the line
    /// for the console.
    pub fn add_log(&mut self, level: &str, msg: &str) -> (r: LogMessage)
        ensures
            says(r@, level@, msg@),
            final(self)@ == logged(old(self)@, r@),
    {
        let now = clock_now();
        self.add_log_at(level, msg, now)
    }
}

/// The law of the bounded log: adding a line never lets a log that held at
/// most 100 lines grow past 100, the new line comes last, and the lines kept
/// keep their order.
pub proof fn law_log_bounded(logs: Seq<LogMessageView>, entry: LogMessageView)
    requires
        logs.len() <= log_capacity(),
    ensures
        logs_after_add(logs, entry).len() <= log_capacity(),
        logs_after_add(logs, entry).last() == entry,
        logs.len() < log_capacity() ==> logs_after_add(logs, entry) == logs.push(entry),
        logs.len() == log_capacity() ==> logs_after_add(logs, entry) == logs.drop_first().push(entry),
{
    if logs.len() == log_capacity() {
        assert(logs.subrange(1, logs.len() as int) =~= logs.drop_first());
    }
}


/// Which repositories a sync cycle covers and how.
#[derive(Clone, Copy, Debug, PartialEq, Eq, Structural)]
pub enum SyncMode {
    /// Ask the provider for every repository; clone the missing ones, pull the others.
    Full,
    /// Ask the provider, but only clone repositories that are missing locally.
    MissingOnly,
    /// Do not ask the provider: pull the repositories found on local disk.
    UpdatesOnly,
}

/// The daemon's shared state.
#[derive(Clone, Debug)]
pub struct SyncState {
    pub profiles: Vec<SyncProfile>,
    pub active_profile_id: String,
    /// The sync state of each profile, by profile id (each id at most once).
    pub profile_states: Vec<(String, ProfileSyncState)>,
    pub next_sync_mode: SyncMode,
    pub web_host: String,
    pub web_port: u16,
}

pub struct SyncStateView {
    pub profiles: Seq<SyncProfileView>,
    pub active_profile_id: Seq<char>,
    pub profile_states: Map<Seq<char>, ProfileSyncStateView>,
    pub next_sync_mode: SyncMode,
    pub web_host: Seq<char>,
    pub web_port: u16,
}

pub open spec fn entry_views(es: Seq<(String, ProfileSyncState)>) -> Seq<(Seq<char>, ProfileSyncStateView)> {
    es.map_values(|e: (String, ProfileSyncState)| (e.0@, e.1@))
}

/// The map that a list of (id, state) entries stands for.
pub open spec fn states_map(es: Seq<(Seq<char>, ProfileSyncStateView)>) -> Map<Seq<char>, ProfileSyncStateView>
    decreases es.len(),
{
    if es.len() == 0 {
        Map::empty()
    } else {
        states_map(es.drop_last()).insert(es.last().0, es.last().1)
    }
}

/// Whether no id occurs twice among the entries.
pub open spec fn keys_unique(es: Seq<(Seq<char>, ProfileSyncStateView)>) -> bool {
    forall|i: int, j: int| 0 <= i < j < es.len() ==> es[i].0 != es[j].0
}

impl View for SyncState {
    type V = SyncStateView;

    open spec fn view(&self) -> SyncStateView {
        SyncStateView {
            profiles: profile_views(self.profiles@),
            active_profile_id: self.active_profile_id@,
            profile_states: states_map(entry_views(self.profile_states@)),
            next_sync_mode: self.next_sync_mode,
            web_host: self.web_host@,
            web_port: self.web_port,
        }
    }
}

impl SyncState {
    /// Each profile id has at most one state entry.
    pub open spec fn wf(&self) -> bool {
        keys_unique(entry_views(self.profile_states@))
    }
}

/// The state kept for `id`, or a fresh one when there is none yet.
pub open spec fn state_of(m: Map<Seq<char>, ProfileSyncStateView>, id: Seq<char>) -> ProfileSyncStateView {
    if m.contains_key(id) {
        m[id]
    } else {
        fresh_state()
    }
}

/// The shared state with the state of profile `id` replaced.
pub open spec fn with_profile_state(s: SyncStateView, id: Seq<char>, p: ProfileSyncStateView) -> SyncStateView {
    SyncStateView { profile_states: s.profile_states.insert(id, p), ..s }
}

proof fn lemma_states_map_lookup(es: Seq<(Seq<char>, ProfileSyncStateView)>, i: int)
    requires
        keys_unique(es),
        0 <= i < es.len(),
    ensures
        states_map(es).contains_key(es[i].0),
        states_map(es)[es[i].0] == es[i].1,
    decreases es.len(),
{
    if i < es.len() - 1 {
        lemma_states_map_lookup(es.drop_last(), i);
    }
}

proof fn lemma_states_map_absent(es: Seq<(Seq<char>, ProfileSyncStateView)>, k: Seq<char>)
    requires
        forall|i: int| 0 <= i < es.len() ==> es[i].0 != k,
    ensures
        !states_map(es).contains_key(k),
    decreases es.len(),
{
    if es.len() > 0 {
        lemma_states_map_absent(es.drop_last(), k);
    }
}

proof fn lemma_states_map_push(es: Seq<(Seq<char>, ProfileSyncStateView)>, e: (Seq<char>, ProfileSyncStateView))
    ensures
        states_map(es.push(e)) == states_map(es).insert(e.0, e.1),
{
    assert(es.push(e).drop_last() =~= es);
}

proof fn lemma_states_map_update(es: Seq<(Seq<char>, ProfileSyncStateView)>, i: int, v: ProfileSyncStateView)
    requires
        keys_unique(es),
        0 <= i < es.len(),
    ensures
        keys_unique(es.update(i, (es[i].0, v))),
        states_map(es.update(i, (es[i].0, v))) == states_map(es).insert(es[i].0, v),
    decreases es.len(),
{
    let es2 = es.update(i, (es[i].0, v));
    if i == es.len() - 1 {
        assert(es2.drop_last() =~= es.drop_last());
        assert(states_map(es2) =~= states_map(es).insert(es[i].0, v));
    } else {
        let d = es.drop_last();
        lemma_states_map_update(d, i, v);
        assert(es2.drop_last() =~= d.update(i, (es[i].0, v)));
        assert(es[i].0 != es.last().0);
        assert(states_map(es2) =~= states_map(es).insert(es[i].0, v));
    }
}

pub(crate) proof fn lemma_replace_state(es: Seq<(String, ProfileSyncState)>, es2: Seq<(String, ProfileSyncState)>, i: int)
    requires
        keys_unique(entry_views(es)),
        0 <= i < es.len(),
        es2.len() == es.len(),
        es2[i].0 == es[i].0,
        forall|j: int| 0 <= j < es.len() && j != i ==> es2[j] == es[j],
    ensures
        keys_unique(entry_views(es2)),
        states_map(entry_views(es2)) == states_map(entry_views(es)).insert(es[i].0@, es2[i].1@),
        forall|m: Map<Seq<char>, ProfileSyncStateView>, a: ProfileSyncStateView|
            #[trigger] m.insert(es[i].0@, a).insert(es[i].0@, es2[i].1@) == m.insert(es[i].0@, es2[i].1@),
{
    assert forall|m: Map<Seq<char>, ProfileSyncStateView>, a: ProfileSyncStateView|
        #[trigger] m.insert(es[i].0@, a).insert(es[i].0@, es2[i].1@) == m.insert(es[i].0@, es2[i].1@) by {
        assert(m.insert(es[i].0@, a).insert(es[i].0@, es2[i].1@) =~= m.insert(es[i].0@, es2[i].1@));
    }
    let v = entry_views(es);
    assert(entry_views(es2) =~= v.update(i, (v[i].0, es2[i].1@)));
    lemma_states_map_update(v, i, es2[i].1@);
}

impl SyncState {
    /// The shared state for a configuration: a fresh state for each profile,
    /// and the next sync a full one.
    pub fn new(config: Config) -> (r: SyncState)
        ensures
            r.wf(),
            r@.profiles == config@.profiles,
            r@.active_profile_id == config@.active_profile_id,
            r@.profile_states == Map::new(
                |k: Seq<char>| has_profile(config@.profiles, k),
                |k: Seq<char>| fresh_state(),
            ),
            r@.next_sync_mode == SyncMode::Full,
            r@.web_host == config@.web_host,
            r@.web_port == config@.web_port,
    {
        let ghost ps = config@.profiles;
        let mut states: Vec<(String, ProfileSyncState)> = Vec::new();
        let mut i: usize = 0;
        while i < config.profiles.len()
            invariant
                i <= config.profiles.len(),
                profile_views(config.profiles@) == ps,
                keys_unique(entry_views(states@)),
                states_map(entry_views(states@)) =~= Map::new(
                    |k: Seq<char>| has_profile(ps.subrange(0, i as int), k),
                    |k: Seq<char>| fresh_state(),
                ),
                forall|j: int| 0 <= j < states@.len() ==> has_profile(ps.subrange(0, i as int), #[trigger] states@[j].0@),
            decreases config.profiles.len() - i,
        {
            let id = &config.profiles[i].id;
            assert(config.profiles@[i as int]@ == ps[i as int]);
            let ghost es = entry_views(states@);
            let ghost old_states = states@;
            let ghost pre = ps.subrange(0, i as int);
            let ghost next = ps.subrange(0, i + 1);
            let mut found = false;
            let mut j: usize = 0;
            while j < states.len()
                invariant
                    j <= states.len(),
                    es == entry_views(states@),
                    !found ==> forall|k: int| 0 <= k < j ==> es[k].0 != id@,
                    found ==> exists|k: int| 0 <= k < states@.len() && es[k].0 == id@,
                decreases states.len() - j,
            {
                if same_text(states[j].0.as_str(), id.as_str()) {
                    found = true;
                    assert(es[j as int].0 == id@);
                }
                j = j + 1;
            }
            if !found {
                states.push((id.clone(), ProfileSyncState::new()));
                proof {
                    assert(entry_views(states@) =~= es.push((id@, fresh_state())));
                    lemma_states_map_push(es, (id@, fresh_state()));
                    lemma_states_map_absent(es, id@);
                }
            } else {
                proof {
                    let k = choose|k: int| 0 <= k < states@.len() && es[k].0 == id@;
                    assert(has_profile(pre, states@[k].0@));
                }
            }
            proof {
                lemma_has_profile_extend(ps, i as int);
                assert forall|j: int| 0 <= j < states@.len() implies has_profile(next, #[trigger] states@[j].0@) by {
                    if j < es.len() {
                        assert(states@[j] == old_states[j]);
                        assert(has_profile(pre, old_states[j].0@));
                    }
                }
            }
            i = i + 1;
        }
        assert(ps.subrange(0, i as int) =~= ps);
        SyncState {
            profiles: config.profiles,
            active_profile_id: config.active_profile_id,
            profile_states: states,
            next_sync_mode: SyncMode::Full,
            web_host: config.web_host,
            web_port: config.web_port,
        }
    }
}


/// The shared state after `line` is logged to the active profile; nothing is
/// kept when no profile id is active.
pub open spec fn log_to_active(s: SyncStateView, line: LogMessageView) -> SyncStateView {
    if s.active_profile_id.len() == 0 {
        s
    } else {
        with_profile_state(s, s.active_profile_id, logged(state_of(s.profile_states, s.active_profile_id), line))
    }
}

/// A profile state with its status replaced.
pub open spec fn with_status(p: ProfileSyncStateView, status: Seq<char>) -> ProfileSyncStateView {
    ProfileSyncStateView { status: status, ..p }
}

/// The position of the active profile in `ps`, when there is one.
pub open spec fn active_index(ps: Seq<SyncProfileView>, active: Seq<char>) -> int {
    choose|i: int| first_profile_with(ps, active, i)
}

/// How long the daemon waits between cycles: the active profile's interval,
/// or an hour when no profile is active.
pub open spec fn spec_sync_interval(s: SyncStateView) -> u64 {
    if has_profile(s.profiles, s.active_profile_id) {
        s.profiles[active_index(s.profiles, s.active_profile_id)].sync_interval_secs
    } else {
        3600
    }
}

pub open spec fn sync_failed_message(e: Seq<char>) -> Seq<char> {
    "Sync failed: "@ + e
}

/// The debug name of a mode, as it appears in log lines and API queries.
pub open spec fn mode_name(m: SyncMode) -> Seq<char> {
    match m {
        SyncMode::Full => "Full"@,
        SyncMode::MissingOnly => "MissingOnly"@,
        SyncMode::UpdatesOnly => "UpdatesOnly"@,
    }
}

pub open spec fn manual_sync_message(m: SyncMode) -> Seq<char> {
    "Manual sync requested via Web API. Mode: "@ + mode_name(m)
}

/// The answer to a request for a manual sync.
#[derive(Clone, Debug)]
pub enum ManualSync {
    /// A sync of the active profile is already running.
    Refused,
    /// The sync was scheduled; this line was logged.
    Accepted(LogMessage),
}

proof fn lemma_active_index_is(ps: Seq<SyncProfileView>, id: Seq<char>, i: int)
    requires
        first_profile_with(ps, id, i),
    ensures
        has_profile(ps, id),
        active_index(ps, id) == i,
{
    lemma_first_profile_unique(ps, id, choose|k: int| first_profile_with(ps, id, k), i);
}

impl SyncMode {
    /// The debug name of the mode.
    pub fn name(&self) -> (r: &'static str)
        ensures
            r@ == mode_name(*self),
    {
        match self {
            SyncMode::Full => "Full",
            SyncMode::MissingOnly => "MissingOnly",
            SyncMode::UpdatesOnly => "UpdatesOnly",
        }
    }
}

impl SyncState {
    /// The position of the state entry for `id`.
    pub fn state_index(&self, id: &str) -> (r: Option<usize>)
        ensures
            match r {
                Some(i) => i < self.profile_states@.len() && self.profile_states@[i as int].0@ == id@,
                None => forall|i: int| 0 <= i < self.profile_states@.len() ==> self.profile_states@[i].0@ != id@,
            },
    {
        let mut i: usize = 0;
        while i < self.profile_states.len()
            invariant
                i <= self.profile_states.len(),
                forall|j: int| 0 <= j < i ==> self.profile_states@[j].0@ != id@,
            decreases self.profile_states.len() - i,
        {
            if same_text(self.profile_states[i].0.as_str(), id) {
                return Some(i);
            }
            i = i + 1;
        }
        None
    }

    /// The position of the state entry for `id`, made fresh when there was none.
    pub fn ensure_state(&mut self, id: &str) -> (r: usize)
        requires
            old(self).wf(),
        ensures
            final(self).wf(),
            r < final(self).profile_states@.len(),
            final(self).profile_states@[r as int].0@ == id@,
            final(self).profile_states@[r as int].1@ == state_of(old(self)@.profile_states, id@),
            final(self)@ == with_profile_state(old(self)@, id@, state_of(old(self)@.profile_states, id@)),
    {
        let ghost es = entry_views(self.profile_states@);
        match self.state_index(id) {
            Some(i) => {
                proof {
                    assert(es[i as int].0 == id@);
                    lemma_states_map_lookup(es, i as int);
                    assert(states_map(es).insert(id@, states_map(es)[id@]) =~= states_map(es));
                }
                i
            },
            None => {
                self.profile_states.push((owned(id), ProfileSyncState::new()));
                proof {
                    assert forall|k: int| 0 <= k < es.len() implies es[k].0 != id@ by {
                        assert(es[k].0 == old(self).profile_states@[k].0@);
                    }
                    lemma_states_map_absent(es, id@);
                    assert(entry_views(self.profile_states@) =~= es.push((id@, fresh_state())));
                    lemma_states_map_push(es, (id@, fresh_state()));
                }
                self.profile_states.len() - 1
            },
        }
    }

    /// Logs a line to the active profile's state (nothing is kept when no
    /// profile id is active); returns the line for the console.
    pub fn add_log_to_active(&mut self, level: &str, msg: &str) -> (r: LogMessage)
        requires
            old(self).wf(),
        ensures
            final(self).wf(),
            says(r@, level@, msg@),
            final(self)@ == log_to_active(old(self)@, r@),
    {
        if self.active_profile_id.as_str().is_empty() {
            let now = clock_now();
            return LogMessage { timestamp: now, level: owned(level), message: owned(msg) };
        }
        let active = self.active_profile_id.clone();
        let i = self.ensure_state(active.as_str());
        let ghost mid = self.profile_states@;
        let line = self.profile_states[i].1.add_log(level, msg);
        proof {
            lemma_replace_state(mid, self.profile_states@, i as int);
        }
        line
    }

    /// The active profile: the first one whose id is the active id.
    pub fn get_active_profile(&self) -> (r: Option<&SyncProfile>)
        ensures
            match r {
                Some(p) => first_profile_with(self@.profiles, self@.active_profile_id, active_index(
                    self@.profiles,
                    self@.active_profile_id,
                )) && p@ == self@.profiles[active_index(self@.profiles, self@.active_profile_id)],
                None => !has_profile(self@.profiles, self@.active_profile_id),
            },
    {
        let mut i: usize = 0;
        while i < self.profiles.len()
            invariant
                i <= self.profiles.len(),
                forall|j: int| 0 <= j < i ==> self@.profiles[j].id != self@.active_profile_id,
            decreases self.profiles.len() - i,
        {
            if same_text(self.profiles[i].id.as_str(), self.active_profile_id.as_str()) {
                proof {
                    assert(self@.profiles[i as int] == self.profiles@[i as int]@);
                    lemma_active_index_is(self@.profiles, self@.active_profile_id, i as int);
                }
                return Some(&self.profiles[i]);
            }
            i = i + 1;
        }
        None
    }

    /// How long to wait before the next cycle.
    pub fn sync_interval_secs(&self) -> (r: u64)
        ensures
            r == spec_sync_interval(self@),
    {
        match self.get_active_profile() {
            Some(p) => p.sync_interval_secs,
            None => 3600,
        }
    }

    /// Records that a cycle failed: the active profile's status becomes
    /// `Error` and the failure is logged; nothing changes when no profile id is
    /// active. Returns the logged line.
    pub fn record_sync_failure(&mut self, e: &str) -> (r: Option<LogMessage>)
        requires
            old(self).wf(),
        ensures
            final(self).wf(),
            old(self)@.active_profile_id.len() == 0 ==> r is None && final(self)@ == old(self)@,
            old(self)@.active_profile_id.len() > 0 ==> (r matches Some(line) && {
                let id = old(self)@.active_profile_id;
                &&& says(line@, "ERROR"@, sync_failed_message(e@))
                &&& final(self)@ == with_profile_state(
                    old(self)@,
                    id,
                    logged(with_status(state_of(old(self)@.profile_states, id), "Error"@), line@),
                )
            }),
    {
        if self.active_profile_id.as_str().is_empty() {
            return None;
        }
        let active = self.active_profile_id.clone();
        let msg = crate::text::join2("Sync failed: ", e);
        let i = self.ensure_state(active.as_str());
        let ghost mid = self.profile_states@;
        self.profile_states[i].1.status = owned("Error");
        let line = self.profile_states[i].1.add_log("ERROR", msg.as_str());
        proof {
            lemma_replace_state(mid, self.profile_states@, i as int);
        }
        Some(line)
    }

    /// A request for a manual sync in mode `mode`: refused while the active
    /// profile is syncing; otherwise the next cycle is set to `mode` and the
    /// request is logged.
    pub fn request_manual_sync(&mut self, mode: SyncMode) -> (r: ManualSync)
        requires
            old(self).wf(),
        ensures
            final(self).wf(),
            state_of(old(self)@.profile_states, old(self)@.active_profile_id).status == "Syncing"@ ==> (
                r matches ManualSync::Refused && final(self)@ == old(self)@),
            state_of(old(self)@.profile_states, old(self)@.active_profile_id).status != "Syncing"@ ==> (
                r matches ManualSync::Accepted(line) && {
                &&& says(line@, "INFO"@, manual_sync_message(mode))
                &&& final(self)@ == log_to_active(SyncStateView { next_sync_mode: mode, ..old(self)@ }, line@)
            }),
    {
        let busy = match self.state_index(self.active_profile_id.as_str()) {
            Some(i) => {
                proof {
                    let es = entry_views(self.profile_states@);
                    assert(es[i as int].0 == self.active_profile_id@);
                    lemma_states_map_lookup(es, i as int);
                }
                same_text(self.profile_states[i].1.status.as_str(), "Syncing")
            },
            None => {
                proof {
                    let es = entry_views(self.profile_states@);
                    assert forall|k: int| 0 <= k < es.len() implies es[k].0 != self.active_profile_id@ by {
                        assert(es[k].0 == self.profile_states@[k].0@);
                    }
                    lemma_states_map_absent(es, self.active_profile_id@);
                    reveal_strlit("Idle");
                    reveal_strlit("Syncing");
                    assert("Idle"@ != "Syncing"@) by {
                        assert("Idle"@.len() != "Syncing"@.len());
                    }
                }
                false
            },
        };
        if busy {
            return ManualSync::Refused;
        }
        self.next_sync_mode = mode;
        let msg = crate::text::join2("Manual sync requested via Web API. Mode: ", mode.name());
        let line = self.add_log_to_active("INFO", msg.as_str());
        ManualSync::Accepted(line)
    }
}


impl SyncState {
    /// Sets the status of profile `id` (its state made fresh when there was
    /// none) and logs a line to it; returns the line.
    pub fn set_status_and_log(&mut self, id: &str, status: &str, level: &str, msg: &str) -> (r: LogMessage)
        requires
            old(self).wf(),
        ensures
            final(self).wf(),
            says(r@, level@, msg@),
            final(self)@ == with_profile_state(
                old(self)@,
                id@,
                logged(with_status(state_of(old(self)@.profile_states, id@), status@), r@),
            ),
    {
        let i = self.ensure_state(id);
        let ghost mid = self.profile_states@;
        self.profile_states[i].1.status = owned(status);
        let line = self.profile_states[i].1.add_log(level, msg);
        proof {
            lemma_replace_state(mid, self.profile_states@, i as int);
        }
        line
    }

    /// Logs a line to profile `id` (its state made fresh when there was none);
    /// returns the line.
    pub fn log_to_profile(&mut self, id: &str, level: &str, msg: &str) -> (r: LogMessage)
        requires
            old(self).wf(),
        ensures
            final(self).wf(),
            says(r@, level@, msg@),
            final(self)@ == with_profile_state(
                old(self)@,
                id@,
                logged(state_of(old(self)@.profile_states, id@), r@),
            ),
    {
        let i = self.ensure_state(id);
        let ghost mid = self.profile_states@;
        let line = self.profile_states[i].1.add_log(level, msg);
        proof {
            lemma_replace_state(mid, self.profile_states@, i as int);
        }
        line
    }
}


/// The mode named on the command line, already lowercased: `missing`,
/// `updates`, anything else a full sync.
pub open spec fn mode_of_lowercase(name: Seq<char>) -> SyncMode {
    if name == "missing"@ {
        SyncMode::MissingOnly
    } else if name == "updates"@ {
        SyncMode::UpdatesOnly
    } else {
        SyncMode::Full
    }
}

impl SyncMode {
    /// The mode for a lowercased command-line name.
    pub fn from_lowercase_name(name: &str) -> (r: SyncMode)
        ensures
            r == mode_of_lowercase(name@),
    {
        if same_text(name, "missing") {
            SyncMode::MissingOnly
        } else if same_text(name, "updates") {
            SyncMode::UpdatesOnly
        } else {
            SyncMode::Full
        }
    }

    /// The mode named on the command line, in any case.
    pub fn from_cli_name(name: &str) -> (r: SyncMode)
        ensures
            r == mode_of_lowercase(lowercase_text(name@)),
    {
        let lower = to_lowercase(name);
        SyncMode::from_lowercase_name(lower.as_str())
    }
}


impl SyncState {
    /// Takes over a saved configuration: its profiles, active id and web
    /// address; every profile keeps its state, and new ones start fresh.
    pub fn adopt_config(&mut self, config: Config)
        requires
            old(self).wf(),
        ensures
            final(self).wf(),
            final(self)@ == (SyncStateView {
                profiles: config@.profiles,
                active_profile_id: config@.active_profile_id,
                web_host: config@.web_host,
                web_port: config@.web_port,
                profile_states: Map::new(
                    |k: Seq<char>| old(self)@.profile_states.contains_key(k) || has_profile(config@.profiles, k),
                    |k: Seq<char>| state_of(old(self)@.profile_states, k),
                ),
                ..old(self)@
            }),
    {
        let ghost ps = config@.profiles;
        let ghost m0 = old(self)@.profile_states;
        let mut i: usize = 0;
        while i < config.profiles.len()
            invariant
                i <= config.profiles.len(),
                profile_views(config.profiles@) == ps,
                self.wf(),
                self@ == (SyncStateView {
                    profile_states: self@.profile_states,
                    ..old(self)@
                }),
                self@.profile_states =~= Map::new(
                    |k: Seq<char>| m0.contains_key(k) || has_profile(ps.subrange(0, i as int), k),
                    |k: Seq<char>| state_of(m0, k),
                ),
            decreases config.profiles.len() - i,
        {
            assert(config.profiles@[i as int]@ == ps[i as int]);
            let _ = self.ensure_state(config.profiles[i].id.as_str());
            proof {
                lemma_has_profile_extend(ps, i as int);
            }
            i = i + 1;
        }
        assert(ps.subrange(0, i as int) =~= ps);
        self.profiles = config.profiles;
        self.active_profile_id = config.active_profile_id;
        self.web_host = config.web_host;
        self.web_port = config.web_port;
    }
}


pub open spec fn config_saved_message() -> Seq<char> {
    "Configuration updated successfully via Web UI."@
}

pub open spec fn config_save_failed_message(e: Seq<char>) -> Seq<char> {
    "Failed to save config: "@ + e
}

impl SyncState {
    /// Logs to the active profile how saving the configuration from the web
    /// dashboard went; returns the line.
    pub fn log_config_update(&mut self, saved: &Result<(), String>) -> (r: LogMessage)
        requires
            old(self).wf(),
        ensures
            final(self).wf(),
            final(self)@ == log_to_active(old(self)@, r@),
            saved is Ok ==> says(r@, "INFO"@, config_saved_message()),
            saved matches Err(e) ==> says(r@, "ERROR"@, config_save_failed_message(e@)),
    {
        match saved {
            Ok(()) => self.add_log_to_active("INFO", "Configuration updated successfully via Web UI."),
            Err(e) => {
                let msg = crate::text::join2("Failed to save config: ", e.as_str());
                self.add_log_to_active("ERROR", msg.as_str())
            },
        }
    }
}

} // verus!
