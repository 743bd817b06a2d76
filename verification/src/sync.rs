//! The decisions of a sync cycle: which profile to sync and how, which
//! repositories to process, what each one needs, and what is recorded.

use vstd::prelude::*;
use crate::config::{SyncProfile, has_profile};
use crate::state::{
    SyncState, SyncStateView, SyncMode, LogMessage, LogMessageView, says, logged, log_to_active,
    with_status, with_profile_state, state_of, active_index, mode_name, RepoStatus, RepoStatusView,
    ProfileSyncStateView, Timestamp, clock_now, repo_views, lemma_replace_state,
};
use crate::text::{
    owned, to_lowercase, lowercase_text, same_text, decimal, decimal_text, join2, join3, starts_with,
    trim_end_matching, trim_end_char, utf8_lossy, utf8_lossy_text, strings_text, opt_text,
};
use crate::paths::{join_text, join_text_spec};

verus! {

/// Where the list of repositories of a cycle comes from.
#[derive(Clone, Copy, Debug, PartialEq, Eq, Structural)]
pub enum RepoSource {
    /// The directories under the profile's local path.
    LocalDisk,
    /// The GitHub API.
    Github,
    /// The GitLab API of the profile's domain.
    Gitlab,
}

/// What a cycle will do: the profile (as it was at the start), the mode, and
/// where the repository list comes from.
#[derive(Clone, Debug)]
pub struct SyncPlan {
    pub profile: SyncProfile,
    pub mode: SyncMode,
    pub source: RepoSource,
}

/// The start of a cycle.
#[derive(Clone, Debug)]
pub enum SyncStart {
    /// Nothing to do; this warning was logged.
    Skipped(LogMessage),
    /// Run the plan; this line was logged.
    Run(SyncPlan, LogMessage),
}

pub open spec fn no_profile_message() -> Seq<char> {
    "No active sync profile configured. Sync skipped."@
}

pub open spec fn no_credentials_message(name: Seq<char>) -> Seq<char> {
    "Credentials not configured for profile '"@ + name + "'. Sync skipped."@
}

pub open spec fn no_path_message(name: Seq<char>) -> Seq<char> {
    "Local storage path not configured for profile '"@ + name + "'. Sync skipped."@
}

pub open spec fn start_message(name: Seq<char>, provider: Seq<char>, mode: SyncMode) -> Seq<char> {
    "Starting sync for profile '"@ + name + "' ("@ + provider + ") (Mode: "@ + mode_name(mode) + ")..."@
}

/// Where the repository list comes from: local disk for `UpdatesOnly`,
/// otherwise GitLab when the provider is `gitlab` in any case, else GitHub.
pub open spec fn source_for(mode: SyncMode, provider: Seq<char>) -> RepoSource {
    if mode == SyncMode::UpdatesOnly {
        RepoSource::LocalDisk
    } else if lowercase_text(provider) == "gitlab"@ {
        RepoSource::Gitlab
    } else {
        RepoSource::Github
    }
}

/// The shared state once a cycle has taken the requested mode: the next one is `Full`.
pub open spec fn mode_consumed(s: SyncStateView) -> SyncStateView {
    SyncStateView { next_sync_mode: SyncMode::Full, ..s }
}

/// Where the repository list comes from, for a mode and a provider name
/// already lowercased.
pub fn repo_source_lowercase(mode: SyncMode, lower_provider: &str) -> (r: RepoSource)
    ensures
        r == (if mode == SyncMode::UpdatesOnly {
            RepoSource::LocalDisk
        } else if lower_provider@ == "gitlab"@ {
            RepoSource::Gitlab
        } else {
            RepoSource::Github
        }),
{
    if mode == SyncMode::UpdatesOnly {
        RepoSource::LocalDisk
    } else if same_text(lower_provider, "gitlab") {
        RepoSource::Gitlab
    } else {
        RepoSource::Github
    }
}

/// Where the repository list comes from, for a mode and a provider name.
pub fn repo_source(mode: SyncMode, provider: &str) -> (r: RepoSource)
    ensures
        r == source_for(mode, provider@),
{
    let lower = to_lowercase(provider);
    repo_source_lowercase(mode, lower.as_str())
}

fn start_text(name: &str, provider: &str, mode: SyncMode) -> (r: String)
    ensures
        r@ == start_message(name@, provider@, mode),
{
    let mut m = owned("Starting sync for profile '");
    m.append(name);
    m.append("' (");
    m.append(provider);
    m.append(") (Mode: ");
    m.append(mode.name());
    m.append(")...");
    m
}

impl SyncState {
    /// Starts a cycle: takes the requested mode (the next one is `Full`), and
    /// skips with a warning when no profile is active, when the active one has
    /// no username or token, or no local path; otherwise marks the profile
    /// `Syncing`, logs the start, and returns the plan.
    pub fn begin_sync(&mut self) -> (r: SyncStart)
        requires
            old(self).wf(),
        ensures
            final(self).wf(),
            ({
                let s0 = old(self)@;
                let s1 = mode_consumed(s0);
                let p = s0.profiles[active_index(s0.profiles, s0.active_profile_id)];
                if !has_profile(s0.profiles, s0.active_profile_id) {
                    r matches SyncStart::Skipped(line) && says(line@, "WARN"@, no_profile_message())
                        && final(self)@ == log_to_active(s1, line@)
                } else if p.username.len() == 0 || p.token.len() == 0 {
                    r matches SyncStart::Skipped(line) && says(line@, "WARN"@, no_credentials_message(p.name))
                        && final(self)@ == log_to_active(s1, line@)
                } else if p.local_path.len() == 0 {
                    r matches SyncStart::Skipped(line) && says(line@, "WARN"@, no_path_message(p.name))
                        && final(self)@ == log_to_active(s1, line@)
                } else {
                    r matches SyncStart::Run(plan, line) && {
                        &&& plan.profile@ == p
                        &&& plan.mode == s0.next_sync_mode
                        &&& plan.source == source_for(s0.next_sync_mode, p.provider)
                        &&& says(line@, "INFO"@, start_message(p.name, p.provider, s0.next_sync_mode))
                        &&& final(self)@ == with_profile_state(
                            s1,
                            p.id,
                            logged(with_status(state_of(s1.profile_states, p.id), "Syncing"@), line@),
                        )
                    }
                }
            }),
    {
        let mode = self.next_sync_mode;
        self.next_sync_mode = SyncMode::Full;
        let profile = match self.get_active_profile() {
            Some(p) => p.duplicate(),
            None => {
                let line = self.add_log_to_active("WARN", "No active sync profile configured. Sync skipped.");
                return SyncStart::Skipped(line);
            },
        };
        if profile.username.as_str().is_empty() || profile.token.as_str().is_empty() {
            let mut m = owned("Credentials not configured for profile '");
            m.append(profile.name.as_str());
            m.append("'. Sync skipped.");
            let line = self.add_log_to_active("WARN", m.as_str());
            return SyncStart::Skipped(line);
        }
        if profile.local_path.as_str().is_empty() {
            let mut m = owned("Local storage path not configured for profile '");
            m.append(profile.name.as_str());
            m.append("'. Sync skipped.");
            let line = self.add_log_to_active("WARN", m.as_str());
            return SyncStart::Skipped(line);
        }
        let msg = start_text(profile.name.as_str(), profile.provider.as_str(), mode);
        let line = self.set_status_and_log(profile.id.as_str(), "Syncing", "INFO", msg.as_str());
        let source = repo_source(mode, profile.provider.as_str());
        SyncStart::Run(SyncPlan { profile, mode, source }, line)
    }
}


/// A repository to process: its short name, `owner/name`, clone URL and visibility.
#[derive(Clone, Debug)]
pub struct RemoteRepo {
    pub name: String,
    pub full_name: String,
    pub clone_url: String,
    pub private: bool,
}

pub struct RemoteRepoView {
    pub name: Seq<char>,
    pub full_name: Seq<char>,
    pub clone_url: Seq<char>,
    pub private: bool,
}

impl View for RemoteRepo {
    type V = RemoteRepoView;

    open spec fn view(&self) -> RemoteRepoView {
        RemoteRepoView {
            name: self.name@,
            full_name: self.full_name@,
            clone_url: self.clone_url@,
            private: self.private,
        }
    }
}

pub open spec fn remote_views(rs: Seq<RemoteRepo>) -> Seq<RemoteRepoView> {
    rs.map_values(|r: RemoteRepo| r@)
}

/// Whether some repository status in `rs` is for `full_name`.
pub open spec fn has_repo(rs: Seq<RepoStatusView>, full_name: Seq<char>) -> bool {
    exists|i: int| 0 <= i < rs.len() && rs[i].full_name == full_name
}

/// Whether `i` is the first position in `rs` of the status of `full_name`.
pub open spec fn first_repo_with(rs: Seq<RepoStatusView>, full_name: Seq<char>, i: int) -> bool {
    &&& 0 <= i < rs.len()
    &&& rs[i].full_name == full_name
    &&& forall|j: int| 0 <= j < i ==> rs[j].full_name != full_name
}

pub open spec fn repo_index(rs: Seq<RepoStatusView>, full_name: Seq<char>) -> int {
    choose|i: int| first_repo_with(rs, full_name, i)
}

/// The status recorded for a repository seen for the first time.
pub open spec fn idle_status(r: RemoteRepoView) -> RepoStatusView {
    RepoStatusView {
        name: r.name,
        full_name: r.full_name,
        status: "Idle"@,
        error: None,
        last_sync: None,
        is_private: r.private,
    }
}

/// The repository statuses after the repositories of a cycle are registered:
/// each one not yet known gets an idle status, in order; known ones are kept.
pub open spec fn registered(rs: Seq<RepoStatusView>, remote: Seq<RemoteRepoView>) -> Seq<RepoStatusView>
    decreases remote.len(),
{
    if remote.len() == 0 {
        rs
    } else {
        let prev = registered(rs, remote.drop_last());
        if has_repo(prev, remote.last().full_name) {
            prev
        } else {
            prev.push(idle_status(remote.last()))
        }
    }
}

/// The statuses with the first one for `full_name` (if any) given the status text `st`.
pub open spec fn with_repo_status(rs: Seq<RepoStatusView>, full_name: Seq<char>, st: Seq<char>) -> Seq<RepoStatusView> {
    if has_repo(rs, full_name) {
        let i = repo_index(rs, full_name);
        rs.update(i, RepoStatusView { status: st, ..rs[i] })
    } else {
        rs
    }
}

pub open spec fn with_repos(p: ProfileSyncStateView, rs: Seq<RepoStatusView>) -> ProfileSyncStateView {
    ProfileSyncStateView { repos: rs, ..p }
}

pub open spec fn found_message(n: nat) -> Seq<char> {
    "Found "@ + decimal_text(n) + " repositories to process."@
}

pub open spec fn fetch_failed_message(e: Seq<char>) -> Seq<char> {
    "Failed to fetch repository list: "@ + e
}

/// `[position/total] `, the prefix of the per-repository log lines.
pub open spec fn progress_prefix(position: nat, total: nat) -> Seq<char> {
    "["@ + decimal_text(position) + "/"@ + decimal_text(total) + "] "@
}

pub open spec fn bool_text(b: bool) -> Seq<char> {
    if b { "true"@ } else { "false"@ }
}

pub open spec fn skip_message(position: nat, total: nat, full_name: Seq<char>) -> Seq<char> {
    progress_prefix(position, total) + "Skipping "@ + full_name + " (already exists locally)."@
}

pub open spec fn syncing_message(position: nat, total: nat, full_name: Seq<char>, private: bool) -> Seq<char> {
    progress_prefix(position, total) + "Syncing "@ + full_name + " (Private: "@ + bool_text(private) + ")..."@
}

/// What to do with one repository of a cycle.
#[derive(Clone, Debug)]
pub enum RepoStep {
    /// Leave it: it exists locally and the cycle only clones missing ones.
    Skip(LogMessage),
    /// Clone it (when missing) or fetch and pull it (when present).
    Sync(LogMessage),
}

/// Whether the cycle leaves a repository alone.
pub open spec fn skips(mode: SyncMode, exists: bool) -> bool {
    exists && mode == SyncMode::MissingOnly
}

/// The status text of a repository about to be synced.
pub open spec fn sync_status_text(exists: bool) -> Seq<char> {
    if exists { "Pulling"@ } else { "Cloning"@ }
}

proof fn lemma_first_repo_unique(rs: Seq<RepoStatusView>, full_name: Seq<char>, i: int)
    requires
        first_repo_with(rs, full_name, i),
    ensures
        has_repo(rs, full_name),
        repo_index(rs, full_name) == i,
{
    let k = choose|k: int| first_repo_with(rs, full_name, k);
    if k < i {
        assert(rs[k].full_name != full_name);
    } else if i < k {
        assert(rs[i].full_name != full_name);
    }
}

fn first_repo_position(rs: &Vec<RepoStatus>, full_name: &str) -> (r: Option<usize>)
    ensures
        match r {
            Some(i) => first_repo_with(repo_views(rs@), full_name@, i as int),
            None => !has_repo(repo_views(rs@), full_name@),
        },
{
    let mut i: usize = 0;
    while i < rs.len()
        invariant
            i <= rs.len(),
            forall|j: int| 0 <= j < i ==> repo_views(rs@)[j].full_name != full_name@,
        decreases rs.len() - i,
    {
        if same_text(rs[i].full_name.as_str(), full_name) {
            return Some(i);
        }
        i = i + 1;
    }
    None
}

fn set_repo_status(rs: &mut Vec<RepoStatus>, full_name: &str, st: &str)
    ensures
        repo_views(final(rs)@) == with_repo_status(repo_views(old(rs)@), full_name@, st@),
{
    match first_repo_position(rs, full_name) {
        Some(i) => {
            let ghost before = repo_views(rs@);
            rs[i].status = owned(st);
            proof {
                lemma_first_repo_unique(before, full_name@, i as int);
                assert(repo_views(rs@) =~= before.update(i as int, RepoStatusView { status: st@, ..before[i as int] }));
            }
        },
        None => {},
    }
}

fn progress_text(position: usize, total: usize) -> (r: String)
    ensures
        r@ == progress_prefix(position as nat, total as nat),
{
    let mut m = owned("[");
    let a = decimal(position as u64);
    let b = decimal(total as u64);
    m.append(a.as_str());
    m.append("/");
    m.append(b.as_str());
    m.append("] ");
    m
}

impl RemoteRepo {
    /// The status recorded for a repository seen for the first time.
    pub fn idle_status(&self) -> (r: RepoStatus)
        ensures
            r@ == idle_status(self@),
    {
        RepoStatus {
            name: self.name.clone(),
            full_name: self.full_name.clone(),
            status: owned("Idle"),
            error: None,
            last_sync: None,
            is_private: self.private,
        }
    }
}

/// What a repository step does: the step for the repository at `index` (of
/// `total`) of a cycle on profile `id`, taking the shared state `s0` to `s1`.
pub open spec fn repo_step_holds(
    s0: SyncStateView,
    s1: SyncStateView,
    id: Seq<char>,
    index: nat,
    total: nat,
    repo: RemoteRepoView,
    exists: bool,
    mode: SyncMode,
    r: RepoStep,
) -> bool {
    let p = state_of(s0.profile_states, id);
    if skips(mode, exists) {
        r matches RepoStep::Skip(line) && says(
            line@,
            "INFO"@,
            skip_message(index + 1, total, repo.full_name),
        ) && s1 == with_profile_state(
            s0,
            id,
            with_repos(logged(p, line@), with_repo_status(p.repos, repo.full_name, "Success"@)),
        )
    } else {
        r matches RepoStep::Sync(line) && says(
            line@,
            "INFO"@,
            syncing_message(index + 1, total, repo.full_name, repo.private),
        ) && s1 == with_profile_state(
            s0,
            id,
            with_repos(
                logged(p, line@),
                with_repo_status(p.repos, repo.full_name, sync_status_text(exists)),
            ),
        )
    }
}

impl SyncState {
    /// A failed fetch of the repository list: profile `id` becomes `Error`
    /// and the failure is logged; returns the line.
    pub fn record_fetch_failure(&mut self, id: &str, e: &str) -> (r: LogMessage)
        requires
            old(self).wf(),
        ensures
            final(self).wf(),
            says(r@, "ERROR"@, fetch_failed_message(e@)),
            final(self)@ == with_profile_state(
                old(self)@,
                id@,
                logged(with_status(state_of(old(self)@.profile_states, id@), "Error"@), r@),
            ),
    {
        let msg = join2("Failed to fetch repository list: ", e);
        self.set_status_and_log(id, "Error", "ERROR", msg.as_str())
    }

    /// Registers the repositories of a cycle with profile `id`: logs how many
    /// there are, and gives each one not yet known an idle status.
    pub fn register_repos(&mut self, id: &str, repos: &Vec<RemoteRepo>) -> (r: LogMessage)
        requires
            old(self).wf(),
        ensures
            final(self).wf(),
            says(r@, "INFO"@, found_message(repos@.len())),
            final(self)@ == with_profile_state(
                old(self)@,
                id@,
                ({
                    let p = logged(state_of(old(self)@.profile_states, id@), r@);
                    with_repos(p, registered(p.repos, remote_views(repos@)))
                }),
            ),
    {
        let mut msg = owned("Found ");
        let n = decimal(repos.len() as u64);
        msg.append(n.as_str());
        msg.append(" repositories to process.");
        let line = self.log_to_profile(id, "INFO", msg.as_str());
        let i = self.ensure_state(id);
        let ghost mid = self.profile_states@;
        let ghost start = repo_views(mid[i as int].1.repos@);
        let mut list: Vec<RepoStatus> = Vec::new();
        std::mem::swap(&mut list, &mut self.profile_states[i].1.repos);
        let mut k: usize = 0;
        while k < repos.len()
            invariant
                k <= repos.len(),
                repo_views(list@) == registered(start, remote_views(repos@).subrange(0, k as int)),
            decreases repos.len() - k,
        {
            let ghost prev = repo_views(list@);
            let ghost rv = remote_views(repos@);
            assert(rv.subrange(0, k + 1).drop_last() =~= rv.subrange(0, k as int));
            assert(rv.subrange(0, k + 1).last() == repos@[k as int]@);
            if first_repo_position(&list, repos[k].full_name.as_str()).is_none() {
                list.push(repos[k].idle_status());
                assert(repo_views(list@) =~= prev.push(idle_status(repos@[k as int]@)));
            }
            k = k + 1;
        }
        assert(remote_views(repos@).subrange(0, repos.len() as int) =~= remote_views(repos@));
        self.profile_states[i].1.repos = list;
        proof {
            lemma_replace_state(mid, self.profile_states@, i as int);
        }
        line
    }

    /// The step for the repository at `index` (of `total`) of a cycle on
    /// profile `id`: skipped, and marked `Success`, when it exists locally and
    /// the mode only clones missing ones; otherwise marked `Pulling` (present)
    /// or `Cloning` (missing). The step is logged.
    pub fn repo_step(
        &mut self,
        id: &str,
        index: usize,
        total: usize,
        repo: &RemoteRepo,
        exists: bool,
        mode: SyncMode,
    ) -> (r: RepoStep)
        requires
            old(self).wf(),
            index < total,
        ensures
            final(self).wf(),
            repo_step_holds(old(self)@, final(self)@, id@, index as nat, total as nat, repo@, exists, mode, r),
    {
        let skip = exists && mode == SyncMode::MissingOnly;
        let mut msg = progress_text(index + 1, total);
        if skip {
            msg.append("Skipping ");
            msg.append(repo.full_name.as_str());
            msg.append(" (already exists locally).");
        } else {
            msg.append("Syncing ");
            msg.append(repo.full_name.as_str());
            msg.append(" (Private: ");
            msg.append(if repo.private { "true" } else { "false" });
            msg.append(")...");
        }
        let status = if skip {
            "Success"
        } else if exists {
            "Pulling"
        } else {
            "Cloning"
        };
        let i = self.ensure_state(id);
        let ghost mid = self.profile_states@;
        set_repo_status(&mut self.profile_states[i].1.repos, repo.full_name.as_str(), status);
        let line = self.profile_states[i].1.add_log("INFO", msg.as_str());
        proof {
            lemma_replace_state(mid, self.profile_states@, i as int);
            assert(self.profile_states@[i as int].1@ =~= with_repos(
                logged(mid[i as int].1@, line@),
                with_repo_status(mid[i as int].1@.repos, repo@.full_name, status@),
            ));
        }
        if skip {
            RepoStep::Skip(line)
        } else {
            RepoStep::Sync(line)
        }
    }
}


pub open spec fn synced_message(full_name: Seq<char>) -> Seq<char> {
    "Successfully synced "@ + full_name
}

pub open spec fn repo_failed_message(full_name: Seq<char>, e: Seq<char>) -> Seq<char> {
    "Failed to sync "@ + full_name + ": "@ + e
}

pub open spec fn result_text(r: Result<(), String>) -> Result<(), Seq<char>> {
    match r {
        Ok(()) => Ok(()),
        Err(e) => Err(e@),
    }
}

/// A repository status after a sync attempt at `at` with the given outcome.
pub open spec fn after_attempt(r: RepoStatusView, at: Timestamp, outcome: Result<(), Seq<char>>) -> RepoStatusView {
    match outcome {
        Ok(()) => RepoStatusView { status: "Success"@, error: None, last_sync: Some(at), ..r },
        Err(e) => RepoStatusView { status: "Failed"@, error: Some(e), last_sync: Some(at), ..r },
    }
}

/// The log line of a sync attempt: level and message.
pub open spec fn attempt_line(line: LogMessageView, full_name: Seq<char>, outcome: Result<(), Seq<char>>) -> bool {
    match outcome {
        Ok(()) => says(line, "INFO"@, synced_message(full_name)),
        Err(e) => says(line, "ERROR"@, repo_failed_message(full_name, e)),
    }
}

pub open spec fn completed_message() -> Seq<char> {
    "Sync cycle completed."@
}

/// What recording the outcome of syncing repository `full_name` of profile
/// `id` does, taking the shared state `s0` to `s1`.
pub open spec fn repo_result_holds(
    s0: SyncStateView,
    s1: SyncStateView,
    id: Seq<char>,
    full_name: Seq<char>,
    outcome: Result<(), Seq<char>>,
    r: Option<LogMessage>,
) -> bool {
    let p = state_of(s0.profile_states, id);
    if has_repo(p.repos, full_name) {
        r matches Some(line) && attempt_line(line@, full_name, outcome)
            && s1 == with_profile_state(
                s0,
                id,
                ({
                    let k = repo_index(p.repos, full_name);
                    with_repos(
                        logged(p, line@),
                        p.repos.update(k, after_attempt(p.repos[k], line@.timestamp, outcome)),
                    )
                }),
            )
    } else {
        r is None && s1 == with_profile_state(s0, id, p)
    }
}

impl SyncState {
    /// Records the outcome of syncing repository `full_name` of profile `id`:
    /// when the profile knows the repository, its first status gets the time
    /// (that of the logged line),
    /// `Success` (error cleared) or `Failed` (with the error), and the outcome
    /// is logged; otherwise nothing is recorded. Returns the logged line.
    pub fn record_repo_result(&mut self, id: &str, full_name: &str, outcome: &Result<(), String>) -> (r: Option<LogMessage>)
        requires
            old(self).wf(),
        ensures
            final(self).wf(),
            repo_result_holds(old(self)@, final(self)@, id@, full_name@, result_text(*outcome), r),
    {
        let i = self.ensure_state(id);
        let ghost mid = self.profile_states@;
        let ghost p = mid[i as int].1@;
        match first_repo_position(&self.profile_states[i].1.repos, full_name) {
            None => None,
            Some(k) => {
                let now = clock_now();
                let ghost before = repo_views(self.profile_states@[i as int].1.repos@);
                proof {
                    lemma_first_repo_unique(before, full_name@, k as int);
                }
                self.profile_states[i].1.repos[k].last_sync = Some(now);
                let line = match outcome {
                    Ok(()) => {
                        self.profile_states[i].1.repos[k].status = owned("Success");
                        self.profile_states[i].1.repos[k].error = None;
                        let msg = join2("Successfully synced ", full_name);
                        self.profile_states[i].1.add_log_at("INFO", msg.as_str(), now)
                    },
                    Err(e) => {
                        self.profile_states[i].1.repos[k].status = owned("Failed");
                        self.profile_states[i].1.repos[k].error = Some(e.clone());
                        let mut msg = join2("Failed to sync ", full_name);
                        msg.append(": ");
                        msg.append(e.as_str());
                        self.profile_states[i].1.add_log_at("ERROR", msg.as_str(), now)
                    },
                };
                proof {
                    lemma_replace_state(mid, self.profile_states@, i as int);
                    assert(repo_views(self.profile_states@[i as int].1.repos@) =~= p.repos.update(
                        k as int,
                        after_attempt(p.repos[k as int], now, result_text(*outcome)),
                    ));
                    assert(self.profile_states@[i as int].1@ =~= with_repos(
                        logged(p, line@),
                        p.repos.update(k as int, after_attempt(p.repos[k as int], now, result_text(*outcome))),
                    ));
                }
                Some(line)
            },
        }
    }

    /// Ends a cycle of profile `id`: its status becomes `Idle`, the time of the
    /// cycle is kept, and the end is logged. Returns the line.
    pub fn finish_sync(&mut self, id: &str) -> (r: LogMessage)
        requires
            old(self).wf(),
        ensures
            final(self).wf(),
            says(r@, "INFO"@, completed_message()),
            final(self)@ == with_profile_state(
                old(self)@,
                id@,
                logged(
                    ProfileSyncStateView {
                        status: "Idle"@,
                        last_sync_time: Some(r@.timestamp),
                        ..state_of(old(self)@.profile_states, id@)
                    },
                    r@,
                ),
            ),
    {
        let i = self.ensure_state(id);
        let ghost mid = self.profile_states@;
        let now = clock_now();
        self.profile_states[i].1.status = owned("Idle");
        self.profile_states[i].1.last_sync_time = Some(now);
        let line = self.profile_states[i].1.add_log_at("INFO", "Sync cycle completed.", now);
        proof {
            lemma_replace_state(mid, self.profile_states@, i as int);
        }
        line
    }
}


/// The page of the GitHub API listing the user's repositories, 100 per page.
pub open spec fn github_repos_url_text(page: nat) -> Seq<char> {
    "https://api.github.com/user/repos?per_page=100&page="@ + decimal_text(page)
}

pub fn github_repos_url(page: u64) -> (r: String)
    ensures
        r@ == github_repos_url_text(page as nat),
{
    let n = decimal(page);
    join2("https://api.github.com/user/repos?per_page=100&page=", n.as_str())
}

/// The base URL of a GitLab instance: the domain without trailing slashes,
/// with `https://` in front unless it already names a scheme.
pub open spec fn gitlab_base_url_text(domain: Seq<char>) -> Seq<char> {
    if "http://"@.is_prefix_of(domain) || "https://"@.is_prefix_of(domain) {
        trim_end_char(domain, '/')
    } else {
        "https://"@ + trim_end_char(domain, '/')
    }
}

pub fn gitlab_base_url(domain: &str) -> (r: String)
    ensures
        r@ == gitlab_base_url_text(domain@),
{
    let trimmed = trim_end_matching(domain, '/');
    if starts_with(domain, "http://") || starts_with(domain, "https://") {
        trimmed
    } else {
        join2("https://", trimmed.as_str())
    }
}

/// The page of the GitLab API listing the projects the user is a member of.
pub open spec fn gitlab_projects_url_text(base: Seq<char>, page: nat) -> Seq<char> {
    base + "/api/v4/projects?membership=true&per_page=100&page="@ + decimal_text(page)
}

pub fn gitlab_projects_url(base: &str, page: u64) -> (r: String)
    ensures
        r@ == gitlab_projects_url_text(base@, page as nat),
{
    let n = decimal(page);
    join3(base, "/api/v4/projects?membership=true&per_page=100&page=", n.as_str())
}

/// A GitLab project as a repository: private unless its visibility is `public`.
pub fn gitlab_project_repo(name: String, path_with_namespace: String, http_url_to_repo: String, visibility: &str) -> (r: RemoteRepo)
    ensures
        r@ == (RemoteRepoView {
            name: name@,
            full_name: path_with_namespace@,
            clone_url: http_url_to_repo@,
            private: visibility@ != "public"@,
        }),
{
    RemoteRepo {
        name,
        full_name: path_with_namespace,
        clone_url: http_url_to_repo,
        private: !same_text(visibility, "public"),
    }
}

/// A repository found on local disk as `owner/name` (with a `.git` directory):
/// public, cloned from GitHub.
pub open spec fn local_repo_view(owner: Seq<char>, name: Seq<char>) -> RemoteRepoView {
    RemoteRepoView {
        name: name,
        full_name: owner + "/"@ + name,
        clone_url: "https://github.com/"@ + owner + "/"@ + name + ".git"@,
        private: false,
    }
}

pub fn local_repo(owner: &str, name: &str) -> (r: RemoteRepo)
    ensures
        r@ == local_repo_view(owner@, name@),
{
    let mut url = join3("https://github.com/", owner, "/");
    url.append(name);
    url.append(".git");
    RemoteRepo { name: owned(name), full_name: join3(owner, "/", name), clone_url: url, private: false }
}

/// The number of repositories a provider returns per page.
pub open spec fn page_size() -> nat {
    100
}

/// The paging through a provider's repository list: the page to ask for
/// next, what was collected so far, and whether the list is complete.
#[derive(Clone, Debug)]
pub struct RepoPager {
    pub page: u64,
    pub repos: Vec<RemoteRepo>,
    pub done: bool,
}

impl RepoPager {
    /// Starts at page 1 with nothing collected.
    pub fn new() -> (r: RepoPager)
        ensures
            r.page == 1,
            r.repos@.len() == 0,
            !r.done,
    {
        RepoPager { page: 1, repos: Vec::new(), done: false }
    }

    /// Takes in one page: an empty page ends the list; otherwise its
    /// repositories are appended, and a page shorter than 100 ends the list,
    /// while a full one moves on to the next page. Returns whether to ask for
    /// another page.
    pub fn accept_page(&mut self, batch: Vec<RemoteRepo>) -> (more: bool)
        requires
            !old(self).done,
            old(self).page < u64::MAX,
        ensures
            more == !final(self).done,
            batch@.len() == 0 ==> final(self).done && final(self).repos@ == old(self).repos@
                && final(self).page == old(self).page,
            batch@.len() > 0 ==> final(self).repos@ == old(self).repos@ + batch@,
            0 < batch@.len() < page_size() ==> final(self).done && final(self).page == old(self).page,
            batch@.len() >= page_size() ==> !final(self).done && final(self).page == old(self).page + 1,
    {
        let count = batch.len();
        if count == 0 {
            self.done = true;
            return false;
        }
        let mut b = batch;
        self.repos.append(&mut b);
        if count < 100 {
            self.done = true;
            false
        } else {
            self.page = self.page + 1;
            true
        }
    }
}

/// Where a repository is kept: `full_name` (owner/name) under the local path.
pub fn repo_dir(local_path: &str, full_name: &str) -> (r: String)
    ensures
        r@ == join_text_spec(local_path@, full_name@),
{
    join_text(local_path, full_name)
}

/// The git operations that bring one repository up to date.
#[derive(Clone, Copy, Debug, PartialEq, Eq, Structural)]
pub enum GitStep {
    /// `git fetch --all` in the repository.
    Fetch,
    /// `git pull` in the repository.
    Pull,
    /// `git clone <url> <dir>`.
    Clone,
}

/// What to run for a repository: fetch then pull when it exists, else clone.
pub open spec fn git_steps_spec(exists: bool) -> Seq<GitStep> {
    if exists {
        seq![GitStep::Fetch, GitStep::Pull]
    } else {
        seq![GitStep::Clone]
    }
}

pub fn git_steps(exists: bool) -> (r: Vec<GitStep>)
    ensures
        r@ == git_steps_spec(exists),
{
    let mut v: Vec<GitStep> = Vec::new();
    if exists {
        v.push(GitStep::Fetch);
        v.push(GitStep::Pull);
    } else {
        v.push(GitStep::Clone);
    }
    assert(v@ =~= git_steps_spec(exists));
    v
}

/// The credential helper handed to git on its command line, so that the token
/// is never written into a repository's configuration.
pub open spec fn credential_config_text(username: Seq<char>, token: Seq<char>) -> Seq<char> {
    "credential.helper=!f() { echo username="@ + username + "; echo password="@ + token + "; }; f"@
}

pub fn credential_config(username: &str, token: &str) -> (r: String)
    ensures
        r@ == credential_config_text(username@, token@),
{
    let mut m = join3("credential.helper=!f() { echo username=", username, "; echo password=");
    m.append(token);
    m.append("; }; f");
    m
}

pub open spec fn step_name(step: GitStep) -> Seq<char> {
    match step {
        GitStep::Fetch => "fetch"@,
        GitStep::Pull => "pull"@,
        GitStep::Clone => "clone"@,
    }
}

/// The arguments of `git` for a step: the credential helper first, then the
/// subcommand; a clone names the URL and the target directory.
pub open spec fn git_args_text(step: GitStep, config: Seq<char>, url: Seq<char>, dir: Seq<char>) -> Seq<Seq<char>> {
    match step {
        GitStep::Fetch => seq!["-c"@, config, "fetch"@, "--all"@],
        GitStep::Pull => seq!["-c"@, config, "pull"@],
        GitStep::Clone => seq!["-c"@, config, "clone"@, url, dir],
    }
}

/// Whether a step runs inside the repository's directory (a clone runs anywhere).
pub open spec fn runs_in_repo(step: GitStep) -> bool {
    step != GitStep::Clone
}

impl GitStep {
    pub fn name(&self) -> (r: &'static str)
        ensures
            r@ == step_name(*self),
    {
        match self {
            GitStep::Fetch => "fetch",
            GitStep::Pull => "pull",
            GitStep::Clone => "clone",
        }
    }

    pub fn runs_in_repo(&self) -> (r: bool)
        ensures
            r == runs_in_repo(*self),
    {
        match self {
            GitStep::Clone => false,
            _ => true,
        }
    }

    /// The arguments of `git` for this step.
    pub fn args(&self, config: &str, url: &str, dir: &str) -> (r: Vec<String>)
        ensures
            strings_text(r@) == git_args_text(*self, config@, url@, dir@),
    {
        let mut v: Vec<String> = Vec::new();
        v.push(owned("-c"));
        v.push(owned(config));
        match self {
            GitStep::Fetch => {
                v.push(owned("fetch"));
                v.push(owned("--all"));
            },
            GitStep::Pull => {
                v.push(owned("pull"));
            },
            GitStep::Clone => {
                v.push(owned("clone"));
                v.push(owned(url));
                v.push(owned(dir));
            },
        }
        assert(strings_text(v@) =~= git_args_text(*self, config@, url@, dir@));
        v
    }

    /// The error of a step whose `git` could not be started.
    pub fn launch_error(&self, e: &str) -> (r: String)
        ensures
            r@ == "Failed to execute git "@ + step_name(*self) + ": "@ + e@,
    {
        let mut m = join2("Failed to execute git ", self.name());
        m.append(": ");
        m.append(e);
        m
    }

    /// The error of a step whose `git` exited unsuccessfully, with its stderr
    /// read as UTF-8 (invalid sequences replaced).
    pub fn failure_error(&self, stderr: &[u8]) -> (r: String)
        ensures
            r@ == "git "@ + step_name(*self) + " failed: "@ + utf8_lossy_text(stderr@),
    {
        let err = utf8_lossy(stderr);
        let mut m = join2("git ", self.name());
        m.append(" failed: ");
        m.append(err.as_str());
        m
    }
}


/// What the cycle asks the caller to do with the current repository.
#[derive(Clone, Debug)]
pub enum CycleStep {
    /// The repository was left alone; this line was logged.
    Skipped(LogMessage),
    /// Bring the repository at `dir` up to date from `clone_url`, then record
    /// the outcome; this line was logged.
    Sync { line: LogMessage, dir: String, clone_url: String },
}

/// The repositories of one sync cycle, taken one after the other.
#[derive(Clone, Debug)]
pub struct SyncCycle {
    /// The profile being synced, as it was when the cycle started.
    pub profile: SyncProfile,
    pub mode: SyncMode,
    /// The repositories to process, in order.
    pub repos: Vec<RemoteRepo>,
    /// How many repositories have been processed.
    pub next: usize,
    /// Whether the repository at `next` was handed out for syncing and its
    /// outcome is still to be recorded.
    pub awaiting: bool,
}

impl SyncCycle {
    /// The cursor stays within the list, and only a listed repository can be awaited.
    pub open spec fn wf(&self) -> bool {
        &&& self.next <= self.repos@.len()
        &&& self.awaiting ==> self.next < self.repos@.len()
    }

    /// The repositories processed so far, in order.
    pub open spec fn processed(&self) -> Seq<RemoteRepoView> {
        remote_views(self.repos@).take(self.next as int)
    }

    /// Whether every repository has been processed.
    pub open spec fn complete(&self) -> bool {
        self.next == self.repos@.len() && !self.awaiting
    }

    /// A cycle that has processed nothing yet.
    pub fn new(plan: SyncPlan, repos: Vec<RemoteRepo>) -> (r: SyncCycle)
        ensures
            r.wf(),
            r.profile@ == plan.profile@,
            r.mode == plan.mode,
            remote_views(r.repos@) == remote_views(repos@),
            r.next == 0,
            !r.awaiting,
            r.processed().len() == 0,
    {
        SyncCycle { profile: plan.profile, mode: plan.mode, repos, next: 0, awaiting: false }
    }

    /// Where the next repository to process is kept, while one is left.
    pub fn next_dir(&self) -> (r: Option<String>)
        requires
            self.wf(),
        ensures
            (self.next < self.repos@.len() && !self.awaiting) ==> (r matches Some(d) && d@ == join_text_spec(
                self.profile@.local_path,
                self.repos@[self.next as int]@.full_name,
            )),
            !(self.next < self.repos@.len() && !self.awaiting) ==> r is None,
    {
        if self.next < self.repos.len() && !self.awaiting {
            Some(repo_dir(self.profile.local_path.as_str(), self.repos[self.next].full_name.as_str()))
        } else {
            None
        }
    }

    /// Decides about the next repository, given whether it exists locally:
    /// the step of `SyncState::repo_step` for it; a skipped repository counts as
    /// processed, one to sync waits for its outcome.
    pub fn step(&mut self, state: &mut SyncState, exists: bool) -> (r: CycleStep)
        requires
            old(self).wf(),
            old(state).wf(),
            old(self).next < old(self).repos@.len(),
            !old(self).awaiting,
        ensures
            final(self).wf(),
            final(state).wf(),
            final(self).profile == old(self).profile,
            final(self).mode == old(self).mode,
            final(self).repos == old(self).repos,
            cycle_moves(*old(self), *final(self)),
            ({
                let repo = old(self).repos@[old(self).next as int]@;
                &&& repo_step_holds(
                    old(state)@,
                    final(state)@,
                    old(self).profile@.id,
                    old(self).next as nat,
                    old(self).repos@.len(),
                    repo,
                    exists,
                    old(self).mode,
                    match r {
                        CycleStep::Skipped(line) => RepoStep::Skip(line),
                        CycleStep::Sync { line, dir: _, clone_url: _ } => RepoStep::Sync(line),
                    },
                )
                &&& r is Skipped ==> final(self).next == old(self).next + 1 && !final(self).awaiting
                &&& r is Sync ==> final(self).next == old(self).next && final(self).awaiting
                &&& (r matches CycleStep::Sync { line: _, dir, clone_url } ==> {
                    &&& dir@ == join_text_spec(old(self).profile@.local_path, repo.full_name)
                    &&& clone_url@ == repo.clone_url
                })
            }),
    {
        let total = self.repos.len();
        let index = self.next;
        let step = state.repo_step(
            self.profile.id.as_str(),
            index,
            total,
            &self.repos[index],
            exists,
            self.mode,
        );
        match step {
            RepoStep::Skip(line) => {
                self.next = index + 1;
                CycleStep::Skipped(line)
            },
            RepoStep::Sync(line) => {
                self.awaiting = true;
                let dir = repo_dir(self.profile.local_path.as_str(), self.repos[index].full_name.as_str());
                CycleStep::Sync { line, dir, clone_url: self.repos[index].clone_url.clone() }
            },
        }
    }

    /// Records the outcome of syncing the awaited repository, as
    /// `SyncState::record_repo_result` does; it then counts as processed.
    pub fn record(&mut self, state: &mut SyncState, outcome: &Result<(), String>) -> (r: Option<LogMessage>)
        requires
            old(self).wf(),
            old(state).wf(),
            old(self).awaiting,
        ensures
            final(self).wf(),
            final(state).wf(),
            final(self).profile == old(self).profile,
            final(self).mode == old(self).mode,
            final(self).repos == old(self).repos,
            final(self).next == old(self).next + 1,
            !final(self).awaiting,
            cycle_moves(*old(self), *final(self)),
            repo_result_holds(
                old(state)@,
                final(state)@,
                old(self).profile@.id,
                old(self).repos@[old(self).next as int]@.full_name,
                result_text(*outcome),
                r,
            ),
    {
        let index = self.next;
        let total = self.repos.len();
        assert(index < total);
        let r = state.record_repo_result(
            self.profile.id.as_str(),
            self.repos[index].full_name.as_str(),
            outcome,
        );
        self.next = index + 1;
        self.awaiting = false;
        r
    }

    /// Ends the cycle once every repository is processed, as
    /// `SyncState::finish_sync` does.
    pub fn finish(&self, state: &mut SyncState) -> (r: LogMessage)
        requires
            self.wf(),
            old(state).wf(),
            self.complete(),
        ensures
            final(state).wf(),
            self.processed() == remote_views(self.repos@),
            says(r@, "INFO"@, completed_message()),
            final(state)@ == with_profile_state(
                old(state)@,
                self.profile@.id,
                logged(
                    ProfileSyncStateView {
                        status: "Idle"@,
                        last_sync_time: Some(r@.timestamp),
                        ..state_of(old(state)@.profile_states, self.profile@.id)
                    },
                    r@,
                ),
            ),
    {
        assert(remote_views(self.repos@).take(self.next as int) =~= remote_views(self.repos@));
        state.finish_sync(self.profile.id.as_str())
    }
}

/// A cycle processes its repositories in order, each exactly once: every step
/// and every recorded outcome moves the cursor past exactly the repository
/// at it, and a complete cycle has processed the whole list.
pub proof fn law_cycle_in_order(c: SyncCycle, d: SyncCycle)
    requires
        c.wf(),
        d.repos == c.repos,
        d.next == c.next + 1,
        c.next < c.repos@.len(),
    ensures
        d.processed() == c.processed().push(c.repos@[c.next as int]@),
        d.complete() ==> d.processed() == remote_views(d.repos@),
{
    assert(d.processed() =~= c.processed().push(c.repos@[c.next as int]@));
    if d.complete() {
        assert(remote_views(d.repos@).take(d.next as int) =~= remote_views(d.repos@));
    }
}

/// One move of a cycle over the same list: the cursor passes the repository
/// at it (skipped, or its outcome recorded), or the repository at it is handed
/// out for syncing and awaited.
pub open spec fn cycle_moves(c: SyncCycle, d: SyncCycle) -> bool {
    &&& d.repos == c.repos
    &&& c.next < c.repos@.len()
    &&& ((d.next == c.next + 1 && !d.awaiting) || (d.next == c.next && !c.awaiting && d.awaiting))
}

/// In a run of cycle states, the move from the `i`-th state passes repository `k`.
pub open spec fn passes(run: Seq<SyncCycle>, i: int, k: int) -> bool {
    run[i].next == k && run[i + 1].next == k + 1
}

/// Some move before the `m`-th state of the run passes repository `k`.
pub open spec fn passed_before(run: Seq<SyncCycle>, m: int, k: int) -> bool {
    exists|i: int| 0 <= i < m && #[trigger] passes(run, i, k)
}

proof fn lemma_run_prefix(run: Seq<SyncCycle>, m: int)
    requires
        0 <= m < run.len(),
        run[0].next == 0,
        forall|i: int| 0 <= i < run.len() - 1 ==> #[trigger] cycle_moves(run[i], run[i + 1]),
    ensures
        run[m].repos == run[0].repos,
        forall|i: int| 0 <= i <= m ==> #[trigger] run[i].next <= run[m].next,
        forall|k: int| 0 <= k < run[m].next ==> #[trigger] passed_before(run, m, k),
    decreases m,
{
    if m > 0 {
        lemma_run_prefix(run, m - 1);
        let p = m - 1;
        assert(cycle_moves(run[p], run[p + 1]));
        assert(run[p + 1] == run[m]);
        assert forall|k: int| 0 <= k < run[m].next implies #[trigger] passed_before(run, m, k) by {
            if k < run[m - 1].next {
                assert(passed_before(run, m - 1, k));
                let i = choose|i: int| 0 <= i < m - 1 && #[trigger] passes(run, i, k);
                assert(passes(run, i, k));
            } else {
                assert(passes(run, m - 1, k));
            }
        }
    }
}

/// A whole cycle: when a run of moves starts with nothing processed and ends
/// complete, every listed repository was passed exactly once, the `k`-th by a
/// move from cursor `k`, in the order of the list, and the list was processed
/// as a whole.
pub proof fn law_cycle_run(run: Seq<SyncCycle>)
    requires
        run.len() > 0,
        run[0].next == 0,
        forall|i: int| 0 <= i < run.len() - 1 ==> #[trigger] cycle_moves(run[i], run[i + 1]),
        run.last().complete(),
    ensures
        run.last().repos == run[0].repos,
        run.last().processed() == remote_views(run[0].repos@),
        forall|k: int| 0 <= k < run[0].repos@.len() ==> #[trigger] passed_before(run, run.len() - 1, k),
        forall|i: int, j: int, k: int|
            0 <= i < run.len() - 1 && 0 <= j < run.len() - 1 && #[trigger] passes(run, i, k) && #[trigger] passes(run, j, k)
                ==> i == j,
        forall|i: int, j: int, k: int, l: int|
            0 <= i < run.len() - 1 && 0 <= j < run.len() - 1 && #[trigger] passes(run, i, k) && #[trigger] passes(run, j, l) && k < l
                ==> i < j,
{
    let n = run.len() - 1;
    lemma_run_prefix(run, n);
    assert(remote_views(run[n].repos@).take(run[n].next as int) =~= remote_views(run[n].repos@));
    assert forall|i: int, j: int, k: int, l: int|
        0 <= i < run.len() - 1 && 0 <= j < run.len() - 1 && #[trigger] passes(run, i, k) && #[trigger] passes(run, j, l) && k <= l
            implies i < j || (i == j && k == l) by {
        if j < i {
            lemma_run_prefix(run, i);
            assert(run[j + 1].next <= run[i].next);
        }
    }
}

pub open spec fn api_status_message(source: RepoSource, status: Seq<char>, body: Seq<char>) -> Seq<char> {
    (if source == RepoSource::Gitlab { "GitLab"@ } else { "GitHub"@ }) + " API returned status code "@ + status + ": "@ + body
}

pub open spec fn response_parse_message(source: RepoSource, e: Seq<char>) -> Seq<char> {
    (if source == RepoSource::Gitlab { "Failed to parse GitLab response JSON: "@ } else { "Failed to parse response JSON: "@ }) + e
}

impl RepoPager {
    /// A page the provider refused (an unsuccessful HTTP status): the list
    /// ends, and the error names the provider, the status and the body.
    pub fn reject_page(&mut self, source: RepoSource, status: &str, body: &str) -> (r: String)
        ensures
            final(self).done,
            final(self).repos == old(self).repos,
            final(self).page == old(self).page,
            r@ == api_status_message(source, status@, body@),
    {
        self.done = true;
        let mut m = owned(if source == RepoSource::Gitlab { "GitLab" } else { "GitHub" });
        m.append(" API returned status code ");
        m.append(status);
        m.append(": ");
        m.append(body);
        m
    }
}

/// The error of a provider request that could not be sent.
pub fn request_error(e: &str) -> (r: String)
    ensures
        r@ == "Request error: "@ + e@,
{
    join2("Request error: ", e)
}

/// The error of a provider response that is not the expected JSON.
pub fn response_parse_error(source: RepoSource, e: &str) -> (r: String)
    ensures
        r@ == response_parse_message(source, e@),
{
    if source == RepoSource::Gitlab {
        join2("Failed to parse GitLab response JSON: ", e)
    } else {
        join2("Failed to parse response JSON: ", e)
    }
}

/// The error of an HTTP client that could not be built.
pub fn client_error(e: &str) -> (r: String)
    ensures
        r@ == "Failed to create HTTP client: "@ + e@,
{
    join2("Failed to create HTTP client: ", e)
}

/// The error of a local storage directory that could not be created.
pub fn local_dir_error(path: &str, e: &str) -> (r: String)
    ensures
        r@ == "Failed to create local path dir "@ + path@ + ": "@ + e@,
{
    let mut m = join2("Failed to create local path dir ", path);
    m.append(": ");
    m.append(e);
    m
}

/// The error of a repository's parent directory that could not be created.
pub fn parent_dir_error(e: &str) -> (r: String)
    ensures
        r@ == "Failed to create repo parent dir: "@ + e@,
{
    join2("Failed to create repo parent dir: ", e)
}


/// An entry of an owner directory: its name (when it is UTF-8), whether it is
/// a directory, and whether it holds a `.git` entry.
#[derive(Clone, Debug)]
pub struct RepoDirEntry {
    pub name: Option<String>,
    pub is_dir: bool,
    pub has_git: bool,
}

/// An entry of the local storage directory: its name (when it is UTF-8),
/// whether it is a directory, and its own entries (read only for directories).
#[derive(Clone, Debug)]
pub struct OwnerDirEntry {
    pub name: Option<String>,
    pub is_dir: bool,
    pub entries: Vec<RepoDirEntry>,
}

pub struct RepoDirEntryView {
    pub name: Option<Seq<char>>,
    pub is_dir: bool,
    pub has_git: bool,
}

pub struct OwnerDirEntryView {
    pub name: Option<Seq<char>>,
    pub is_dir: bool,
    pub entries: Seq<RepoDirEntryView>,
}

impl View for RepoDirEntry {
    type V = RepoDirEntryView;

    open spec fn view(&self) -> RepoDirEntryView {
        RepoDirEntryView { name: opt_text(self.name), is_dir: self.is_dir, has_git: self.has_git }
    }
}

impl View for OwnerDirEntry {
    type V = OwnerDirEntryView;

    open spec fn view(&self) -> OwnerDirEntryView {
        OwnerDirEntryView {
            name: opt_text(self.name),
            is_dir: self.is_dir,
            entries: self.entries@.map_values(|e: RepoDirEntry| e@),
        }
    }
}

/// The repositories found among the entries of one owner directory: the
/// directories with a UTF-8 name that hold `.git`, in order.
pub open spec fn repos_of_owner(owner: Seq<char>, es: Seq<RepoDirEntryView>) -> Seq<RemoteRepoView>
    decreases es.len(),
{
    if es.len() == 0 {
        Seq::empty()
    } else {
        let prev = repos_of_owner(owner, es.drop_last());
        let e = es.last();
        if e.is_dir && e.name is Some && e.has_git {
            prev.push(local_repo_view(owner, e.name->0))
        } else {
            prev
        }
    }
}

/// The repositories found under the local storage directory: for each owner
/// directory with a UTF-8 name, in order, its repositories.
pub open spec fn local_repos_of(owners: Seq<OwnerDirEntryView>) -> Seq<RemoteRepoView>
    decreases owners.len(),
{
    if owners.len() == 0 {
        Seq::empty()
    } else {
        let prev = local_repos_of(owners.drop_last());
        let o = owners.last();
        if o.is_dir && o.name is Some {
            prev + repos_of_owner(o.name->0, o.entries)
        } else {
            prev
        }
    }
}

/// The repositories to pull in `UpdatesOnly` mode, from a listing of the local
/// storage directory.
pub fn select_local_repos(owners: &Vec<OwnerDirEntry>) -> (r: Vec<RemoteRepo>)
    ensures
        remote_views(r@) == local_repos_of(owners@.map_values(|o: OwnerDirEntry| o@)),
{
    let ghost ov = owners@.map_values(|o: OwnerDirEntry| o@);
    let mut out: Vec<RemoteRepo> = Vec::new();
    let mut i: usize = 0;
    while i < owners.len()
        invariant
            i <= owners.len(),
            ov == owners@.map_values(|o: OwnerDirEntry| o@),
            remote_views(out@) == local_repos_of(ov.subrange(0, i as int)),
        decreases owners.len() - i,
    {
        let ghost sub = ov.subrange(0, i + 1);
        assert(sub.drop_last() =~= ov.subrange(0, i as int));
        assert(sub.last() == owners@[i as int]@);
        let o = &owners[i];
        if o.is_dir {
            if let Some(owner) = &o.name {
                let ghost ev = o.entries@.map_values(|e: RepoDirEntry| e@);
                let ghost start = remote_views(out@);
                let mut j: usize = 0;
                while j < o.entries.len()
                    invariant
                        j <= o.entries.len(),
                        ev == o.entries@.map_values(|e: RepoDirEntry| e@),
                        remote_views(out@) == start + repos_of_owner(owner@, ev.subrange(0, j as int)),
                    decreases o.entries.len() - j,
                {
                    let ghost esub = ev.subrange(0, j + 1);
                    assert(esub.drop_last() =~= ev.subrange(0, j as int));
                    assert(esub.last() == o.entries@[j as int]@);
                    let e = &o.entries[j];
                    if e.is_dir && e.has_git {
                        if let Some(name) = &e.name {
                            let ghost before = remote_views(out@);
                            out.push(local_repo(owner.as_str(), name.as_str()));
                            assert(remote_views(out@) =~= before.push(local_repo_view(owner@, name@)));
                        }
                    }
                    j = j + 1;
                }
                assert(ev.subrange(0, j as int) =~= ev);
            }
        }
        i = i + 1;
    }
    assert(ov.subrange(0, i as int) =~= ov);
    out
}

} // verus!
