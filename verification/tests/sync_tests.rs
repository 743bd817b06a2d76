use gitsync::config::{Config, SyncProfile};
use gitsync::state::{ProfileSyncState, SyncMode, SyncState};
use gitsync::sync::{
    client_error, credential_config, git_steps, github_repos_url, gitlab_base_url, gitlab_project_repo,
    gitlab_projects_url, local_dir_error, local_repo, parent_dir_error, repo_dir, repo_source,
    repo_source_lowercase, request_error, response_parse_error, select_local_repos, CycleStep, GitStep,
    OwnerDirEntry, RemoteRepo, RepoDirEntry, RepoPager, RepoSource, RepoStep, SyncCycle, SyncStart,
};

fn profile(id: &str) -> SyncProfile {
    SyncProfile {
        id: id.to_string(),
        name: "Mine".to_string(),
        provider: "GitLab".to_string(),
        domain: "gitlab.example.org/".to_string(),
        username: "user".to_string(),
        token: "pat".to_string(),
        local_path: "/srv".to_string(),
        sync_interval_secs: 60,
    }
}

fn state_with(p: SyncProfile) -> SyncState {
    let mut c = Config::default();
    c.active_profile_id = p.id.clone();
    c.profiles.push(p);
    SyncState::new(c)
}

fn pstate<'a>(s: &'a SyncState, id: &str) -> &'a ProfileSyncState {
    &s.profile_states.iter().find(|(k, _)| k == id).unwrap().1
}

fn repo(full: &str) -> RemoteRepo {
    let name = full.rsplit('/').next().unwrap().to_string();
    RemoteRepo {
        name,
        full_name: full.to_string(),
        clone_url: format!("https://example.org/{}.git", full),
        private: true,
    }
}

#[test]
fn begin_sync_runs_and_consumes_mode() {
    let mut s = state_with(profile("p"));
    s.next_sync_mode = SyncMode::MissingOnly;
    match s.begin_sync() {
        SyncStart::Run(plan, line) => {
            assert_eq!(plan.mode, SyncMode::MissingOnly);
            assert_eq!(plan.source, RepoSource::Gitlab);
            assert_eq!(plan.profile.id, "p");
            assert_eq!(line.message, "Starting sync for profile 'Mine' (GitLab) (Mode: MissingOnly)...");
        }
        SyncStart::Skipped(_) => panic!("should run"),
    }
    assert_eq!(s.next_sync_mode, SyncMode::Full);
    assert_eq!(pstate(&s, "p").status, "Syncing");
}

#[test]
fn begin_sync_skips() {
    let mut s = state_with(profile("p"));
    s.active_profile_id = "other".to_string();
    match s.begin_sync() {
        SyncStart::Skipped(line) => {
            assert_eq!(line.level, "WARN");
            assert_eq!(line.message, "No active sync profile configured. Sync skipped.");
        }
        _ => panic!("should skip"),
    }
    let mut p = profile("p");
    p.token = String::new();
    let mut s2 = state_with(p);
    match s2.begin_sync() {
        SyncStart::Skipped(line) => {
            assert_eq!(line.message, "Credentials not configured for profile 'Mine'. Sync skipped.")
        }
        _ => panic!("should skip"),
    }
    assert_eq!(pstate(&s2, "p").status, "Idle");
    let mut q = profile("q");
    q.local_path = String::new();
    let mut s3 = state_with(q);
    match s3.begin_sync() {
        SyncStart::Skipped(line) => {
            assert_eq!(line.message, "Local storage path not configured for profile 'Mine'. Sync skipped.")
        }
        _ => panic!("should skip"),
    }
}

#[test]
fn sources() {
    assert_eq!(repo_source(SyncMode::UpdatesOnly, "gitlab"), RepoSource::LocalDisk);
    assert_eq!(repo_source(SyncMode::Full, "GITLAB"), RepoSource::Gitlab);
    assert_eq!(repo_source(SyncMode::Full, "github"), RepoSource::Github);
    assert_eq!(repo_source(SyncMode::MissingOnly, "bitbucket"), RepoSource::Github);
}

#[test]
fn register_repos_adds_new_ones_once() {
    let mut s = state_with(profile("p"));
    let line = s.register_repos("p", &vec![repo("o/a"), repo("o/b"), repo("o/a")]);
    assert_eq!(line.message, "Found 3 repositories to process.");
    let rs = &pstate(&s, "p").repos;
    assert_eq!(rs.len(), 2);
    assert_eq!(rs[0].full_name, "o/a");
    assert_eq!(rs[0].status, "Idle");
    assert!(rs[0].is_private);
    s.register_repos("p", &vec![repo("o/b"), repo("o/c")]);
    let rs = &pstate(&s, "p").repos;
    assert_eq!(rs.len(), 3);
    assert_eq!(rs[2].full_name, "o/c");
}

#[test]
fn repo_steps() {
    let mut s = state_with(profile("p"));
    s.register_repos("p", &vec![repo("o/a")]);
    match s.repo_step("p", 0, 2, &repo("o/a"), true, SyncMode::MissingOnly) {
        RepoStep::Skip(line) => assert_eq!(line.message, "[1/2] Skipping o/a (already exists locally)."),
        _ => panic!("should skip"),
    }
    assert_eq!(pstate(&s, "p").repos[0].status, "Success");
    match s.repo_step("p", 1, 2, &repo("o/a"), true, SyncMode::Full) {
        RepoStep::Sync(line) => assert_eq!(line.message, "[2/2] Syncing o/a (Private: true)..."),
        _ => panic!("should sync"),
    }
    assert_eq!(pstate(&s, "p").repos[0].status, "Pulling");
    match s.repo_step("p", 0, 1, &repo("o/a"), false, SyncMode::MissingOnly) {
        RepoStep::Sync(_) => {}
        _ => panic!("should sync"),
    }
    assert_eq!(pstate(&s, "p").repos[0].status, "Cloning");
}

#[test]
fn repo_results_and_finish() {
    let mut s = state_with(profile("p"));
    s.register_repos("p", &vec![repo("o/a")]);
    let ok = s.record_repo_result("p", "o/a", &Ok(())).unwrap();
    assert_eq!(ok.message, "Successfully synced o/a");
    let r = &pstate(&s, "p").repos[0];
    assert_eq!(r.status, "Success");
    assert!(r.error.is_none());
    assert_eq!(r.last_sync, Some(ok.timestamp));
    let bad = s.record_repo_result("p", "o/a", &Err("git pull failed: x".to_string())).unwrap();
    assert_eq!(bad.level, "ERROR");
    assert_eq!(bad.message, "Failed to sync o/a: git pull failed: x");
    assert_eq!(pstate(&s, "p").repos[0].status, "Failed");
    assert_eq!(pstate(&s, "p").repos[0].error, Some("git pull failed: x".to_string()));
    assert!(s.record_repo_result("p", "o/zz", &Ok(())).is_none());
    let end = s.finish_sync("p");
    assert_eq!(end.message, "Sync cycle completed.");
    assert_eq!(pstate(&s, "p").status, "Idle");
    assert_eq!(pstate(&s, "p").last_sync_time, Some(end.timestamp));
}

#[test]
fn fetch_failure_marks_error() {
    let mut s = state_with(profile("p"));
    let line = s.record_fetch_failure("p", "Request error: x");
    assert_eq!(line.message, "Failed to fetch repository list: Request error: x");
    assert_eq!(pstate(&s, "p").status, "Error");
}

#[test]
fn urls() {
    assert_eq!(github_repos_url(3), "https://api.github.com/user/repos?per_page=100&page=3");
    assert_eq!(gitlab_base_url("gitlab.example.org/"), "https://gitlab.example.org");
    assert_eq!(gitlab_base_url("http://10.0.0.2:8080//"), "http://10.0.0.2:8080");
    assert_eq!(gitlab_base_url("https://g.io"), "https://g.io");
    assert_eq!(
        gitlab_projects_url("https://g.io", 2),
        "https://g.io/api/v4/projects?membership=true&per_page=100&page=2"
    );
}

#[test]
fn gitlab_visibility() {
    let p = gitlab_project_repo("r".to_string(), "g/r".to_string(), "u".to_string(), "public");
    assert!(!p.private);
    assert_eq!(p.full_name, "g/r");
    let q = gitlab_project_repo("r".to_string(), "g/r".to_string(), "u".to_string(), "internal");
    assert!(q.private);
}

#[test]
fn local_repos() {
    let r = local_repo("octo", "tool");
    assert_eq!(r.name, "tool");
    assert_eq!(r.full_name, "octo/tool");
    assert_eq!(r.clone_url, "https://github.com/octo/tool.git");
    assert!(!r.private);
    assert_eq!(repo_dir("/srv", "octo/tool"), "/srv/octo/tool");
}

#[test]
fn paging() {
    let mut pager = RepoPager::new();
    assert_eq!(pager.page, 1);
    let full: Vec<RemoteRepo> = (0..100).map(|i| repo(&format!("o/r{}", i))).collect();
    assert!(pager.accept_page(full));
    assert_eq!(pager.page, 2);
    assert!(!pager.accept_page(vec![repo("o/last")]));
    assert!(pager.done);
    assert_eq!(pager.repos.len(), 101);
    assert_eq!(pager.repos[100].full_name, "o/last");
    let mut empty = RepoPager::new();
    assert!(!empty.accept_page(vec![]));
    assert!(empty.repos.is_empty());
    assert_eq!(empty.page, 1);
}

#[test]
fn git_plans() {
    assert_eq!(git_steps(true), vec![GitStep::Fetch, GitStep::Pull]);
    assert_eq!(git_steps(false), vec![GitStep::Clone]);
    let cfg = credential_config("me", "tok");
    assert_eq!(cfg, "credential.helper=!f() { echo username=me; echo password=tok; }; f");
    assert_eq!(GitStep::Fetch.args(&cfg, "u", "d"), vec!["-c".to_string(), cfg.clone(), "fetch".to_string(), "--all".to_string()]);
    assert_eq!(GitStep::Pull.args(&cfg, "u", "d"), vec!["-c".to_string(), cfg.clone(), "pull".to_string()]);
    assert_eq!(
        GitStep::Clone.args(&cfg, "u", "d"),
        vec!["-c".to_string(), cfg.clone(), "clone".to_string(), "u".to_string(), "d".to_string()]
    );
    assert!(GitStep::Pull.runs_in_repo());
    assert!(!GitStep::Clone.runs_in_repo());
    assert_eq!(GitStep::Fetch.launch_error("nope"), "Failed to execute git fetch: nope");
    assert_eq!(GitStep::Clone.failure_error(b"fatal: x"), "git clone failed: fatal: x");
    assert_eq!(GitStep::Pull.failure_error(&[0x66, 0xff]), "git pull failed: f\u{fffd}");
}

#[test]
fn sources_from_lowercase_names() {
    assert_eq!(repo_source_lowercase(SyncMode::Full, "gitlab"), RepoSource::Gitlab);
    assert_eq!(repo_source_lowercase(SyncMode::Full, "GitLab"), RepoSource::Github);
    assert_eq!(repo_source_lowercase(SyncMode::UpdatesOnly, "gitlab"), RepoSource::LocalDisk);
}

fn start(s: &mut SyncState) -> gitsync::sync::SyncPlan {
    match s.begin_sync() {
        SyncStart::Run(plan, _) => plan,
        SyncStart::Skipped(_) => panic!("should run"),
    }
}

#[test]
fn cycle_takes_repositories_in_order() {
    let mut s = state_with(profile("p"));
    s.next_sync_mode = SyncMode::MissingOnly;
    let plan = start(&mut s);
    let repos = vec![repo("o/a"), repo("o/b"), repo("o/c")];
    s.register_repos("p", &repos);
    let mut cycle = SyncCycle::new(plan, repos);
    assert_eq!(cycle.next_dir(), Some("/srv/o/a".to_string()));

    match cycle.step(&mut s, true) {
        CycleStep::Skipped(line) => assert_eq!(line.message, "[1/3] Skipping o/a (already exists locally)."),
        CycleStep::Sync { .. } => panic!("should skip"),
    }
    assert_eq!(cycle.next, 1);
    assert_eq!(cycle.next_dir(), Some("/srv/o/b".to_string()));

    match cycle.step(&mut s, false) {
        CycleStep::Sync { line, dir, clone_url } => {
            assert_eq!(line.message, "[2/3] Syncing o/b (Private: true)...");
            assert_eq!(dir, "/srv/o/b");
            assert_eq!(clone_url, "https://example.org/o/b.git");
        }
        CycleStep::Skipped(_) => panic!("should sync"),
    }
    assert!(cycle.awaiting);
    assert_eq!(cycle.next_dir(), None);
    assert_eq!(pstate(&s, "p").repos[1].status, "Cloning");
    let line = cycle.record(&mut s, &Err("git clone failed: no".to_string())).unwrap();
    assert_eq!(line.message, "Failed to sync o/b: git clone failed: no");
    assert_eq!(cycle.next, 2);
    assert!(!cycle.awaiting);

    match cycle.step(&mut s, false) {
        CycleStep::Sync { .. } => {}
        CycleStep::Skipped(_) => panic!("should sync"),
    }
    cycle.record(&mut s, &Ok(()));
    assert_eq!(cycle.next_dir(), None);
    let end = cycle.finish(&mut s);
    assert_eq!(end.message, "Sync cycle completed.");
    let st = pstate(&s, "p");
    assert_eq!(st.status, "Idle");
    assert_eq!(st.repos[0].status, "Success");
    assert_eq!(st.repos[1].status, "Failed");
    assert_eq!(st.repos[2].status, "Success");
}

#[test]
fn empty_cycle_finishes_at_once() {
    let mut s = state_with(profile("p"));
    let plan = start(&mut s);
    let cycle = SyncCycle::new(plan, vec![]);
    assert_eq!(cycle.next_dir(), None);
    assert_eq!(cycle.finish(&mut s).message, "Sync cycle completed.");
    assert_eq!(pstate(&s, "p").status, "Idle");
}

#[test]
fn refused_pages_end_the_list() {
    let mut pager = RepoPager::new();
    assert!(pager.accept_page((0..100).map(|i| repo(&format!("o/r{}", i))).collect()));
    let e = pager.reject_page(RepoSource::Github, "401 Unauthorized", "{\"message\":\"Bad credentials\"}");
    assert_eq!(e, "GitHub API returned status code 401 Unauthorized: {\"message\":\"Bad credentials\"}");
    assert!(pager.done);
    assert_eq!(pager.page, 2);
    assert_eq!(pager.repos.len(), 100);
    let mut g = RepoPager::new();
    assert_eq!(g.reject_page(RepoSource::Gitlab, "404 Not Found", ""), "GitLab API returned status code 404 Not Found: ");
}

#[test]
fn error_texts() {
    assert_eq!(request_error("timeout"), "Request error: timeout");
    assert_eq!(response_parse_error(RepoSource::Github, "eof"), "Failed to parse response JSON: eof");
    assert_eq!(response_parse_error(RepoSource::Gitlab, "eof"), "Failed to parse GitLab response JSON: eof");
    assert_eq!(client_error("tls"), "Failed to create HTTP client: tls");
    assert_eq!(local_dir_error("/srv", "denied"), "Failed to create local path dir /srv: denied");
    assert_eq!(parent_dir_error("denied"), "Failed to create repo parent dir: denied");
}

fn entry(name: Option<&str>, is_dir: bool, has_git: bool) -> RepoDirEntry {
    RepoDirEntry { name: name.map(|n| n.to_string()), is_dir, has_git }
}

#[test]
fn local_selection_keeps_git_directories() {
    let owners = vec![
        OwnerDirEntry {
            name: Some("octo".to_string()),
            is_dir: true,
            entries: vec![
                entry(Some("tool"), true, true),
                entry(Some("notes"), true, false),
                entry(Some("file.txt"), false, false),
                entry(None, true, true),
                entry(Some("lib"), true, true),
            ],
        },
        OwnerDirEntry { name: Some("README.md".to_string()), is_dir: false, entries: vec![] },
        OwnerDirEntry { name: None, is_dir: true, entries: vec![entry(Some("x"), true, true)] },
        OwnerDirEntry { name: Some("me".to_string()), is_dir: true, entries: vec![entry(Some("dots"), true, true)] },
    ];
    let found = select_local_repos(&owners);
    let names: Vec<&str> = found.iter().map(|r| r.full_name.as_str()).collect();
    assert_eq!(names, vec!["octo/tool", "octo/lib", "me/dots"]);
    assert_eq!(found[0].clone_url, "https://github.com/octo/tool.git");
    assert!(select_local_repos(&vec![]).is_empty());
}
