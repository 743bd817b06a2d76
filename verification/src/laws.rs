//! Properties that hold across the library's operations.

use vstd::prelude::*;
use crate::config::{
    edit_with_path, with_port,
    ConfigView, WebTokenView, SyncProfileView, ProfileEditView, LegacySettingsView, has_token_named,
    first_token_named, tokens_without, with_tokens, has_profile, first_profile_with, after_profile_delete,
    after_profile_edit, edited_profile, new_profile_view, profiles_without, legacy_config, token_text,
    hex_text, token_prefix, lemma_first_profile_unique,
};
use crate::text::{digit_char, hex_byte_text, lowercase_text};
use crate::paths::is_absolute_text;
use crate::state::{RepoStatusView, SyncStateView, ProfileSyncStateView, SyncMode, with_profile_state, state_of};
use crate::sync::{
    RemoteRepoView, RepoStep, RepoSource, registered, has_repo, idle_status, repo_step_holds, source_for,
    with_repo_status,
};

verus! {

/// The active profile id names an existing profile, or is empty.
pub open spec fn active_valid(c: ConfigView) -> bool {
    c.active_profile_id.len() == 0 || has_profile(c.profiles, c.active_profile_id)
}

/// A token created under a new name is the one found under that name.
pub proof fn law_created_token_is_found(c: ConfigView, name: Seq<char>, value: Seq<char>, created: Seq<char>)
    requires
        !has_token_named(c.web_tokens, name),
    ensures
        ({
            let c2 = with_tokens(c, c.web_tokens.push(WebTokenView { name, token: value, created_at: created }));
            &&& has_token_named(c2.web_tokens, name)
            &&& first_token_named(c2.web_tokens, name, c.web_tokens.len() as int)
            &&& c2.web_tokens[c.web_tokens.len() as int].token == value
        }),
{
    let ts2 = c.web_tokens.push(WebTokenView { name, token: value, created_at: created });
    assert(ts2[c.web_tokens.len() as int].name == name);
    assert forall|j: int| 0 <= j < c.web_tokens.len() implies ts2[j].name != name by {
        assert(ts2[j] == c.web_tokens[j]);
    }
}

/// After the tokens named `name` are deleted, none is left under that name,
/// and every other token remains.
pub proof fn law_deleted_token_is_gone(ts: Seq<WebTokenView>, name: Seq<char>)
    ensures
        !has_token_named(tokens_without(ts, name), name),
        forall|i: int| 0 <= i < ts.len() && ts[i].name != name ==> tokens_without(ts, name).contains(#[trigger] ts[i]),
{
    let r = tokens_without(ts, name);
    assert forall|i: int| 0 <= i < r.len() implies r[i].name != name by {
        ts.lemma_filter_pred(|t: WebTokenView| t.name != name, i);
    }
    assert forall|i: int| 0 <= i < ts.len() && ts[i].name != name implies r.contains(#[trigger] ts[i]) by {
        ts.lemma_filter_contains(|t: WebTokenView| t.name != name, i);
    }
}

/// Deleting a token that was just created under a new name restores the token list.
pub proof fn law_delete_undoes_create(ts: Seq<WebTokenView>, t: WebTokenView)
    requires
        !has_token_named(ts, t.name),
    ensures
        tokens_without(ts.push(t), t.name) == ts,
{
    lemma_filter_keeps_all(ts, t.name);
    let s2 = ts.push(t);
    assert(s2.drop_last() =~= ts);
    reveal(Seq::filter);
}

proof fn lemma_filter_keeps_all(ts: Seq<WebTokenView>, name: Seq<char>)
    requires
        !has_token_named(ts, name),
    ensures
        tokens_without(ts, name) == ts,
    decreases ts.len(),
{
    reveal(Seq::filter);
    if ts.len() > 0 {
        let d = ts.drop_last();
        assert forall|i: int| 0 <= i < d.len() implies d[i].name != name by {
            assert(d[i] == ts[i]);
        }
        lemma_filter_keeps_all(d, name);
        assert(ts.last().name != name);
        assert(d.push(ts.last()) =~= ts);
    }
}

/// Deleting a profile leaves no profile with its id, keeps the others, and
/// keeps the active profile valid.
pub proof fn law_delete_profile(c: ConfigView, id: Seq<char>)
    requires
        active_valid(c),
    ensures
        !has_profile(after_profile_delete(c, id).profiles, id),
        forall|i: int| 0 <= i < c.profiles.len() && c.profiles[i].id != id
            ==> after_profile_delete(c, id).profiles.contains(#[trigger] c.profiles[i]),
        active_valid(after_profile_delete(c, id)),
{
    let pred = |p: SyncProfileView| p.id != id;
    let r = profiles_without(c.profiles, id);
    assert forall|i: int| 0 <= i < r.len() implies r[i].id != id by {
        c.profiles.lemma_filter_pred(pred, i);
    }
    assert forall|i: int| 0 <= i < c.profiles.len() && c.profiles[i].id != id implies r.contains(#[trigger] c.profiles[i]) by {
        c.profiles.lemma_filter_contains(pred, i);
    }
    let c2 = after_profile_delete(c, id);
    if c.active_profile_id == id {
        if r.len() > 0 {
            assert(r[0].id == c2.active_profile_id);
        }
    } else if c.active_profile_id.len() > 0 {
        let w = choose|w: int| 0 <= w < c.profiles.len() && c.profiles[w].id == c.active_profile_id;
        c.profiles.lemma_filter_contains(pred, w);
        let k = choose|k: int| 0 <= k < r.len() && r[k] == c.profiles[w];
        assert(r[k].id == c2.active_profile_id);
    }
}

proof fn lemma_first_exists(ps: Seq<SyncProfileView>, id: Seq<char>)
    requires
        has_profile(ps, id),
    ensures
        exists|i: int| first_profile_with(ps, id, i),
    decreases ps.len(),
{
    if ps.last().id == id && !has_profile(ps.drop_last(), id) {
        assert forall|j: int| 0 <= j < ps.len() - 1 implies ps[j].id != id by {
            if ps[j].id == id {
                assert(ps.drop_last()[j].id == id);
            }
        }
        assert(first_profile_with(ps, id, ps.len() - 1));
    } else {
        if ps.last().id != id {
            let w = choose|w: int| 0 <= w < ps.len() && ps[w].id == id;
            assert(ps.drop_last()[w].id == id);
        }
        lemma_first_exists(ps.drop_last(), id);
        let d = ps.drop_last();
        let i = choose|i: int| first_profile_with(d, id, i);
        assert(ps[i] == d[i]);
        assert forall|j: int| 0 <= j < i implies ps[j].id != id by {
            assert(ps[j] == d[j]);
        }
        assert(first_profile_with(ps, id, i));
    }
}

/// After a profile is edited it exists, and the active profile stays valid.
pub proof fn law_edit_profile(c: ConfigView, id: Seq<char>, e: ProfileEditView)
    requires
        active_valid(c),
    ensures
        has_profile(after_profile_edit(c, id, e).profiles, id),
        active_valid(after_profile_edit(c, id, e)),
{
    let c2 = after_profile_edit(c, id, e);
    if has_profile(c.profiles, id) {
        lemma_first_exists(c.profiles, id);
        let i = choose|i: int| first_profile_with(c.profiles, id, i);
        assert(c2.profiles[i].id == id);
        if c2.active_profile_id != id && c.active_profile_id.len() > 0 {
            let w = choose|w: int| 0 <= w < c.profiles.len() && c.profiles[w].id == c.active_profile_id;
            assert(c2.profiles[w].id == c.active_profile_id);
        }
    } else {
        assert(c2.profiles[c.profiles.len() as int].id == id);
        if c2.active_profile_id != id && c.active_profile_id.len() > 0 {
            let w = choose|w: int| 0 <= w < c.profiles.len() && c.profiles[w].id == c.active_profile_id;
            assert(c2.profiles[w].id == c.active_profile_id);
        }
    }
}

/// Editing a profile twice with the same changes is the same as once.
pub proof fn law_edit_idempotent(c: ConfigView, id: Seq<char>, e: ProfileEditView)
    ensures
        after_profile_edit(after_profile_edit(c, id, e), id, e) == after_profile_edit(c, id, e),
{
    let c1 = after_profile_edit(c, id, e);
    let c2 = after_profile_edit(c1, id, e);
    if has_profile(c.profiles, id) {
        lemma_first_exists(c.profiles, id);
        let i = choose|i: int| first_profile_with(c.profiles, id, i);
        assert(first_profile_with(c1.profiles, id, i)) by {
            assert forall|j: int| 0 <= j < i implies c1.profiles[j].id != id by {
                assert(c1.profiles[j] == c.profiles[j]);
            }
        }
        assert(has_profile(c1.profiles, id));
        let k = choose|k: int| first_profile_with(c1.profiles, id, k);
        lemma_first_profile_unique(c1.profiles, id, i, k);
        assert(edited_profile(edited_profile(c.profiles[i], e), e) == edited_profile(c.profiles[i], e));
        assert(c2.profiles =~= c1.profiles);
    } else {
        let n = c.profiles.len() as int;
        assert(first_profile_with(c1.profiles, id, n)) by {
            assert forall|j: int| 0 <= j < n implies c1.profiles[j].id != id by {
                assert(c1.profiles[j] == c.profiles[j]);
                if c.profiles[j].id == id {
                    assert(has_profile(c.profiles, id));
                }
            }
        }
        assert(has_profile(c1.profiles, id));
        let k = choose|k: int| first_profile_with(c1.profiles, id, k);
        lemma_first_profile_unique(c1.profiles, id, n, k);
        let p = edited_profile(new_profile_view(id), e);
        assert(edited_profile(p, e) == p);
        assert(c2.profiles =~= c1.profiles);
    }
    assert(c2 == c1);
}

/// The configuration migrated from legacy settings has a valid active profile.
pub proof fn law_legacy_config_active(s: LegacySettingsView)
    ensures
        active_valid(legacy_config(s)),
{
    let c = legacy_config(s);
    assert(c.profiles[0].id == c.active_profile_id);
}

/// Whether a character is a lowercase hexadecimal digit.
pub open spec fn is_lower_hex(c: char) -> bool {
    ('0' <= c && c <= '9') || ('a' <= c && c <= 'f')
}

proof fn lemma_hex_text(bytes: Seq<u8>)
    ensures
        hex_text(bytes).len() == 2 * bytes.len(),
        forall|i: int| 0 <= i < hex_text(bytes).len() ==> is_lower_hex(#[trigger] hex_text(bytes)[i]),
    decreases bytes.len(),
{
    if bytes.len() > 0 {
        lemma_hex_text(bytes.drop_last());
        let b = bytes.last();
        let h = hex_byte_text(b);
        assert(is_lower_hex(digit_char((b / 16) as int)));
        assert(is_lower_hex(digit_char((b % 16) as int)));
        let prev = hex_text(bytes.drop_last());
        assert forall|i: int| 0 <= i < hex_text(bytes).len() implies is_lower_hex(#[trigger] hex_text(bytes)[i]) by {
            if i < prev.len() {
                assert(hex_text(bytes)[i] == prev[i]);
            } else {
                assert(hex_text(bytes)[i] == h[i - prev.len()]);
            }
        }
    }
}

/// A generated token is `gitsync_` followed by two lowercase hexadecimal
/// digits per random byte: 40 characters for sixteen bytes.
pub proof fn law_token_shape(bytes: Seq<u8>)
    ensures
        token_text(bytes).len() == 8 + 2 * bytes.len(),
        token_text(bytes).subrange(0, 8) == "gitsync_"@,
        forall|i: int| 8 <= i < token_text(bytes).len() ==> is_lower_hex(#[trigger] token_text(bytes)[i]),
{
    reveal_strlit("gitsync_");
    lemma_hex_text(bytes);
    let t = token_text(bytes);
    assert(token_prefix().len() == 8);
    assert(t.subrange(0, 8) =~= "gitsync_"@);
    assert forall|i: int| 8 <= i < t.len() implies is_lower_hex(#[trigger] t[i]) by {
        assert(t[i] == hex_text(bytes)[i - 8]);
    }
}


/// No two statuses are for the same repository.
pub open spec fn repos_distinct(rs: Seq<RepoStatusView>) -> bool {
    forall|i: int, j: int| 0 <= i < j < rs.len() ==> rs[i].full_name != rs[j].full_name
}

/// Registering the repositories of a cycle keeps every status already known
/// (in place), covers every repository of the cycle, and never lists a
/// repository twice.
pub proof fn law_registered(rs: Seq<RepoStatusView>, remote: Seq<RemoteRepoView>)
    ensures
        rs.is_prefix_of(registered(rs, remote)),
        forall|i: int| 0 <= i < remote.len() ==> has_repo(registered(rs, remote), #[trigger] remote[i].full_name),
        repos_distinct(rs) ==> repos_distinct(registered(rs, remote)),
    decreases remote.len(),
{
    if remote.len() > 0 {
        let d = remote.drop_last();
        law_registered(rs, d);
        let prev = registered(rs, d);
        let last = remote.last();
        let cur = registered(rs, remote);
        if !has_repo(prev, last.full_name) {
            assert(cur == prev.push(idle_status(last)));
            assert(cur[prev.len() as int].full_name == last.full_name);
        }
        assert forall|i: int| 0 <= i < remote.len() implies has_repo(cur, #[trigger] remote[i].full_name) by {
            if i < d.len() {
                assert(d[i] == remote[i]);
                let w = choose|w: int| 0 <= w < prev.len() && prev[w].full_name == d[i].full_name;
                assert(cur[w] == prev[w]);
            } else if has_repo(prev, last.full_name) {
                let w = choose|w: int| 0 <= w < prev.len() && prev[w].full_name == last.full_name;
                assert(cur[w] == prev[w]);
            }
        }
        if repos_distinct(rs) && !has_repo(prev, last.full_name) {
            assert forall|i: int, j: int| 0 <= i < j < cur.len() implies cur[i].full_name != cur[j].full_name by {
                if j == prev.len() {
                    assert(cur[i] == prev[i]);
                }
            }
        }
    }
}


/// An operation on the state of one profile leaves every other profile's
/// state, and everything else of the shared state, as it was.
pub proof fn law_other_profiles_untouched(s: SyncStateView, id: Seq<char>, p: ProfileSyncStateView, other: Seq<char>)
    requires
        other != id,
    ensures
        with_profile_state(s, id, p).profile_states.contains_key(other) == s.profile_states.contains_key(other),
        s.profile_states.contains_key(other) ==> with_profile_state(s, id, p).profile_states[other] == s.profile_states[other],
        with_profile_state(s, id, p).profiles == s.profiles,
        with_profile_state(s, id, p).active_profile_id == s.active_profile_id,
        with_profile_state(s, id, p).next_sync_mode == s.next_sync_mode,
        with_profile_state(s, id, p).profile_states[id] == p,
{
}

/// A repository step leaves a repository alone exactly when it exists locally
/// and the cycle only clones missing ones (`MissingOnly`); in `Full` and
/// `UpdatesOnly` cycles an existing repository is pulled (marked `Pulling`), and
/// a missing one is cloned (marked `Cloning`) in every mode.
pub proof fn law_repo_step_skips(
    s0: SyncStateView,
    s1: SyncStateView,
    id: Seq<char>,
    index: nat,
    total: nat,
    repo: RemoteRepoView,
    exists: bool,
    mode: SyncMode,
    r: RepoStep,
)
    requires
        repo_step_holds(s0, s1, id, index, total, repo, exists, mode, r),
    ensures
        (r is Skip) <==> (exists && mode == SyncMode::MissingOnly),
        (r matches RepoStep::Sync(_)) <==> ((!exists) || mode == SyncMode::Full || mode == SyncMode::UpdatesOnly),
        exists && mode != SyncMode::MissingOnly ==> state_of(s1.profile_states, id).repos == with_repo_status(
            state_of(s0.profile_states, id).repos,
            repo.full_name,
            "Pulling"@,
        ),
        !exists ==> state_of(s1.profile_states, id).repos == with_repo_status(
            state_of(s0.profile_states, id).repos,
            repo.full_name,
            "Cloning"@,
        ),
        r is Skip ==> state_of(s1.profile_states, id).repos == with_repo_status(
            state_of(s0.profile_states, id).repos,
            repo.full_name,
            "Success"@,
        ),
{
    match mode {
        SyncMode::Full => {},
        SyncMode::MissingOnly => {},
        SyncMode::UpdatesOnly => {},
    }
}

/// The source of a cycle's repository list: an `UpdatesOnly` cycle scans the
/// local directory whatever the provider; the other modes ask the API of the
/// provider, GitLab exactly when its name is `gitlab` in any case.
pub proof fn law_repo_source(mode: SyncMode, provider: Seq<char>)
    ensures
        mode == SyncMode::UpdatesOnly ==> source_for(mode, provider) == RepoSource::LocalDisk,
        mode != SyncMode::UpdatesOnly ==> source_for(mode, provider) != RepoSource::LocalDisk,
        source_for(mode, provider) == RepoSource::Gitlab <==> (mode != SyncMode::UpdatesOnly && lowercase_text(
            provider,
        ) == "gitlab"@),
        source_for(SyncMode::UpdatesOnly, provider) == source_for(SyncMode::UpdatesOnly, "github"@),
{
}

/// An edit sets each field it gives a value to that value, and leaves every
/// other field, and the id, as it was.
pub proof fn law_edit_sets_fields(p: SyncProfileView, e: ProfileEditView)
    ensures
        edited_profile(p, e).id == p.id,
        e.name matches Some(v) ==> edited_profile(p, e).name == v,
        e.name is None ==> edited_profile(p, e).name == p.name,
        e.provider matches Some(v) ==> edited_profile(p, e).provider == v,
        e.provider is None ==> edited_profile(p, e).provider == p.provider,
        e.domain matches Some(v) ==> edited_profile(p, e).domain == v,
        e.domain is None ==> edited_profile(p, e).domain == p.domain,
        e.username matches Some(v) ==> edited_profile(p, e).username == v,
        e.username is None ==> edited_profile(p, e).username == p.username,
        e.token matches Some(v) ==> edited_profile(p, e).token == v,
        e.token is None ==> edited_profile(p, e).token == p.token,
        e.local_path matches Some(v) ==> edited_profile(p, e).local_path == v,
        e.local_path is None ==> edited_profile(p, e).local_path == p.local_path,
        e.sync_interval_secs matches Some(v) ==> edited_profile(p, e).sync_interval_secs == v,
        e.sync_interval_secs is None ==> edited_profile(p, e).sync_interval_secs == p.sync_interval_secs,
{
}

/// The active profile after an edit: the edited one when the edit asks for
/// it or when none was active; otherwise the active profile stays, whether
/// the edited profile existed or was created.
pub proof fn law_edit_active_profile(c: ConfigView, id: Seq<char>, e: ProfileEditView)
    ensures
        !e.activate && c.active_profile_id.len() > 0 ==> after_profile_edit(c, id, e).active_profile_id
            == c.active_profile_id,
        e.activate ==> after_profile_edit(c, id, e).active_profile_id == id,
        c.active_profile_id.len() == 0 ==> after_profile_edit(c, id, e).active_profile_id == id,
        after_profile_edit(c, id, e).web_port == c.web_port,
        after_profile_edit(c, id, e).web_tokens == c.web_tokens,
{
}

/// A status is the one a repository gets when first seen: its name, full
/// name and visibility, `Idle`, with no error and no sync time.
pub open spec fn fresh_status_of(st: RepoStatusView, r: RemoteRepoView) -> bool {
    &&& st.full_name == r.full_name
    &&& st.name == r.name
    &&& st.is_private == r.private
    &&& st.status == "Idle"@
    &&& st.error is None
    &&& st.last_sync is None
}

/// Every status that registering adds (at a position `k` past the statuses
/// already known) is the fresh status of a repository of the cycle.
pub proof fn law_registered_new_status(rs: Seq<RepoStatusView>, remote: Seq<RemoteRepoView>, k: int)
    requires
        rs.len() <= k < registered(rs, remote).len(),
    ensures
        exists|j: int| 0 <= j < remote.len() && #[trigger] fresh_status_of(registered(rs, remote)[k], remote[j]),
    decreases remote.len(),
{
    if remote.len() == 0 {
        assert(registered(rs, remote) == rs);
    } else {
        let d = remote.drop_last();
        let prev = registered(rs, d);
        let cur = registered(rs, remote);
        if has_repo(prev, remote.last().full_name) {
            assert(cur == prev);
        } else {
            assert(cur == prev.push(idle_status(remote.last())));
        }
        if k < prev.len() {
            law_registered_new_status(rs, d, k);
            assert(cur[k] == prev[k]);
            let j = choose|j: int| 0 <= j < d.len() && #[trigger] fresh_status_of(prev[k], d[j]);
            assert(d[j] == remote[j]);
            assert(fresh_status_of(cur[k], remote[j]));
        } else {
            let j = remote.len() - 1;
            assert(cur[k] == idle_status(remote[j]));
            assert(fresh_status_of(cur[k], remote[j]));
        }
    }
}

/// Registering one repository not yet known appends its idle status: its own
/// name, full name and visibility.
pub proof fn law_register_one(rs: Seq<RepoStatusView>, r: RemoteRepoView)
    requires
        !has_repo(rs, r.full_name),
    ensures
        registered(rs, seq![r]) == rs.push(
            RepoStatusView {
                name: r.name,
                full_name: r.full_name,
                status: "Idle"@,
                error: None,
                last_sync: None,
                is_private: r.private,
            },
        ),
{
    assert(seq![r].drop_last() =~= Seq::<RemoteRepoView>::empty());
    assert(registered(rs, seq![r].drop_last()) == rs);
}

/// Editing a profile that does not exist yet appends it after the others:
/// its id is the one asked for, and each field is the edit's value or, when
/// the edit gives none, the default (the id as name, `github`, `github.com`,
/// empty credentials and path, an hour between syncs).
pub proof fn law_edit_creates_profile(c: ConfigView, id: Seq<char>, e: ProfileEditView)
    requires
        !has_profile(c.profiles, id),
    ensures
        ({
            let ps = after_profile_edit(c, id, e).profiles;
            let q = ps.last();
            &&& ps.len() == c.profiles.len() + 1
            &&& ps.drop_last() == c.profiles
            &&& q.id == id
            &&& q.name == (match e.name { Some(v) => v, None => id })
            &&& q.provider == (match e.provider { Some(v) => v, None => "github"@ })
            &&& q.domain == (match e.domain { Some(v) => v, None => "github.com"@ })
            &&& q.username == (match e.username { Some(v) => v, None => Seq::<char>::empty() })
            &&& q.token == (match e.token { Some(v) => v, None => Seq::<char>::empty() })
            &&& q.local_path == (match e.local_path { Some(v) => v, None => Seq::<char>::empty() })
            &&& q.sync_interval_secs == (match e.sync_interval_secs { Some(v) => v, None => 3600u64 })
        }),
{
    let ps = after_profile_edit(c, id, e).profiles;
    assert(ps.drop_last() =~= c.profiles);
}

/// Editing a profile that exists changes the first profile with that id, by
/// the edit's fields, and no other profile.
pub proof fn law_edit_existing_profile(c: ConfigView, id: Seq<char>, e: ProfileEditView, i: int)
    requires
        first_profile_with(c.profiles, id, i),
    ensures
        ({
            let ps = after_profile_edit(c, id, e).profiles;
            &&& ps.len() == c.profiles.len()
            &&& forall|j: int| 0 <= j < ps.len() && j != i ==> ps[j] == c.profiles[j]
            &&& ps[i].id == id
            &&& e.domain matches Some(v) ==> ps[i].domain == v
            &&& e.domain is None ==> ps[i].domain == c.profiles[i].domain
            &&& e.username matches Some(v) ==> ps[i].username == v
            &&& e.token matches Some(v) ==> ps[i].token == v
            &&& e.local_path matches Some(v) ==> ps[i].local_path == v
            &&& e.provider matches Some(v) ==> ps[i].provider == v
            &&& e.name matches Some(v) ==> ps[i].name == v
            &&& e.sync_interval_secs matches Some(v) ==> ps[i].sync_interval_secs == v
        }),
{
    let k = choose|k: int| first_profile_with(c.profiles, id, k);
    lemma_first_profile_unique(c.profiles, id, k, i);
}

/// What the `config` command hands to the profile edit: the same changes,
/// except that a relative local path is made absolute against an absolute
/// working directory (it then ends with the path as given); an absolute path
/// is kept as it is. A new port replaces the old one and changes nothing else.
pub proof fn law_command_edit(e: ProfileEditView, cwd: Option<Seq<char>>, c: ConfigView, port: Option<u16>)
    ensures
        ({
            let f = edit_with_path(e, cwd);
            &&& f.name == e.name && f.provider == e.provider && f.domain == e.domain
            &&& f.username == e.username && f.token == e.token
            &&& f.sync_interval_secs == e.sync_interval_secs && f.activate == e.activate
            &&& f.local_path is Some <==> e.local_path is Some
            &&& e.local_path matches Some(p) ==> (is_absolute_text(p) ==> f.local_path == Some(p))
            &&& e.local_path matches Some(p) ==> (!is_absolute_text(p) ==> (cwd matches Some(w) ==> (
                is_absolute_text(w) ==> (f.local_path matches Some(q) && is_absolute_text(q) && q.len() >= p.len()
                    && q.subrange(q.len() - p.len(), q.len() as int) == p))))
        }),
        port matches Some(v) ==> with_port(c, port).web_port == v,
        port is None ==> with_port(c, port).web_port == c.web_port,
        with_port(c, port).profiles == c.profiles,
        with_port(c, port).active_profile_id == c.active_profile_id,
        with_port(c, port).web_tokens == c.web_tokens,
{
    if let Some(p) = e.local_path {
        if !is_absolute_text(p) {
            if let Some(w) = cwd {
                if is_absolute_text(w) {
                    let q = if w.last() == '/' { w + p } else { w.push('/') + p };
                    assert(q.subrange(q.len() - p.len(), q.len() as int) =~= p);
                    assert(q[0] == w[0]);
                }
            }
        }
    }
}

} // verus!
