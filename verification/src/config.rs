//! The daemon's configuration: sync profiles, web access tokens and the web
//! server's address, with the rules that edit them.

use vstd::prelude::*;
use crate::text::{
    join2, join3, owned, push_hex_byte, hex_byte_text, same_text, decimal, decimal_text, strings_text, utf8_lossy,
    utf8_lossy_text,
};
use crate::paths::{absolute_local_path, absolute_path_spec};
use crate::text::opt_text;

verus! {

/// One account to mirror: where it lives, how to authenticate, and where to put it.
#[derive(Clone, Debug)]
pub struct SyncProfile {
    pub id: String,
    pub name: String,
    /// "github" or "gitlab"
    pub provider: String,
    /// e.g. "github.com" or "gitlab.example.org"
    pub domain: String,
    pub username: String,
    pub token: String,
    pub local_path: String,
    pub sync_interval_secs: u64,
}

pub struct SyncProfileView {
    pub id: Seq<char>,
    pub name: Seq<char>,
    pub provider: Seq<char>,
    pub domain: Seq<char>,
    pub username: Seq<char>,
    pub token: Seq<char>,
    pub local_path: Seq<char>,
    pub sync_interval_secs: u64,
}

impl View for SyncProfile {
    type V = SyncProfileView;

    open spec fn view(&self) -> SyncProfileView {
        SyncProfileView {
            id: self.id@,
            name: self.name@,
            provider: self.provider@,
            domain: self.domain@,
            username: self.username@,
            token: self.token@,
            local_path: self.local_path@,
            sync_interval_secs: self.sync_interval_secs,
        }
    }
}

impl SyncProfile {
    /// A field-by-field copy.
    pub fn duplicate(&self) -> (r: SyncProfile)
        ensures
            r@ == self@,
    {
        SyncProfile {
            id: self.id.clone(),
            name: self.name.clone(),
            provider: self.provider.clone(),
            domain: self.domain.clone(),
            username: self.username.clone(),
            token: self.token.clone(),
            local_path: self.local_path.clone(),
            sync_interval_secs: self.sync_interval_secs,
        }
    }
}

/// A named token that grants access to the web dashboard.
#[derive(Clone, Debug)]
pub struct WebToken {
    pub name: String,
    pub token: String,
    pub created_at: String,
}

pub struct WebTokenView {
    pub name: Seq<char>,
    pub token: Seq<char>,
    pub created_at: Seq<char>,
}

impl View for WebToken {
    type V = WebTokenView;

    open spec fn view(&self) -> WebTokenView {
        WebTokenView { name: self.name@, token: self.token@, created_at: self.created_at@ }
    }
}

/// The whole configuration file.
#[derive(Clone, Debug)]
pub struct Config {
    pub profiles: Vec<SyncProfile>,
    pub active_profile_id: String,
    pub web_host: String,
    pub web_port: u16,
    pub web_tokens: Vec<WebToken>,
}

pub struct ConfigView {
    pub profiles: Seq<SyncProfileView>,
    pub active_profile_id: Seq<char>,
    pub web_host: Seq<char>,
    pub web_port: u16,
    pub web_tokens: Seq<WebTokenView>,
}

pub open spec fn profile_views(ps: Seq<SyncProfile>) -> Seq<SyncProfileView> {
    ps.map_values(|p: SyncProfile| p@)
}

pub open spec fn token_views(ts: Seq<WebToken>) -> Seq<WebTokenView> {
    ts.map_values(|t: WebToken| t@)
}

impl View for Config {
    type V = ConfigView;

    open spec fn view(&self) -> ConfigView {
        ConfigView {
            profiles: profile_views(self.profiles@),
            active_profile_id: self.active_profile_id@,
            web_host: self.web_host@,
            web_port: self.web_port,
            web_tokens: token_views(self.web_tokens@),
        }
    }
}

/// The host the web server binds to unless configured otherwise.
pub open spec fn spec_default_web_host() -> Seq<char> {
    "127.0.0.1"@
}

/// The port the web server listens on unless configured otherwise.
pub open spec fn spec_default_web_port() -> u16 {
    9090
}

pub fn default_web_host() -> (r: String)
    ensures
        r@ == spec_default_web_host(),
{
    owned("127.0.0.1")
}

pub fn default_web_port() -> (r: u16)
    ensures
        r == spec_default_web_port(),
{
    9090
}

/// The configuration used when no file exists yet.
pub open spec fn default_config() -> ConfigView {
    ConfigView {
        profiles: Seq::empty(),
        active_profile_id: Seq::empty(),
        web_host: spec_default_web_host(),
        web_port: spec_default_web_port(),
        web_tokens: Seq::empty(),
    }
}

impl Default for Config {
    fn default() -> (r: Config)
        ensures
            r@ == default_config(),
    {
        let r = Config {
            profiles: Vec::new(),
            active_profile_id: String::new(),
            web_host: default_web_host(),
            web_port: default_web_port(),
            web_tokens: Vec::new(),
        };
        assert(r@.profiles =~= Seq::<SyncProfileView>::empty());
        assert(r@.web_tokens =~= Seq::<WebTokenView>::empty());
        r
    }
}


/// `rand::thread_rng().gen::<u8>()`: one random byte. Nothing is claimed of it.
#[verifier::external_body]
fn random_byte() -> (r: u8)
{
    rand::Rng::gen::<u8>(&mut rand::thread_rng())
}

/// `chrono::Utc::now().to_rfc3339()`: the current time as RFC 3339 text.
/// Nothing is claimed of it: it depends on the clock.
#[verifier::external_body]
pub fn now_rfc3339() -> (r: String)
{
    chrono::Utc::now().to_rfc3339()
}

/// The lowercase hexadecimal text of a byte sequence, two digits per byte.
pub open spec fn hex_text(bytes: Seq<u8>) -> Seq<char>
    decreases bytes.len(),
{
    if bytes.len() == 0 {
        Seq::empty()
    } else {
        hex_text(bytes.drop_last()) + hex_byte_text(bytes.last())
    }
}

/// The prefix of every generated access token.
pub open spec fn token_prefix() -> Seq<char> {
    "gitsync_"@
}

/// The access token made from random bytes: the prefix, then their hexadecimal text.
pub open spec fn token_text(bytes: Seq<u8>) -> Seq<char> {
    token_prefix() + hex_text(bytes)
}

/// Whether `t` is a token made from sixteen random bytes.
pub open spec fn is_generated_token(t: Seq<char>) -> bool {
    exists|bytes: Seq<u8>| bytes.len() == 16 && t == token_text(bytes)
}

/// The access token for the given bytes.
pub fn token_from_bytes(bytes: &Vec<u8>) -> (r: String)
    ensures
        r@ == token_text(bytes@),
{
    let mut s = owned("gitsync_");
    let mut i: usize = 0;
    while i < bytes.len()
        invariant
            i <= bytes.len(),
            s@ == token_prefix() + hex_text(bytes@.subrange(0, i as int)),
        decreases bytes.len() - i,
    {
        let ghost before = bytes@.subrange(0, i as int);
        push_hex_byte(&mut s, bytes[i]);
        i = i + 1;
        assert(bytes@.subrange(0, i as int).drop_last() =~= before);
        assert(s@ =~= token_prefix() + hex_text(bytes@.subrange(0, i as int)));
    }
    assert(bytes@.subrange(0, bytes.len() as int) =~= bytes@);
    s
}

/// A fresh access token: `gitsync_` followed by 32 lowercase hexadecimal digits
/// of sixteen random bytes.
pub fn generate_random_token() -> (r: String)
    ensures
        is_generated_token(r@),
{
    let mut bytes: Vec<u8> = Vec::new();
    let mut i: usize = 0;
    while i < 16
        invariant
            i <= 16,
            bytes@.len() == i,
        decreases 16 - i,
    {
        bytes.push(random_byte());
        i = i + 1;
    }
    let r = token_from_bytes(&bytes);
    assert(bytes@.len() == 16 && r@ == token_text(bytes@));
    r
}

/// Whether some token in `ts` carries `name`.
pub open spec fn has_token_named(ts: Seq<WebTokenView>, name: Seq<char>) -> bool {
    exists|i: int| 0 <= i < ts.len() && ts[i].name == name
}

/// Whether `i` is the first position in `ts` of a token named `name`.
pub open spec fn first_token_named(ts: Seq<WebTokenView>, name: Seq<char>, i: int) -> bool {
    &&& 0 <= i < ts.len()
    &&& ts[i].name == name
    &&& forall|j: int| 0 <= j < i ==> ts[j].name != name
}

pub open spec fn token_exists_message(name: Seq<char>) -> Seq<char> {
    "Token with name '"@ + name + "' already exists."@
}

pub open spec fn token_missing_message(name: Seq<char>) -> Seq<char> {
    "Token with name '"@ + name + "' not found."@
}

/// The tokens that remain when those named `name` are deleted.
pub open spec fn tokens_without(ts: Seq<WebTokenView>, name: Seq<char>) -> Seq<WebTokenView> {
    ts.filter(|t: WebTokenView| t.name != name)
}

/// The configuration with its token list replaced.
pub open spec fn with_tokens(c: ConfigView, ts: Seq<WebTokenView>) -> ConfigView {
    ConfigView { web_tokens: ts, ..c }
}

impl WebToken {
    pub fn duplicate(&self) -> (r: WebToken)
        ensures
            r@ == self@,
    {
        WebToken { name: self.name.clone(), token: self.token.clone(), created_at: self.created_at.clone() }
    }
}

impl Config {
    /// The position of the first token named `name`.
    pub fn token_index(&self, name: &str) -> (r: Option<usize>)
        ensures
            match r {
                Some(i) => first_token_named(self@.web_tokens, name@, i as int),
                None => !has_token_named(self@.web_tokens, name@),
            },
    {
        let mut i: usize = 0;
        while i < self.web_tokens.len()
            invariant
                i <= self.web_tokens.len(),
                forall|j: int| 0 <= j < i ==> self@.web_tokens[j].name != name@,
            decreases self.web_tokens.len() - i,
        {
            if same_text(self.web_tokens[i].name.as_str(), name) {
                return Some(i);
            }
            i = i + 1;
        }
        None
    }

    /// The value of the first token named `name`, if any.
    pub fn web_token_value(&self, name: &str) -> (r: Option<String>)
        ensures
            match r {
                Some(v) => exists|i: int|
                    first_token_named(self@.web_tokens, name@, i) && v@ == self@.web_tokens[i].token,
                None => !has_token_named(self@.web_tokens, name@),
            },
    {
        match self.token_index(name) {
            Some(i) => Some(self.web_tokens[i].token.clone()),
            None => None,
        }
    }

    /// Adds a token unless one with the same name exists.
    pub fn add_web_token(&mut self, name: &str, value: &str, created_at: &str) -> (r: Result<(), String>)
        ensures
            has_token_named(old(self)@.web_tokens, name@) ==> {
                &&& r matches Err(m) && m@ == token_exists_message(name@)
                &&& final(self)@ == old(self)@
            },
            !has_token_named(old(self)@.web_tokens, name@) ==> {
                &&& r is Ok
                &&& final(self)@ == with_tokens(
                    old(self)@,
                    old(self)@.web_tokens.push(
                        WebTokenView { name: name@, token: value@, created_at: created_at@ },
                    ),
                )
            },
    {
        if self.token_index(name).is_some() {
            return Err(join3("Token with name '", name, "' already exists."));
        }
        let ghost before = self.web_tokens@;
        self.web_tokens.push(WebToken { name: owned(name), token: owned(value), created_at: owned(created_at) });
        assert(token_views(self.web_tokens@) =~= token_views(before).push(
            WebTokenView { name: name@, token: value@, created_at: created_at@ },
        ));
        Ok(())
    }

    /// Creates a token named `name` with the given value, or a generated one,
    /// stamped with the current time; returns its value.
    pub fn create_web_token(&mut self, name: &str, value: Option<String>) -> (r: Result<String, String>)
        ensures
            has_token_named(old(self)@.web_tokens, name@) ==> {
                &&& r matches Err(m) && m@ == token_exists_message(name@)
                &&& final(self)@ == old(self)@
            },
            !has_token_named(old(self)@.web_tokens, name@) ==> (r matches Ok(v) && {
                &&& (value matches Some(x) ==> v@ == x@)
                &&& (value is None ==> is_generated_token(v@))
                &&& exists|created: Seq<char>| final(self)@ == with_tokens(
                    old(self)@,
                    old(self)@.web_tokens.push(WebTokenView { name: name@, token: v@, created_at: created }),
                )
            }),
    {
        if self.token_index(name).is_some() {
            return Err(join3("Token with name '", name, "' already exists."));
        }
        let v = match value {
            Some(x) => x,
            None => generate_random_token(),
        };
        let created = now_rfc3339();
        let added = self.add_web_token(name, v.as_str(), created.as_str());
        assert(added is Ok);
        Ok(v)
    }

    /// On a first start: when there is no access token at all, creates one named
    /// `default` and returns its value.
    pub fn ensure_default_token(&mut self) -> (r: Option<String>)
        ensures
            old(self)@.web_tokens.len() > 0 ==> r is None && final(self)@ == old(self)@,
            old(self)@.web_tokens.len() == 0 ==> (r matches Some(v) && {
                &&& is_generated_token(v@)
                &&& exists|created: Seq<char>| final(self)@ == with_tokens(
                    old(self)@,
                    seq![WebTokenView { name: "default"@, token: v@, created_at: created }],
                )
            }),
    {
        if self.web_tokens.len() > 0 {
            return None;
        }
        let v = generate_random_token();
        let created = now_rfc3339();
        let added = self.add_web_token("default", v.as_str(), created.as_str());
        assert(old(self)@.web_tokens.push(
            WebTokenView { name: "default"@, token: v@, created_at: created@ },
        ) =~= seq![WebTokenView { name: "default"@, token: v@, created_at: created@ }]);
        Some(v)
    }

    /// Deletes every token named `name`; fails when there was none.
    pub fn remove_web_token(&mut self, name: &str) -> (r: Result<(), String>)
        ensures
            final(self)@ == with_tokens(old(self)@, tokens_without(old(self)@.web_tokens, name@)),
            r is Err <==> !has_token_named(old(self)@.web_tokens, name@),
            r matches Err(m) ==> m@ == token_missing_message(name@),
    {
        let ghost olds = old(self)@.web_tokens;
        let mut kept: Vec<WebToken> = Vec::new();
        let mut found = false;
        let mut i: usize = 0;
        while i < self.web_tokens.len()
            invariant
                i <= self.web_tokens.len(),
                token_views(self.web_tokens@) == olds,
                token_views(kept@) == tokens_without(olds.subrange(0, i as int), name@),
                found <==> exists|j: int| 0 <= j < i && olds[j].name == name@,
            decreases self.web_tokens.len() - i,
        {
            let ghost pre = olds.subrange(0, i as int);
            let ghost next = olds.subrange(0, i + 1);
            assert(next.drop_last() =~= pre);
            assert(next.last() == olds[i as int]);
            assert(self.web_tokens@[i as int]@ == olds[i as int]);
            assert(tokens_without(next, name@) == (if olds[i as int].name != name@ {
                tokens_without(pre, name@).push(olds[i as int])
            } else {
                tokens_without(pre, name@)
            })) by {
                reveal(Seq::filter);
            }
            if same_text(self.web_tokens[i].name.as_str(), name) {
                found = true;
            } else {
                let ghost kv = token_views(kept@);
                kept.push(self.web_tokens[i].duplicate());
                assert(token_views(kept@) =~= kv.push(olds[i as int]));
            }
            i = i + 1;
            assert(found <==> exists|j: int| 0 <= j < i && olds[j].name == name@);
        }
        assert(olds.subrange(0, i as int) =~= olds);
        self.web_tokens = kept;
        if !found {
            Err(join3("Token with name '", name, "' not found."))
        } else {
            Ok(())
        }
    }
}


/// Whether some profile in `ps` has the id `id`.
pub open spec fn has_profile(ps: Seq<SyncProfileView>, id: Seq<char>) -> bool {
    exists|i: int| 0 <= i < ps.len() && ps[i].id == id
}

/// Whether `i` is the first position in `ps` of a profile with the id `id`.
pub open spec fn first_profile_with(ps: Seq<SyncProfileView>, id: Seq<char>, i: int) -> bool {
    &&& 0 <= i < ps.len()
    &&& ps[i].id == id
    &&& forall|j: int| 0 <= j < i ==> ps[j].id != id
}

pub open spec fn profile_missing_message(id: Seq<char>) -> Seq<char> {
    "Profile '"@ + id + "' does not exist."@
}

pub open spec fn profiles_without(ps: Seq<SyncProfileView>, id: Seq<char>) -> Seq<SyncProfileView> {
    ps.filter(|p: SyncProfileView| p.id != id)
}

/// The active profile after the profile `id` is deleted: unchanged unless it was
/// the deleted one, then the first remaining profile, or none.
pub open spec fn active_after_delete(
    active: Seq<char>,
    id: Seq<char>,
    remaining: Seq<SyncProfileView>,
) -> Seq<char> {
    if active == id {
        if remaining.len() > 0 {
            remaining[0].id
        } else {
            Seq::empty()
        }
    } else {
        active
    }
}

/// The configuration after the profile `id` is deleted.
pub open spec fn after_profile_delete(c: ConfigView, id: Seq<char>) -> ConfigView {
    let remaining = profiles_without(c.profiles, id);
    ConfigView {
        profiles: remaining,
        active_profile_id: active_after_delete(c.active_profile_id, id, remaining),
        ..c
    }
}

/// The profile created for an id that has none yet.
pub open spec fn new_profile_view(id: Seq<char>) -> SyncProfileView {
    SyncProfileView {
        id: id,
        name: id,
        provider: "github"@,
        domain: "github.com"@,
        username: Seq::empty(),
        token: Seq::empty(),
        local_path: Seq::empty(),
        sync_interval_secs: 3600,
    }
}

/// Changes to one profile, as given on the command line; `None` keeps a field.
#[derive(Clone, Debug)]
pub struct ProfileEdit {
    pub name: Option<String>,
    pub provider: Option<String>,
    pub domain: Option<String>,
    pub username: Option<String>,
    pub token: Option<String>,
    pub local_path: Option<String>,
    pub sync_interval_secs: Option<u64>,
    /// Make the profile the active one.
    pub activate: bool,
}

pub struct ProfileEditView {
    pub name: Option<Seq<char>>,
    pub provider: Option<Seq<char>>,
    pub domain: Option<Seq<char>>,
    pub username: Option<Seq<char>>,
    pub token: Option<Seq<char>>,
    pub local_path: Option<Seq<char>>,
    pub sync_interval_secs: Option<u64>,
    pub activate: bool,
}

impl View for ProfileEdit {
    type V = ProfileEditView;

    open spec fn view(&self) -> ProfileEditView {
        ProfileEditView {
            name: opt_text(self.name),
            provider: opt_text(self.provider),
            domain: opt_text(self.domain),
            username: opt_text(self.username),
            token: opt_text(self.token),
            local_path: opt_text(self.local_path),
            sync_interval_secs: self.sync_interval_secs,
            activate: self.activate,
        }
    }
}

pub open spec fn or_keep(o: Option<Seq<char>>, d: Seq<char>) -> Seq<char> {
    match o {
        Some(v) => v,
        None => d,
    }
}

/// Whether the edit changes anything of a profile.
pub open spec fn edit_has_updates(e: ProfileEditView) -> bool {
    e.name is Some || e.provider is Some || e.domain is Some || e.username is Some
        || e.token is Some || e.local_path is Some || e.sync_interval_secs is Some || e.activate
}

/// A profile with the edit applied.
pub open spec fn edited_profile(p: SyncProfileView, e: ProfileEditView) -> SyncProfileView {
    SyncProfileView {
        id: p.id,
        name: or_keep(e.name, p.name),
        provider: or_keep(e.provider, p.provider),
        domain: or_keep(e.domain, p.domain),
        username: or_keep(e.username, p.username),
        token: or_keep(e.token, p.token),
        local_path: or_keep(e.local_path, p.local_path),
        sync_interval_secs: match e.sync_interval_secs {
            Some(i) => i,
            None => p.sync_interval_secs,
        },
    }
}

/// The configuration after the profile `id` is edited: the first profile with
/// that id is changed, or a new one is appended; it becomes active when asked
/// to, or when no profile is active.
pub open spec fn after_profile_edit(c: ConfigView, id: Seq<char>, e: ProfileEditView) -> ConfigView {
    let profiles = if has_profile(c.profiles, id) {
        let i = choose|i: int| first_profile_with(c.profiles, id, i);
        c.profiles.update(i, edited_profile(c.profiles[i], e))
    } else {
        c.profiles.push(edited_profile(new_profile_view(id), e))
    };
    ConfigView {
        profiles: profiles,
        active_profile_id: if e.activate || c.active_profile_id.len() == 0 {
            id
        } else {
            c.active_profile_id
        },
        ..c
    }
}

/// The profile a command edits: the one it names, else the active one, else `default`.
pub open spec fn resolved_profile_id(active: Seq<char>, requested: Option<Seq<char>>) -> Seq<char> {
    match requested {
        Some(r) => r,
        None => if active.len() > 0 {
            active
        } else {
            "default"@
        },
    }
}

/// Extending a prefix of `ps` by its next profile adds exactly that profile's id.
pub(crate) proof fn lemma_has_profile_extend(ps: Seq<SyncProfileView>, i: int)
    requires
        0 <= i < ps.len(),
    ensures
        forall|k: Seq<char>|
            has_profile(ps.subrange(0, i + 1), k) == (has_profile(ps.subrange(0, i), k) || k == ps[i].id),
{
    let pre = ps.subrange(0, i);
    let next = ps.subrange(0, i + 1);
    assert forall|k: Seq<char>| has_profile(next, k) == (has_profile(pre, k) || k == ps[i].id) by {
        if has_profile(next, k) {
            let w = choose|w: int| 0 <= w < next.len() && next[w].id == k;
            if w < pre.len() {
                assert(pre[w].id == k);
            }
        }
        if has_profile(pre, k) {
            let w = choose|w: int| 0 <= w < pre.len() && pre[w].id == k;
            assert(next[w].id == k);
        }
        if k == ps[i].id {
            assert(next[i].id == k);
        }
    }
}

pub(crate) proof fn lemma_first_profile_unique(ps: Seq<SyncProfileView>, id: Seq<char>, i: int, j: int)
    requires
        first_profile_with(ps, id, i),
        first_profile_with(ps, id, j),
    ensures
        i == j,
{
    if i < j {
        assert(ps[i].id != id);
    } else if j < i {
        assert(ps[j].id != id);
    }
}

fn pick(o: Option<String>, d: String) -> (r: String)
    ensures
        r@ == or_keep(opt_text(o), d@),
{
    match o {
        Some(v) => v,
        None => d,
    }
}

impl ProfileEdit {
    /// Whether the edit changes anything of a profile.
    pub fn has_updates(&self) -> (r: bool)
        ensures
            r == edit_has_updates(self@),
    {
        self.name.is_some() || self.provider.is_some() || self.domain.is_some()
            || self.username.is_some() || self.token.is_some() || self.local_path.is_some()
            || self.sync_interval_secs.is_some() || self.activate
    }
}

impl SyncProfile {
    /// The profile created for an id that has none yet.
    pub fn new_for_id(id: &str) -> (r: SyncProfile)
        ensures
            r@ == new_profile_view(id@),
    {
        SyncProfile {
            id: owned(id),
            name: owned(id),
            provider: owned("github"),
            domain: owned("github.com"),
            username: String::new(),
            token: String::new(),
            local_path: String::new(),
            sync_interval_secs: 3600,
        }
    }

    /// Applies an edit, field by field.
    pub fn apply_edit(self, e: ProfileEdit) -> (r: SyncProfile)
        ensures
            r@ == edited_profile(self@, e@),
    {
        SyncProfile {
            id: self.id,
            name: pick(e.name, self.name),
            provider: pick(e.provider, self.provider),
            domain: pick(e.domain, self.domain),
            username: pick(e.username, self.username),
            token: pick(e.token, self.token),
            local_path: pick(e.local_path, self.local_path),
            sync_interval_secs: match e.sync_interval_secs {
                Some(i) => i,
                None => self.sync_interval_secs,
            },
        }
    }
}

impl Config {
    /// The position of the first profile with the id `id`.
    pub fn profile_index(&self, id: &str) -> (r: Option<usize>)
        ensures
            match r {
                Some(i) => first_profile_with(self@.profiles, id@, i as int),
                None => !has_profile(self@.profiles, id@),
            },
    {
        let mut i: usize = 0;
        while i < self.profiles.len()
            invariant
                i <= self.profiles.len(),
                forall|j: int| 0 <= j < i ==> self@.profiles[j].id != id@,
            decreases self.profiles.len() - i,
        {
            if same_text(self.profiles[i].id.as_str(), id) {
                return Some(i);
            }
            i = i + 1;
        }
        None
    }

    /// Deletes every profile with the id `id`; when the active profile was
    /// deleted, the first remaining profile (or none) becomes active.
    pub fn delete_profile(&mut self, id: &str) -> (r: Result<(), String>)
        ensures
            has_profile(old(self)@.profiles, id@) ==> r is Ok && final(self)@ == after_profile_delete(
                old(self)@,
                id@,
            ),
            !has_profile(old(self)@.profiles, id@) ==> {
                &&& r matches Err(m) && m@ == profile_missing_message(id@)
                &&& final(self)@ == old(self)@
            },
    {
        if self.profile_index(id).is_none() {
            return Err(join3("Profile '", id, "' does not exist."));
        }
        let ghost olds = old(self)@.profiles;
        let mut kept: Vec<SyncProfile> = Vec::new();
        let mut i: usize = 0;
        while i < self.profiles.len()
            invariant
                i <= self.profiles.len(),
                profile_views(self.profiles@) == olds,
                profile_views(kept@) == profiles_without(olds.subrange(0, i as int), id@),
            decreases self.profiles.len() - i,
        {
            let ghost pre = olds.subrange(0, i as int);
            let ghost next = olds.subrange(0, i + 1);
            assert(next.drop_last() =~= pre);
            assert(next.last() == olds[i as int]);
            assert(self.profiles@[i as int]@ == olds[i as int]);
            assert(profiles_without(next, id@) == (if olds[i as int].id != id@ {
                profiles_without(pre, id@).push(olds[i as int])
            } else {
                profiles_without(pre, id@)
            })) by {
                reveal(Seq::filter);
            }
            if !same_text(self.profiles[i].id.as_str(), id) {
                let ghost kv = profile_views(kept@);
                kept.push(self.profiles[i].duplicate());
                assert(profile_views(kept@) =~= kv.push(olds[i as int]));
            }
            i = i + 1;
        }
        assert(olds.subrange(0, i as int) =~= olds);
        self.profiles = kept;
        if same_text(self.active_profile_id.as_str(), id) {
            if self.profiles.len() > 0 {
                self.active_profile_id = self.profiles[0].id.clone();
            } else {
                self.active_profile_id = String::new();
            }
        }
        Ok(())
    }

    /// The profile a command edits: the one it names, else the active one, else `default`.
    pub fn resolve_profile_id(&self, requested: Option<String>) -> (r: String)
        ensures
            r@ == resolved_profile_id(self@.active_profile_id, opt_text(requested)),
    {
        match requested {
            Some(id) => id,
            None => if !self.active_profile_id.as_str().is_empty() {
                self.active_profile_id.clone()
            } else {
                owned("default")
            },
        }
    }

    /// Edits the first profile with the id `id`, or appends a new one; makes it
    /// active when asked to or when no profile is active.
    pub fn apply_profile_edit(&mut self, id: &str, edit: ProfileEdit) -> (r: ())
        ensures
            final(self)@ == after_profile_edit(old(self)@, id@, edit@),
    {
        let activate = edit.activate;
        let ghost e = edit@;
        match self.profile_index(id) {
            Some(i) => {
                let p = self.profiles[i].duplicate();
                let q = p.apply_edit(edit);
                let ghost before = profile_views(self.profiles@);
                self.profiles.set(i, q);
                proof {
                    let k = choose|k: int| first_profile_with(before, id@, k);
                    lemma_first_profile_unique(before, id@, k, i as int);
                    assert(profile_views(self.profiles@) =~= before.update(
                        i as int,
                        edited_profile(before[i as int], e),
                    ));
                }
            },
            None => {
                let p = SyncProfile::new_for_id(id);
                let q = p.apply_edit(edit);
                let ghost before = profile_views(self.profiles@);
                self.profiles.push(q);
                assert(profile_views(self.profiles@) =~= before.push(
                    edited_profile(new_profile_view(id@), e),
                ));
            },
        }
        if activate || self.active_profile_id.as_str().is_empty() {
            self.active_profile_id = owned(id);
        }
    }
}


/// The `config` command: delete a profile, or change the web port and edit a profile.
#[derive(Clone, Debug)]
pub struct ConfigCommand {
    /// The profile to edit (default: the active one, else `default`).
    pub profile: Option<String>,
    /// The changes to that profile; its local path as typed, perhaps relative.
    pub edit: ProfileEdit,
    /// Delete the profile with this id instead of editing.
    pub delete: Option<String>,
    /// A new port for the web server.
    pub port: Option<u16>,
}

/// What a `config` command did.
#[derive(Clone, Debug)]
pub enum ConfigOutcome {
    /// The profile with this id was deleted.
    Deleted { id: String },
    /// The command edited the configuration; `changed` tells whether it must be
    /// saved, `profile` which profile was edited, if any.
    Edited { changed: bool, profile: Option<String> },
}

/// The edit with its local path made absolute against the working directory.
pub open spec fn edit_with_path(e: ProfileEditView, cwd: Option<Seq<char>>) -> ProfileEditView {
    ProfileEditView {
        local_path: match e.local_path {
            Some(p) => Some(absolute_path_spec(p, cwd)),
            None => None,
        },
        ..e
    }
}

/// The configuration with the web port of a command applied.
pub open spec fn with_port(c: ConfigView, port: Option<u16>) -> ConfigView {
    match port {
        Some(p) => ConfigView { web_port: p, ..c },
        None => c,
    }
}

impl Config {
    /// Carries out the `config` command: a deletion when one is asked for;
    /// otherwise the new port, then the edit of the resolved profile (with its
    /// local path made absolute against `cwd`) when the edit changes anything.
    pub fn apply_command(&mut self, cmd: ConfigCommand, cwd: &Option<String>) -> (r: Result<ConfigOutcome, String>)
        ensures
            cmd.delete matches Some(d) ==> {
                &&& has_profile(old(self)@.profiles, d@) ==> {
                    &&& r matches Ok(ConfigOutcome::Deleted { id }) && id@ == d@
                    &&& final(self)@ == after_profile_delete(old(self)@, d@)
                }
                &&& !has_profile(old(self)@.profiles, d@) ==> {
                    &&& r matches Err(m) && m@ == profile_missing_message(d@)
                    &&& final(self)@ == old(self)@
                }
            },
            cmd.delete is None ==> {
                let with_new_port = with_port(old(self)@, cmd.port);
                let id = resolved_profile_id(old(self)@.active_profile_id, opt_text(cmd.profile));
                let e = edit_with_path(cmd.edit@, opt_text(*cwd));
                if edit_has_updates(cmd.edit@) {
                    &&& r matches Ok(ConfigOutcome::Edited { changed, profile })
                        && changed && (profile matches Some(p) && p@ == id)
                    &&& final(self)@ == after_profile_edit(with_new_port, id, e)
                } else {
                    &&& r matches Ok(ConfigOutcome::Edited { changed, profile })
                        && changed == cmd.port is Some && profile is None
                    &&& final(self)@ == with_new_port
                }
            },
    {
        let ConfigCommand { profile, edit, delete, port } = cmd;
        if let Some(d) = delete {
            return match self.delete_profile(d.as_str()) {
                Ok(()) => Ok(ConfigOutcome::Deleted { id: d }),
                Err(m) => Err(m),
            };
        }
        let mut changed = false;
        if let Some(p) = port {
            self.web_port = p;
            changed = true;
        }
        let id = self.resolve_profile_id(profile);
        if edit.has_updates() {
            let ProfileEdit { name, provider, domain, username, token, local_path, sync_interval_secs, activate } = edit;
            let local_path = match local_path {
                Some(p) => Some(absolute_local_path(p.as_str(), cwd)),
                None => None,
            };
            let e = ProfileEdit { name, provider, domain, username, token, local_path, sync_interval_secs, activate };
            self.apply_profile_edit(id.as_str(), e);
            Ok(ConfigOutcome::Edited { changed: true, profile: Some(id) })
        } else {
            Ok(ConfigOutcome::Edited { changed, profile: None })
        }
    }
}

/// What `serde_json` reports when the text is not JSON, or `None` when it is
/// (the message of the parse error).
pub uninterp spec fn json_parse_error(text: Seq<char>) -> Option<Seq<char>>;

/// Whether the text, parsed by `serde_json`, has a top-level member `key`.
pub uninterp spec fn json_has_member(text: Seq<char>, key: Seq<char>) -> bool;

/// The top-level member `key` of the parsed text, when it is a string.
pub uninterp spec fn json_str_member(text: Seq<char>, key: Seq<char>) -> Option<Seq<char>>;

/// The top-level member `key` of the parsed text, when it is an unsigned integer
/// that fits in 64 bits.
pub uninterp spec fn json_u64_member(text: Seq<char>, key: Seq<char>) -> Option<u64>;

/// `serde_json::from_str::<serde_json::Value>`: the error's message when the text
/// is not JSON. The contract claims only that the outcome is determined by the text.
#[verifier::external_body]
fn json_error_of(text: &str) -> (r: Option<String>)
    ensures
        opt_text(r) == json_parse_error(text@),
{
    match serde_json::from_str::<serde_json::Value>(text) {
        Ok(_) => None,
        Err(e) => Some(e.to_string()),
    }
}

/// `serde_json::Value::get` on the parsed text: whether the member is present.
/// The contract claims only that the answer is determined by the text and key.
#[verifier::external_body]
fn json_member_present(text: &str, key: &str) -> (r: bool)
    ensures
        r == json_has_member(text@, key@),
{
    match serde_json::from_str::<serde_json::Value>(text) {
        Ok(v) => v.get(key).is_some(),
        Err(_) => false,
    }
}

/// `serde_json::Value::get` then `as_str` on the parsed text.
/// The contract claims only that the result is determined by the text and key.
#[verifier::external_body]
fn json_member_str(text: &str, key: &str) -> (r: Option<String>)
    ensures
        opt_text(r) == json_str_member(text@, key@),
{
    match serde_json::from_str::<serde_json::Value>(text) {
        Ok(v) => v.get(key).and_then(serde_json::Value::as_str).map(str::to_string),
        Err(_) => None,
    }
}

/// `serde_json::Value::get` then `as_u64` on the parsed text.
/// The contract claims only that the result is determined by the text and key.
#[verifier::external_body]
fn json_member_u64(text: &str, key: &str) -> (r: Option<u64>)
    ensures
        r == json_u64_member(text@, key@),
{
    match serde_json::from_str::<serde_json::Value>(text) {
        Ok(v) => v.get(key).and_then(serde_json::Value::as_u64),
        Err(_) => None,
    }
}

/// The settings of the configuration format used before profiles existed.
#[derive(Clone, Debug)]
pub struct LegacySettings {
    pub github_username: Option<String>,
    pub github_token: Option<String>,
    pub local_path: Option<String>,
    pub sync_interval_secs: Option<u64>,
    pub web_host: Option<String>,
    pub web_port: Option<u64>,
}

pub struct LegacySettingsView {
    pub github_username: Option<Seq<char>>,
    pub github_token: Option<Seq<char>>,
    pub local_path: Option<Seq<char>>,
    pub sync_interval_secs: Option<u64>,
    pub web_host: Option<Seq<char>>,
    pub web_port: Option<u64>,
}

impl View for LegacySettings {
    type V = LegacySettingsView;

    open spec fn view(&self) -> LegacySettingsView {
        LegacySettingsView {
            github_username: opt_text(self.github_username),
            github_token: opt_text(self.github_token),
            local_path: opt_text(self.local_path),
            sync_interval_secs: self.sync_interval_secs,
            web_host: opt_text(self.web_host),
            web_port: self.web_port,
        }
    }
}

/// The legacy settings found in a configuration text.
pub open spec fn legacy_settings_of(text: Seq<char>) -> LegacySettingsView {
    LegacySettingsView {
        github_username: json_str_member(text, "github_username"@),
        github_token: json_str_member(text, "github_token"@),
        local_path: json_str_member(text, "local_path"@),
        sync_interval_secs: json_u64_member(text, "sync_interval_secs"@),
        web_host: json_str_member(text, "web_host"@),
        web_port: json_u64_member(text, "web_port"@),
    }
}

/// The configuration migrated from legacy settings: one GitHub profile,
/// `default-github`, made active; a port number is cut to 16 bits.
pub open spec fn legacy_config(s: LegacySettingsView) -> ConfigView {
    ConfigView {
        profiles: seq![
            SyncProfileView {
                id: "default-github"@,
                name: "Default GitHub"@,
                provider: "github"@,
                domain: "github.com"@,
                username: or_keep(s.github_username, Seq::empty()),
                token: or_keep(s.github_token, Seq::empty()),
                local_path: or_keep(s.local_path, Seq::empty()),
                sync_interval_secs: match s.sync_interval_secs {
                    Some(i) => i,
                    None => 3600,
                },
            },
        ],
        active_profile_id: "default-github"@,
        web_host: or_keep(s.web_host, "127.0.0.1"@),
        web_port: match s.web_port {
            Some(p) => p as u16,
            None => 9090,
        },
        web_tokens: Seq::empty(),
    }
}

/// How a configuration text is to be read.
#[derive(Clone, Debug)]
pub enum ConfigText {
    /// The text is in the current format: deserialize it as it is.
    Current,
    /// The text is in the legacy format: this is the migrated configuration.
    Migrated(Config),
}

pub open spec fn parse_error_message(e: Seq<char>) -> Seq<char> {
    "Failed to parse config JSON: "@ + e
}

impl LegacySettings {
    /// The legacy settings found in a configuration text.
    pub fn read(text: &str) -> (r: LegacySettings)
        ensures
            r@ == legacy_settings_of(text@),
    {
        LegacySettings {
            github_username: json_member_str(text, "github_username"),
            github_token: json_member_str(text, "github_token"),
            local_path: json_member_str(text, "local_path"),
            sync_interval_secs: json_member_u64(text, "sync_interval_secs"),
            web_host: json_member_str(text, "web_host"),
            web_port: json_member_u64(text, "web_port"),
        }
    }
}

fn or_empty(o: Option<String>) -> (r: String)
    ensures
        r@ == or_keep(opt_text(o), Seq::empty()),
{
    match o {
        Some(v) => v,
        None => String::new(),
    }
}

impl Config {
    /// The configuration migrated from legacy settings.
    pub fn from_legacy(s: LegacySettings) -> (r: Config)
        ensures
            r@ == legacy_config(s@),
    {
        let profile = SyncProfile {
            id: owned("default-github"),
            name: owned("Default GitHub"),
            provider: owned("github"),
            domain: owned("github.com"),
            username: or_empty(s.github_username),
            token: or_empty(s.github_token),
            local_path: or_empty(s.local_path),
            sync_interval_secs: match s.sync_interval_secs {
                Some(i) => i,
                None => 3600,
            },
        };
        let mut profiles: Vec<SyncProfile> = Vec::new();
        profiles.push(profile);
        let web_host = match s.web_host {
            Some(h) => h,
            None => owned("127.0.0.1"),
        };
        let web_port: u16 = match s.web_port {
            Some(p) => p as u16,
            None => 9090,
        };
        let r = Config {
            profiles,
            active_profile_id: owned("default-github"),
            web_host,
            web_port,
            web_tokens: Vec::new(),
        };
        assert(r@.profiles =~= legacy_config(s@).profiles);
        assert(r@.web_tokens =~= Seq::<WebTokenView>::empty());
        r
    }

    /// How to read a configuration text, given what parsing it found: an error
    /// when it is not JSON; the current format when it has a top-level
    /// `profiles` member; otherwise the configuration migrated from its legacy
    /// settings.
    pub fn from_parsed(parse_error: Option<String>, has_profiles: bool, legacy: LegacySettings) -> (r: Result<ConfigText, String>)
        ensures
            parse_error matches Some(e) ==> (r matches Err(m) && m@ == parse_error_message(e@)),
            parse_error is None && has_profiles ==> r matches Ok(ConfigText::Current),
            parse_error is None && !has_profiles ==> (r matches Ok(ConfigText::Migrated(c)) && c@ == legacy_config(legacy@)),
    {
        if let Some(e) = parse_error {
            return Err(join2("Failed to parse config JSON: ", e.as_str()));
        }
        if has_profiles {
            Ok(ConfigText::Current)
        } else {
            Ok(ConfigText::Migrated(Config::from_legacy(legacy)))
        }
    }

    /// How to read a configuration text: parses it, then decides as
    /// [`Config::from_parsed`] does.
    pub fn interpret_text(text: &str) -> (r: Result<ConfigText, String>)
        ensures
            json_parse_error(text@) matches Some(e) ==> (r matches Err(m) && m@ == parse_error_message(e)),
            json_parse_error(text@) is None && json_has_member(text@, "profiles"@) ==> r matches Ok(
                ConfigText::Current,
            ),
            json_parse_error(text@) is None && !json_has_member(text@, "profiles"@) ==> (r matches Ok(
                ConfigText::Migrated(c),
            ) && c@ == legacy_config(legacy_settings_of(text@))),
    {
        let parse_error = json_error_of(text);
        let has_profiles = json_member_present(text, "profiles");
        let legacy = LegacySettings::read(text);
        Config::from_parsed(parse_error, has_profiles, legacy)
    }
}


pub open spec fn no_active_profile_message() -> Seq<char> {
    "No active profile is configured. Cannot sync."@
}

/// `host:port`, the address the web server binds to and is reached at.
pub open spec fn address_text(host: Seq<char>, port: u16) -> Seq<char> {
    host + ":"@ + decimal_text(port as nat)
}

impl Config {
    /// A sync needs an active profile.
    pub fn check_can_sync(&self) -> (r: Result<(), String>)
        ensures
            self@.active_profile_id.len() == 0 ==> (r matches Err(m) && m@ == no_active_profile_message()),
            self@.active_profile_id.len() > 0 ==> r is Ok,
    {
        if self.active_profile_id.as_str().is_empty() {
            Err(owned("No active profile is configured. Cannot sync."))
        } else {
            Ok(())
        }
    }

    /// The address of the web server, `host:port`.
    pub fn web_address(&self) -> (r: String)
        ensures
            r@ == address_text(self@.web_host, self@.web_port),
    {
        let p = decimal(self.web_port as u64);
        join3(self.web_host.as_str(), ":", p.as_str())
    }

    /// The URL at which a running daemon takes a manual sync request in `mode`.
    pub fn sync_api_url(&self, mode_name: &str) -> (r: String)
        ensures
            r@ == "http://"@ + address_text(self@.web_host, self@.web_port) + "/api/sync?mode="@ + mode_name@,
    {
        let a = self.web_address();
        let mut u = join2("http://", a.as_str());
        u.append("/api/sync?mode=");
        u.append(mode_name);
        u
    }
}


/// The settings the web dashboard sends.
#[derive(Clone, Debug)]
pub struct WebSettings {
    pub username: String,
    pub token: String,
    pub local_path: String,
    pub sync_interval_secs: u64,
    pub web_port: u16,
}

/// The `config` command that the web dashboard's settings amount to: the
/// resolved profile gets the username, token, local path and interval, and
/// the web server the port.
pub open spec fn web_settings_command(s: WebSettings) -> (ProfileEditView, u16) {
    (
        ProfileEditView {
            name: None,
            provider: None,
            domain: None,
            username: Some(s.username@),
            token: Some(s.token@),
            local_path: Some(s.local_path@),
            sync_interval_secs: Some(s.sync_interval_secs),
            activate: false,
        },
        s.web_port,
    )
}

impl Config {
    /// Applies the settings of the web dashboard to the profile being edited
    /// (the active one, else `default`) and to the web port; returns whether
    /// the port changed (the server only binds to it on restart).
    pub fn apply_web_settings(&mut self, s: WebSettings) -> (port_changed: bool)
        ensures
            port_changed == (old(self)@.web_port != s.web_port),
            final(self)@ == after_profile_edit(
                with_port(old(self)@, Some(s.web_port)),
                resolved_profile_id(old(self)@.active_profile_id, None),
                web_settings_command(s).0,
            ),
    {
        let ghost s0 = s;
        let changed = self.web_port != s.web_port;
        self.web_port = s.web_port;
        let id = self.resolve_profile_id(None);
        let edit = ProfileEdit {
            name: None,
            provider: None,
            domain: None,
            username: Some(s.username),
            token: Some(s.token),
            local_path: Some(s.local_path),
            sync_interval_secs: Some(s.sync_interval_secs),
            activate: false,
        };
        assert(edit@ == web_settings_command(s0).0);
        self.apply_profile_edit(id.as_str(), edit);
        changed
    }

    /// A field-by-field copy.
    pub fn duplicate(&self) -> (r: Config)
        ensures
            r@ == self@,
    {
        let mut profiles: Vec<SyncProfile> = Vec::new();
        let mut i: usize = 0;
        while i < self.profiles.len()
            invariant
                i <= self.profiles.len(),
                profile_views(profiles@) == self@.profiles.subrange(0, i as int),
            decreases self.profiles.len() - i,
        {
            let ghost before = profile_views(profiles@);
            profiles.push(self.profiles[i].duplicate());
            assert(profile_views(profiles@) =~= before.push(self@.profiles[i as int]));
            assert(self@.profiles.subrange(0, i + 1) =~= self@.profiles.subrange(0, i as int).push(self@.profiles[i as int]));
            i = i + 1;
        }
        let mut tokens: Vec<WebToken> = Vec::new();
        let mut j: usize = 0;
        while j < self.web_tokens.len()
            invariant
                j <= self.web_tokens.len(),
                token_views(tokens@) == self@.web_tokens.subrange(0, j as int),
            decreases self.web_tokens.len() - j,
        {
            let ghost before = token_views(tokens@);
            tokens.push(self.web_tokens[j].duplicate());
            assert(token_views(tokens@) =~= before.push(self@.web_tokens[j as int]));
            assert(self@.web_tokens.subrange(0, j + 1) =~= self@.web_tokens.subrange(0, j as int).push(self@.web_tokens[j as int]));
            j = j + 1;
        }
        assert(self@.profiles.subrange(0, i as int) =~= self@.profiles);
        assert(self@.web_tokens.subrange(0, j as int) =~= self@.web_tokens);
        Config {
            profiles,
            active_profile_id: self.active_profile_id.clone(),
            web_host: self.web_host.clone(),
            web_port: self.web_port,
            web_tokens: tokens,
        }
    }
}


/// The lines that describe one profile in the configuration listing.
pub open spec fn profile_lines(p: SyncProfileView, active: Seq<char>) -> Seq<Seq<char>> {
    seq![
        "  - Profile ID: "@ + p.id + (if p.id == active { " [ACTIVE]"@ } else { Seq::empty() }),
        "    Name:       "@ + p.name,
        "    Provider:   "@ + p.provider + " ("@ + p.domain + ")"@,
        "    Username:   "@ + p.username,
        "    Path:       "@ + p.local_path,
        "    Interval:   "@ + decimal_text(p.sync_interval_secs as nat) + " seconds"@,
        Seq::empty(),
    ]
}

/// The lines that describe the profiles, one block after the other.
pub open spec fn profiles_lines(ps: Seq<SyncProfileView>, active: Seq<char>) -> Seq<Seq<char>>
    decreases ps.len(),
{
    if ps.len() == 0 {
        Seq::empty()
    } else {
        profiles_lines(ps.drop_last(), active) + profile_lines(ps.last(), active)
    }
}

/// The listing of the configuration, line by line, with the configuration
/// file's path as text.
pub open spec fn settings_lines_spec(c: ConfigView, path: Seq<char>) -> Seq<Seq<char>> {
    seq![
        Seq::empty(),
        "Global Web UI Settings ("@ + path + "):"@,
        "  Web Host:          "@ + c.web_host,
        "  Web Port:          "@ + decimal_text(c.web_port as nat),
        "  Active Profile ID: "@ + (if c.active_profile_id.len() == 0 { "<none>"@ } else { c.active_profile_id }),
        Seq::empty(),
        "Configured Sync Profiles:"@,
    ] + if c.profiles.len() == 0 {
        seq!["  <no profiles configured>"@]
    } else {
        profiles_lines(c.profiles, c.active_profile_id)
    }
}

/// The lines that describe one web access token; its value is not shown.
pub open spec fn token_lines(t: WebTokenView) -> Seq<Seq<char>> {
    seq![
        "  - Name:       "@ + t.name,
        "    Created At: "@ + t.created_at,
        "    Value:      ******** (use 'gitsync token show "@ + t.name + "' to view)"@,
        Seq::empty(),
    ]
}

pub open spec fn tokens_lines(ts: Seq<WebTokenView>) -> Seq<Seq<char>>
    decreases ts.len(),
{
    if ts.len() == 0 {
        Seq::empty()
    } else {
        tokens_lines(ts.drop_last()) + token_lines(ts.last())
    }
}

/// The listing of the web access tokens, line by line.
pub open spec fn token_listing_spec(c: ConfigView) -> Seq<Seq<char>> {
    seq!["Web Access Tokens:"@] + if c.web_tokens.len() == 0 {
        seq!["  <no tokens configured>"@]
    } else {
        tokens_lines(c.web_tokens)
    }
}

fn push_lines(out: &mut Vec<String>, more: Vec<String>)
    ensures
        strings_text(final(out)@) == strings_text(old(out)@) + strings_text(more@),
{
    let mut m = more;
    out.append(&mut m);
    assert(strings_text(final(out)@) =~= strings_text(old(out)@) + strings_text(more@));
}

impl SyncProfile {
    /// The lines that describe this profile in the configuration listing.
    pub fn listing_lines(&self, active: &str) -> (r: Vec<String>)
        ensures
            strings_text(r@) == profile_lines(self@, active@),
    {
        let mut v: Vec<String> = Vec::new();
        let mut first = join2("  - Profile ID: ", self.id.as_str());
        if same_text(self.id.as_str(), active) {
            first.append(" [ACTIVE]");
        }
        v.push(first);
        v.push(join2("    Name:       ", self.name.as_str()));
        let mut prov = join3("    Provider:   ", self.provider.as_str(), " (");
        prov.append(self.domain.as_str());
        prov.append(")");
        v.push(prov);
        v.push(join2("    Username:   ", self.username.as_str()));
        v.push(join2("    Path:       ", self.local_path.as_str()));
        let n = decimal(self.sync_interval_secs);
        v.push(join3("    Interval:   ", n.as_str(), " seconds"));
        v.push(String::new());
        assert(strings_text(v@) =~= profile_lines(self@, active@));
        v
    }
}

impl WebToken {
    /// The lines that describe this token in the token listing.
    pub fn listing_lines(&self) -> (r: Vec<String>)
        ensures
            strings_text(r@) == token_lines(self@),
    {
        let mut v: Vec<String> = Vec::new();
        v.push(join2("  - Name:       ", self.name.as_str()));
        v.push(join2("    Created At: ", self.created_at.as_str()));
        v.push(join3("    Value:      ******** (use 'gitsync token show ", self.name.as_str(), "' to view)"));
        v.push(String::new());
        assert(strings_text(v@) =~= token_lines(self@));
        v
    }
}

impl Config {
    /// The listing of the configuration, line by line; the configuration
    /// file's path is shown as UTF-8 (invalid sequences replaced).
    pub fn settings_lines(&self, config_path: &[u8]) -> (r: Vec<String>)
        ensures
            strings_text(r@) == settings_lines_spec(self@, utf8_lossy_text(config_path@)),
    {
        let path = utf8_lossy(config_path);
        let mut v: Vec<String> = Vec::new();
        v.push(String::new());
        v.push(join3("Global Web UI Settings (", path.as_str(), "):"));
        v.push(join2("  Web Host:          ", self.web_host.as_str()));
        let port = decimal(self.web_port as u64);
        v.push(join2("  Web Port:          ", port.as_str()));
        if self.active_profile_id.as_str().is_empty() {
            v.push(owned("  Active Profile ID: <none>"));
            proof {
                reveal_strlit("  Active Profile ID: <none>");
                reveal_strlit("  Active Profile ID: ");
                reveal_strlit("<none>");
                assert("  Active Profile ID: <none>"@ =~= "  Active Profile ID: "@ + "<none>"@);
            }
        } else {
            v.push(join2("  Active Profile ID: ", self.active_profile_id.as_str()));
        }
        v.push(String::new());
        v.push(owned("Configured Sync Profiles:"));
        let ghost head = strings_text(v@);
        if self.profiles.len() == 0 {
            v.push(owned("  <no profiles configured>"));
            assert(strings_text(v@) =~= head + seq!["  <no profiles configured>"@]);
        } else {
            let mut i: usize = 0;
            while i < self.profiles.len()
                invariant
                    i <= self.profiles.len(),
                    strings_text(v@) == head + profiles_lines(self@.profiles.subrange(0, i as int), self@.active_profile_id),
                decreases self.profiles.len() - i,
            {
                let ghost sub = self@.profiles.subrange(0, i + 1);
                assert(sub.drop_last() =~= self@.profiles.subrange(0, i as int));
                assert(sub.last() == self.profiles@[i as int]@);
                let more = self.profiles[i].listing_lines(self.active_profile_id.as_str());
                push_lines(&mut v, more);
                i = i + 1;
            }
            assert(self@.profiles.subrange(0, i as int) =~= self@.profiles);
        }
        assert(strings_text(v@) =~= settings_lines_spec(self@, utf8_lossy_text(config_path@)));
        v
    }

    /// The listing of the web access tokens, line by line.
    pub fn token_listing(&self) -> (r: Vec<String>)
        ensures
            strings_text(r@) == token_listing_spec(self@),
    {
        let mut v: Vec<String> = Vec::new();
        v.push(owned("Web Access Tokens:"));
        let ghost head = strings_text(v@);
        if self.web_tokens.len() == 0 {
            v.push(owned("  <no tokens configured>"));
            assert(strings_text(v@) =~= head + seq!["  <no tokens configured>"@]);
        } else {
            let mut i: usize = 0;
            while i < self.web_tokens.len()
                invariant
                    i <= self.web_tokens.len(),
                    strings_text(v@) == head + tokens_lines(self@.web_tokens.subrange(0, i as int)),
                decreases self.web_tokens.len() - i,
            {
                let ghost sub = self@.web_tokens.subrange(0, i + 1);
                assert(sub.drop_last() =~= self@.web_tokens.subrange(0, i as int));
                assert(sub.last() == self.web_tokens@[i as int]@);
                let more = self.web_tokens[i].listing_lines();
                push_lines(&mut v, more);
                i = i + 1;
            }
            assert(self@.web_tokens.subrange(0, i as int) =~= self@.web_tokens);
        }
        assert(strings_text(v@) =~= token_listing_spec(self@));
        v
    }
}

} // verus!
