//! Where the daemon keeps its files, and how local paths are resolved.
//!
//! Paths follow the Unix rules of `std::path` that the daemon runs under: a
//! path is absolute when it begins with `/`, and pushing a component onto a
//! path replaces it when the component is absolute, and otherwise appends the
//! component after a `/` (none is added to an empty path or one that already
//! ends in `/`). The daemon's own files are kept as the raw bytes of the path,
//! so a configuration directory that is not UTF-8 is kept as it is.

use vstd::prelude::*;
use crate::text::{owned, opt_text, chars_of, string_from_chars};

verus! {

/// The byte of the path separator, `/`.
pub open spec fn sep_byte() -> u8 {
    47
}

/// `base` pushed with `component` (as `PathBuf::push` on Unix), over bytes.
pub open spec fn join_bytes_spec(base: Seq<u8>, component: Seq<u8>) -> Seq<u8> {
    if component.len() > 0 && component[0] == sep_byte() {
        component
    } else if base.len() == 0 || base.last() == sep_byte() {
        base + component
    } else {
        base.push(sep_byte()) + component
    }
}

/// `base` pushed with `component` (as `PathBuf::push` on Unix), over characters.
pub open spec fn join_text_spec(base: Seq<char>, component: Seq<char>) -> Seq<char> {
    if component.len() > 0 && component[0] == '/' {
        component
    } else if base.len() == 0 || base.last() == '/' {
        base + component
    } else {
        base.push('/') + component
    }
}

/// Whether a path is absolute (as `Path::is_absolute` on Unix): it begins with `/`.
pub open spec fn is_absolute_text(path: Seq<char>) -> bool {
    path.len() > 0 && path[0] == '/'
}

/// The bytes of an ASCII text.
pub open spec fn ascii_seq(s: Seq<char>) -> Seq<u8> {
    Seq::new(s.len(), |i: int| s[i] as u8)
}

fn copy_bytes(out: &mut Vec<u8>, src: &[u8])
    ensures
        final(out)@ == old(out)@ + src@,
{
    let mut i: usize = 0;
    while i < src.len()
        invariant
            i <= src.len(),
            out@ == old(out)@ + src@.subrange(0, i as int),
        decreases src.len() - i,
    {
        out.push(src[i]);
        i = i + 1;
        assert(out@ =~= old(out)@ + src@.subrange(0, i as int));
    }
    assert(src@.subrange(0, src.len() as int) =~= src@);
}

/// Pushes `component` onto the path `base`, over bytes.
pub fn join_bytes(base: &[u8], component: &[u8]) -> (r: Vec<u8>)
    ensures
        r@ == join_bytes_spec(base@, component@),
{
    let mut out: Vec<u8> = Vec::new();
    if component.len() > 0 && component[0] == 47 {
        copy_bytes(&mut out, component);
        assert(out@ =~= component@);
        return out;
    }
    copy_bytes(&mut out, base);
    if base.len() > 0 && base[base.len() - 1] != 47 {
        out.push(47);
    }
    copy_bytes(&mut out, component);
    assert(out@ =~= join_bytes_spec(base@, component@));
    out
}

/// Pushes `component` onto the path `base`, over text.
pub fn join_text(base: &str, component: &str) -> (r: String)
    ensures
        r@ == join_text_spec(base@, component@),
{
    let b = chars_of(base);
    let c = chars_of(component);
    if c.len() > 0 && c[0] == '/' {
        return owned(component);
    }
    let mut out: Vec<char> = Vec::new();
    let mut i: usize = 0;
    while i < b.len()
        invariant
            i <= b.len(),
            out@ == b@.subrange(0, i as int),
        decreases b.len() - i,
    {
        out.push(b[i]);
        i = i + 1;
        assert(out@ =~= b@.subrange(0, i as int));
    }
    assert(b@.subrange(0, b.len() as int) =~= b@);
    if b.len() > 0 && b[b.len() - 1] != '/' {
        out.push('/');
    }
    let ghost mid = out@;
    let mut j: usize = 0;
    while j < c.len()
        invariant
            j <= c.len(),
            out@ == mid + c@.subrange(0, j as int),
        decreases c.len() - j,
    {
        out.push(c[j]);
        j = j + 1;
        assert(out@ =~= mid + c@.subrange(0, j as int));
    }
    assert(c@.subrange(0, c.len() as int) =~= c@);
    assert(out@ =~= join_text_spec(base@, component@));
    string_from_chars(&out)
}

/// Whether a path is absolute: it begins with `/`.
pub fn is_absolute_path(path: &str) -> (r: bool)
    ensures
        r == is_absolute_text(path@),
{
    let c = chars_of(path);
    c.len() > 0 && c[0] == '/'
}

/// The bytes of an ASCII text.
fn ascii_bytes(s: &str) -> (r: Vec<u8>)
    requires
        s.is_ascii(),
    ensures
        r@ == ascii_seq(s@),
{
    proof {
        vstd::string::is_ascii_spec_bytes(s);
    }
    s.as_bytes_vec()
}

/// `dirs::config_dir`: the user's configuration directory, read from the
/// environment (on Linux `$XDG_CONFIG_HOME` or `$HOME/.config`), if there is one,
/// as the raw bytes of the path. Nothing is claimed of the result: it depends on
/// the environment.
#[verifier::external_body]
fn user_config_dir() -> (r: Option<Vec<u8>>)
{
    match dirs::config_dir() {
        Some(p) => Some(p.into_os_string().into_encoded_bytes()),
        None => None,
    }
}

pub open spec fn opt_bytes(o: Option<Vec<u8>>) -> Option<Seq<u8>> {
    match o {
        Some(b) => Some(b@),
        None => None,
    }
}

/// The directory used when the environment names no configuration directory.
pub open spec fn fallback_config_base() -> Seq<u8> {
    ascii_seq("/root/.config"@)
}

/// The name of the daemon's directory.
pub open spec fn daemon_dir_name() -> Seq<u8> {
    ascii_seq("gitsync"@)
}

/// The name of the configuration file.
pub open spec fn config_file_name() -> Seq<u8> {
    ascii_seq("config.json"@)
}

/// The name of the PID file.
pub open spec fn pid_file_name() -> Seq<u8> {
    ascii_seq("gitsync.pid"@)
}

/// The name of the log file.
pub open spec fn log_file_name() -> Seq<u8> {
    ascii_seq("gitsync.log"@)
}

/// The daemon's directory under the user's configuration directory `base`.
pub open spec fn config_dir_in(base: Option<Seq<u8>>) -> Seq<u8> {
    join_bytes_spec(
        match base {
            Some(b) => b,
            None => fallback_config_base(),
        },
        daemon_dir_name(),
    )
}

/// The daemon's directory, given what the environment names as the user's
/// configuration directory.
pub fn config_dir_from(base: Option<Vec<u8>>) -> (r: Vec<u8>)
    ensures
        r@ == config_dir_in(opt_bytes(base)),
{
    proof {
        reveal_strlit("/root/.config");
        reveal_strlit("gitsync");
    }
    let b = match base {
        Some(b) => b,
        None => ascii_bytes("/root/.config"),
    };
    let name = ascii_bytes("gitsync");
    join_bytes(b.as_slice(), name.as_slice())
}

/// The daemon's directory: `gitsync` under the user's configuration directory.
pub fn get_config_dir() -> (r: Vec<u8>)
    ensures
        exists|base: Option<Seq<u8>>| r@ == config_dir_in(base),
{
    let base = user_config_dir();
    config_dir_from(base)
}

/// The configuration file inside the daemon's directory `dir`.
pub fn config_path_in(dir: &[u8]) -> (r: Vec<u8>)
    ensures
        r@ == join_bytes_spec(dir@, config_file_name()),
{
    proof {
        reveal_strlit("config.json");
    }
    let name = ascii_bytes("config.json");
    join_bytes(dir, name.as_slice())
}

/// The PID file inside the daemon's directory `dir`.
pub fn pid_path_in(dir: &[u8]) -> (r: Vec<u8>)
    ensures
        r@ == join_bytes_spec(dir@, pid_file_name()),
{
    proof {
        reveal_strlit("gitsync.pid");
    }
    let name = ascii_bytes("gitsync.pid");
    join_bytes(dir, name.as_slice())
}

/// The log file inside the daemon's directory `dir`.
pub fn log_path_in(dir: &[u8]) -> (r: Vec<u8>)
    ensures
        r@ == join_bytes_spec(dir@, log_file_name()),
{
    proof {
        reveal_strlit("gitsync.log");
    }
    let name = ascii_bytes("gitsync.log");
    join_bytes(dir, name.as_slice())
}

/// `config.json` in the daemon's directory.
pub fn get_config_path() -> (r: Vec<u8>)
    ensures
        exists|base: Option<Seq<u8>>| r@ == join_bytes_spec(config_dir_in(base), config_file_name()),
{
    let dir = get_config_dir();
    config_path_in(dir.as_slice())
}

/// `gitsync.pid` in the daemon's directory.
pub fn get_pid_path() -> (r: Vec<u8>)
    ensures
        exists|base: Option<Seq<u8>>| r@ == join_bytes_spec(config_dir_in(base), pid_file_name()),
{
    let dir = get_config_dir();
    pid_path_in(dir.as_slice())
}

/// `gitsync.log` in the daemon's directory.
pub fn get_log_path() -> (r: Vec<u8>)
    ensures
        exists|base: Option<Seq<u8>>| r@ == join_bytes_spec(config_dir_in(base), log_file_name()),
{
    let dir = get_config_dir();
    log_path_in(dir.as_slice())
}

/// A local storage path as given on the command line, made absolute against
/// the working directory `cwd` when it is relative and `cwd` is known.
pub open spec fn absolute_path_spec(path: Seq<char>, cwd: Option<Seq<char>>) -> Seq<char> {
    if is_absolute_text(path) {
        path
    } else {
        match cwd {
            Some(c) => join_text_spec(c, path),
            None => path,
        }
    }
}

pub fn absolute_local_path(path: &str, cwd: &Option<String>) -> (r: String)
    ensures
        r@ == absolute_path_spec(path@, opt_text(*cwd)),
{
    if is_absolute_path(path) {
        owned(path)
    } else {
        match cwd {
            Some(c) => join_text(c, path),
            None => owned(path),
        }
    }
}

/// The path of a file named `name` (which holds no `/`) in the directory `dir`:
/// the directory, a separator unless it ends in one or is empty, then the name.
pub open spec fn file_in_dir(dir: Seq<u8>, name: Seq<u8>) -> Seq<u8> {
    if dir.len() == 0 || dir.last() == sep_byte() {
        dir + name
    } else {
        dir.push(sep_byte()) + name
    }
}

/// The layout of the daemon's files: in every daemon directory, the
/// configuration, PID and log files are files of that directory, under the
/// names `config.json`, `gitsync.pid` and `gitsync.log`, and they are three
/// different paths.
pub proof fn law_daemon_files(dir: Seq<u8>)
    ensures
        join_bytes_spec(dir, config_file_name()) == file_in_dir(dir, config_file_name()),
        join_bytes_spec(dir, pid_file_name()) == file_in_dir(dir, pid_file_name()),
        join_bytes_spec(dir, log_file_name()) == file_in_dir(dir, log_file_name()),
        !config_file_name().contains(sep_byte()),
        !pid_file_name().contains(sep_byte()),
        !log_file_name().contains(sep_byte()),
        join_bytes_spec(dir, pid_file_name()) != join_bytes_spec(dir, config_file_name()),
        join_bytes_spec(dir, pid_file_name()) != join_bytes_spec(dir, log_file_name()),
        join_bytes_spec(dir, config_file_name()) != join_bytes_spec(dir, log_file_name()),
{
    reveal_strlit("config.json");
    reveal_strlit("gitsync.pid");
    reveal_strlit("gitsync.log");
    let c = config_file_name();
    let p = pid_file_name();
    let l = log_file_name();
    assert(c.len() == 11 && p.len() == 11 && l.len() == 11);
    assert(c[0] == 99u8);
    assert(p[0] == 103u8);
    assert(p[8] == 112u8);
    assert(l[8] == 108u8);
    assert forall|i: int| 0 <= i < 11 implies c[i] != sep_byte() && p[i] != sep_byte() && l[i] != sep_byte() by {}
    let d = if dir.len() == 0 || dir.last() == sep_byte() { dir } else { dir.push(sep_byte()) };
    let n = d.len() as int;
    assert((d + p)[n] != (d + c)[n]);
    assert((d + p)[n + 8] != (d + l)[n + 8]);
    assert((d + c)[n] != (d + l)[n]);
}

} // verus!
