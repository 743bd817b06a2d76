use gitsync::paths::{
    absolute_local_path, config_dir_from, config_path_in, get_config_dir, get_config_path, get_log_path,
    get_pid_path, is_absolute_path, join_bytes, join_text, log_path_in, pid_path_in,
};

#[test]
fn files_in_the_daemon_directory() {
    assert_eq!(config_path_in(b"/home/u/.config/gitsync"), b"/home/u/.config/gitsync/config.json".to_vec());
    assert_eq!(pid_path_in(b"/home/u/.config/gitsync"), b"/home/u/.config/gitsync/gitsync.pid".to_vec());
    assert_eq!(log_path_in(b"/home/u/.config/gitsync"), b"/home/u/.config/gitsync/gitsync.log".to_vec());
    assert_eq!(pid_path_in(b"/d/"), b"/d/gitsync.pid".to_vec());
}

#[test]
fn daemon_directory_from_environment_value() {
    assert_eq!(config_dir_from(Some(b"/home/u/.config".to_vec())), b"/home/u/.config/gitsync".to_vec());
    assert_eq!(config_dir_from(None), b"/root/.config/gitsync".to_vec());
    let odd = vec![b'/', b'h', 0xff, 0xfe];
    let mut expected = odd.clone();
    expected.extend_from_slice(b"/gitsync");
    assert_eq!(config_dir_from(Some(odd)), expected);
}

#[test]
fn real_paths_share_the_directory() {
    let dir = get_config_dir();
    assert!(dir.ends_with(b"gitsync"));
    let mut c = dir.clone();
    c.extend_from_slice(b"/config.json");
    assert_eq!(get_config_path(), c);
    let mut p = dir.clone();
    p.extend_from_slice(b"/gitsync.pid");
    assert_eq!(get_pid_path(), p);
    let mut l = dir.clone();
    l.extend_from_slice(b"/gitsync.log");
    assert_eq!(get_log_path(), l);
}

#[test]
fn joining_paths() {
    assert_eq!(join_text("/a/", "b"), "/a/b");
    assert_eq!(join_text("/a", "owner/repo"), "/a/owner/repo");
    assert_eq!(join_text("/a", "/abs"), "/abs");
    assert_eq!(join_text("", "rel"), "rel");
    assert_eq!(join_bytes(b"/a", b"b"), b"/a/b".to_vec());
    assert_eq!(join_bytes(b"", b"b"), b"b".to_vec());
    assert_eq!(join_bytes(b"/a", b"/b"), b"/b".to_vec());
    for (base, comp) in [("/x", "y"), ("/x/", "y"), ("", "y"), ("/x", "/y"), ("rel", "a/b")] {
        let mut p = std::path::PathBuf::from(base);
        p.push(comp);
        assert_eq!(join_text(base, comp), p.to_string_lossy());
        assert_eq!(is_absolute_path(comp), std::path::Path::new(comp).is_absolute());
    }
}

#[test]
fn absolute_paths() {
    assert_eq!(absolute_local_path("x", &Some("/cwd".to_string())), "/cwd/x");
    assert_eq!(absolute_local_path("/x", &Some("/cwd".to_string())), "/x");
    assert_eq!(absolute_local_path("x", &None), "x");
    assert!(is_absolute_path("/a"));
    assert!(!is_absolute_path("a/b"));
    assert!(!is_absolute_path(""));
}

#[test]
fn daemon_files_are_distinct_siblings() {
    for dir in [&b"/home/u/.config/gitsync"[..], &b"/d/"[..], &b""[..], &b"rel"[..]] {
        let c = config_path_in(dir);
        let p = pid_path_in(dir);
        let l = log_path_in(dir);
        assert_ne!(c, p);
        assert_ne!(p, l);
        assert_ne!(c, l);
        let parent = |x: &Vec<u8>| x[..x.len() - 11].to_vec();
        assert_eq!(parent(&c), parent(&p));
        assert_eq!(parent(&p), parent(&l));
        let os = std::path::PathBuf::from(std::str::from_utf8(&p).unwrap());
        assert_eq!(os.file_name().unwrap(), "gitsync.pid");
    }
}
