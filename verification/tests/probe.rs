//! What runs in a session.

use stui::screen::probe::{
    c_string, child_command, is_screen_binary, linux_meta, macos_meta, parse_procargs2,
    proc_child_pids, ChildList, ChildProcess, Meta, MetaCache,
};

#[test]
fn procargs2_parses_argv_and_stops_at_argc() {
    // argc in 4 bytes, the path, padding, the arguments, the environment.
    let mut buf = 2u32.to_ne_bytes().to_vec();
    buf.extend_from_slice(b"/bin/zsh\0");
    buf.extend_from_slice(&[0, 0, 0]);
    buf.extend_from_slice(b"/bin/zsh\0-l\0");
    buf.extend_from_slice(b"HOME=/\0PATH=/bin\0");
    assert_eq!(parse_procargs2(&buf).as_deref(), Some("/bin/zsh -l"));
}

#[test]
fn procargs2_rejects_empty_or_malformed_buffers() {
    assert_eq!(parse_procargs2(&[]), None);
    assert_eq!(parse_procargs2(&[0, 0, 0, 0]), None);
    // argc = 0
    let buf = 0u32.to_ne_bytes().to_vec();
    assert_eq!(parse_procargs2(&buf), None);
    // a path with nothing behind it
    let mut buf = 1u32.to_ne_bytes().to_vec();
    buf.extend_from_slice(b"/bin/sh\0");
    assert_eq!(parse_procargs2(&buf), None);
}

#[test]
fn linux_meta_reads_proc_tree() {
    let children = vec![
        Some(b"/bin/zsh\0-l\0".to_vec()),
        Some(b"SCREEN\0".to_vec()),
    ];
    let meta = linux_meta(Some("/srv/app".to_string()), &children).expect("meta");
    assert_eq!(meta.cwd.as_deref(), Some("/srv/app"));
    assert_eq!(meta.command.as_deref(), Some("/bin/zsh -l"));
}

#[test]
fn linux_meta_passes_over_screen_itself() {
    let children = vec![
        None,
        Some(b"SCREEN\0".to_vec()),
        Some(b"vim\0notes.md\0".to_vec()),
    ];
    let meta = linux_meta(None, &children).expect("meta");
    assert_eq!(meta.cwd, None);
    assert_eq!(meta.command.as_deref(), Some("vim notes.md"));
}

#[test]
fn linux_meta_returns_none_when_proc_is_empty() {
    assert!(linux_meta(None, &vec![]).is_none());
}

#[test]
fn macos_meta_takes_the_first_foreign_child() {
    let children = vec![
        ChildProcess {
            comm: Some("screen".to_string()),
            argv: Some("SCREEN -S x".to_string()),
        },
        ChildProcess {
            comm: Some("sleep".to_string()),
            argv: Some("/bin/sleep 30".to_string()),
        },
    ];
    let meta = macos_meta(None, &children).expect("meta");
    assert_eq!(meta.command.as_deref(), Some("/bin/sleep 30"));
}

#[test]
fn screen_binary_detection_is_path_and_case_insensitive() {
    assert!(is_screen_binary("screen"));
    assert!(is_screen_binary("SCREEN"));
    assert!(is_screen_binary("/usr/bin/screen"));
    assert!(!is_screen_binary("screenutils"));
    assert!(!is_screen_binary("/bin/zsh"));
}

#[test]
fn meta_cache_caches_hits_but_not_misses() {
    let mut cache = MetaCache::default();
    assert!(cache.is_empty());
    cache.clear();
    assert_eq!(cache.len(), 0);

    assert!(cache.get(7, None).is_none());
    assert_eq!(cache.len(), 0);
    let meta = Meta {
        cwd: Some("/srv".to_string()),
        command: None,
    };
    assert_eq!(cache.get(7, Some(meta)).unwrap().cwd.as_deref(), Some("/srv"));
    assert_eq!(cache.len(), 1);
    assert_eq!(cache.get(7, None).unwrap().cwd.as_deref(), Some("/srv"));
    cache.invalidate(7);
    assert!(cache.peek(7).is_none());
}

#[test]
fn command_lines_are_read_from_raw_bytes() {
    assert_eq!(c_string(b"zsh\0junk"), "zsh");
    assert_eq!(child_command(b"top\0-d\05\0").as_deref(), Some("top -d 5"));
    assert_eq!(child_command(b"/usr/bin/SCREEN\0-S\0x\0"), None);
    assert_eq!(child_command(b""), None);
    assert_eq!(proc_child_pids(64, -1), ChildList::Unavailable);
}
