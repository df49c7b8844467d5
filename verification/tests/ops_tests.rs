use ssh_assistant::client::{key_not_found, max_background_sessions, session_id_or_new, wsl_distro};
use ssh_assistant::connection::{
    fingerprint_text, host_key_decision, pick_background_session, public_key_for_install, public_key_for_login, stagger_delay_ms, warmup_needed,
    HealthCheckCache, HostKeyCheck, HostKeyDecision, SessionPick,
};
use ssh_assistant::db::{get_settings, init_db_steps, stored_auth_type};
use ssh_assistant::file_ops::{
    entries_from_search_output, entry_from_stat, names_less, permission_octal, removal_step, search_command,
    sort_file_entries, to_wsl_path, write_appends, FileEntry, RemovalStep,
};
use ssh_assistant::session_worker::{append_chunk, StreamKind, StreamTransfer};
use ssh_assistant::text::with_decimal;
use ssh_assistant::utils::{
    get_sftp_buffer_size, hash_from_output, hash_prefix, remote_hash_command, HashTool,
};

fn entry(name: &str, is_dir: bool) -> FileEntry {
    FileEntry {
        name: name.to_string(),
        is_dir,
        size: 0,
        mtime: 0,
        permissions: 0,
        uid: 0,
        owner: String::new(),
    }
}

#[test]
fn wsl_paths() {
    assert_eq!(to_wsl_path("Ubuntu", "/home/u"), "\\\\wsl$\\Ubuntu\\home\\u");
    assert_eq!(to_wsl_path("Debian", "//a/b"), "\\\\wsl$\\Debian\\a\\b");
    assert_eq!(wsl_distro("wsl://Ubuntu"), Some("Ubuntu".to_string()));
    assert_eq!(wsl_distro("wsl://wsl://Ubuntu"), Some("Ubuntu".to_string()));
    assert_eq!(wsl_distro("example.com"), None);
}

#[test]
fn search_command_escapes_quotes() {
    assert_eq!(search_command("/home", "a'b"), "find '/home' -name '*a'\\''b*'");
    let found = entries_from_search_output("/home/a.txt\n\n  /home/dir/b.log  \n");
    let names: Vec<&str> = found.iter().map(|e| e.name.as_str()).collect();
    assert_eq!(names, vec!["a.txt", "b.log"]);
}

#[test]
fn listing_puts_directories_first_then_names() {
    let sorted = sort_file_entries(vec![entry("b", false), entry("z", true), entry("a", false), entry("c", true)]);
    let names: Vec<&str> = sorted.iter().map(|e| e.name.as_str()).collect();
    assert_eq!(names, vec!["c", "z", "a", "b"]);
    assert!(names_less("B", "a"));
    assert!(!names_less("a", "a"));
}

#[test]
fn stat_entries() {
    assert!(entry_from_stat(".", true, 0, 0, 0, 0).is_none());
    let e = entry_from_stat("x", false, 5, 7, 0o644, 0).unwrap();
    assert_eq!(e.owner, "root");
    assert_eq!(e.mtime, 7);
    assert_eq!(entry_from_stat("y", false, 5, 7, 0o644, 1000).unwrap().owner, "-");
}

#[test]
fn octal_permissions() {
    assert_eq!(permission_octal(0o755), "755");
    assert_eq!(permission_octal(0), "0");
    assert!(write_appends(Some("append")));
    assert!(!write_appends(Some("overwrite")));
    assert!(!write_appends(None));
}

#[test]
fn host_keys() {
    assert_eq!(fingerprint_text(Some(&[0x0a, 0xff, 0x10])), "0a:ff:10");
    assert_eq!(fingerprint_text(None), "unknown");
    assert!(matches!(host_key_decision(HostKeyCheck::Match, "h", 22, None), HostKeyDecision::Accept));
    assert!(matches!(host_key_decision(HostKeyCheck::NotFound, "h", 22, None), HostKeyDecision::TrustAndRecord));
    match host_key_decision(HostKeyCheck::Mismatch, "h", 22, Some(&[1])) {
        HostKeyDecision::Reject(m) => {
            assert!(m.contains("Host: h:22 Fingerprint: 01 Please verify the host key."));
        }
        _ => panic!("expected a refusal"),
    }
}

#[test]
fn background_sessions() {
    assert_eq!(pick_background_session(0, 10, &vec![true, false], 4, 0), Ok(SessionPick::Use(1)));
    assert_eq!(
        pick_background_session(0, 10, &vec![], 4, 3),
        Ok(SessionPick::Open { stagger_ms: None, next_count: 3 })
    );
    assert_eq!(
        pick_background_session(0, 10, &vec![true], 4, 2),
        Ok(SessionPick::Open { stagger_ms: Some(100), next_count: 3 })
    );
    assert_eq!(pick_background_session(0, 10, &vec![true, true], 2, 0), Ok(SessionPick::Wait));
    assert!(pick_background_session(11, 10, &vec![false], 2, 0).is_err());
    assert_eq!(stagger_delay_ms(9), 100_000);
    assert_eq!(warmup_needed(3, 1), 2);
    assert_eq!(warmup_needed(1, 3), 0);
    assert_eq!(max_background_sessions(None), 6);
}

#[test]
fn health_cache_expires_after_five_seconds() {
    let mut cache = HealthCheckCache::new();
    cache.insert_at(1, true, 1_000);
    assert_eq!(cache.get_at(1, 5_999), Some(true));
    assert_eq!(cache.get_at(1, 6_001), None);
    cache.cleanup_expired_at(6_001);
    assert_eq!(cache.get_at(1, 1_000), None);
}

#[test]
fn hashing() {
    assert_eq!(
        hash_prefix(b"abcdef", 3),
        "ba7816bf8f01cfea414140de5dae2223b00361a396177a9cb410ff61f20015ad"
    );
    assert_eq!(remote_hash_command(HashTool::Md5sum, "/a b"), "md5sum '/a b'");
    assert_eq!(hash_from_output(0, "abc123  /file\n"), Some("abc123".to_string()));
    assert_eq!(hash_from_output(1, "abc123  /file\n"), None);
    assert_eq!(get_sftp_buffer_size(None), 524288);
    assert_eq!(get_sftp_buffer_size(Some(64)), 65536);
}

#[test]
fn database_helpers() {
    let steps = init_db_steps();
    assert_eq!(steps.len(), 45);
    assert!(steps[0].required);
    assert!(steps[0].sql.starts_with("CREATE TABLE IF NOT EXISTS connections"));
    assert!(!steps[3].required);
    assert_eq!(stored_auth_type(None), "password");
    assert_eq!(stored_auth_type(Some("key".to_string())), "key");
    assert_eq!(get_settings(None).err().unwrap(), "Settings not found");
    assert_eq!(key_not_found(-3, true), "SSH Key with ID -3 not found in database");
    assert_eq!(key_not_found(12, false), "SSH Key with ID 12 not found");
}

#[test]
fn streamed_transfer_supervision() {
    let mut t = StreamTransfer::start(StreamKind::Upload, 100, 0);
    assert!(t.check(false, 30_000).is_ok());
    assert_eq!(t.check(false, 30_001).err().unwrap(), "No progress for 30s, connection may be dead");
    assert_eq!(t.on_bytes(10, 50), None);
    assert_eq!(t.on_bytes(10, 200), Some((20, 100)));
    assert_eq!(t.check(false, 300_001).err().unwrap(), "Upload timeout after 300s");
    assert_eq!(t.check(true, 0).err().unwrap(), "Cancelled");
    for _ in 0..100 {
        assert!(t.on_would_block().is_ok());
    }
    assert_eq!(
        t.on_would_block().err().unwrap(),
        "Too many WouldBlock errors (101), connection may be dead"
    );
}

#[test]
fn output_buffer_limits() {
    let mut buf = Vec::new();
    assert!(!append_chunk(&mut buf, b"abc", Some(5)));
    assert!(append_chunk(&mut buf, b"defg", Some(5)));
    assert_eq!(buf, b"abcde".to_vec());
    let mut all = Vec::new();
    assert!(!append_chunk(&mut all, b"abc", None));
    assert_eq!(all, b"abc".to_vec());
}

#[test]
fn decimal_text() {
    assert_eq!(with_decimal("n=".to_string(), 0), "n=0");
    assert_eq!(with_decimal(String::new(), 18_446_744_073_709_551_615), "18446744073709551615");
}

#[test]
fn session_id_is_the_asked_one_or_the_fresh_one() {
    assert_eq!(session_id_or_new(None, String::from("fresh-id")), "fresh-id");
    assert_eq!(session_id_or_new(Some(String::from("abc")), String::from("fresh-id")), "abc");
}

#[test]
fn removal_steps_skip_dot_entries() {
    assert_eq!(removal_step(".", true), RemovalStep::Skip);
    assert_eq!(removal_step("..", true), RemovalStep::Skip);
    assert_eq!(removal_step("sub", true), RemovalStep::Descend);
    assert_eq!(removal_step("file.txt", false), RemovalStep::Unlink);
    assert_eq!(removal_step("...", false), RemovalStep::Unlink);
}

#[test]
fn unreadable_private_keys_are_reported_with_the_crate_message() {
    let login = public_key_for_login("not a key").unwrap_err();
    let detail = login
        .strip_prefix("Failed to parse private key. Ensure it is in OpenSSH format. Details: ")
        .unwrap();
    assert!(!detail.is_empty());
    let install = public_key_for_install("not a key").unwrap_err();
    assert_eq!(install, format!("Invalid private key in DB: {}", detail));
    let putty = public_key_for_login("PuTTY-User-Key-File-2: ssh-rsa").unwrap_err();
    assert!(putty.starts_with("Putty (PPK) format is not supported."));
}

#[test]
fn lines_words_and_trimming_follow_unicode_white_space() {
    // Lines end at "\n" or "\r\n"; a final line ending adds no line.
    let found = entries_from_search_output("/a\r\n\u{3000}/b\u{a0}\n");
    let names: Vec<&str> = found.iter().map(|e| e.name.as_str()).collect();
    assert_eq!(names, vec!["a", "b"]);
    // The first word follows any amount of white space.
    assert_eq!(hash_from_output(0, "\t\u{2003} abc123  file\n"), Some(String::from("abc123")));
    assert_eq!(hash_from_output(0, " \n\t"), None);
}
