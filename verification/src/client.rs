//! Decisions taken when a session is opened from a saved connection: its
//! identifier, whether it is a WSL distribution, which stored key it needs,
//! and the limits taken from the settings.
use vstd::prelude::*;

use crate::models::{clone_opt, Connection};
use crate::text::{decimal, signed_decimal, str_eq, with_signed_decimal};

verus! {

/// The operating system assumed for a connection: its recorded type, or
/// Linux.
pub fn os_info_for(os_type: &Option<String>) -> (r: String)
    ensures
        r@ == match *os_type {
            Some(t) => t@,
            None => "Linux"@,
        },
{
    match os_type {
        Some(t) => t.clone(),
        None => String::from_str("Linux"),
    }
}

/// The operating system shown for a session: its recorded one, or
/// `Unknown`.
pub fn os_info_or_unknown(os_info: &Option<String>) -> (r: String)
    ensures
        r@ == match *os_info {
            Some(t) => t@,
            None => "Unknown"@,
        },
{
    match os_info {
        Some(t) => t.clone(),
        None => String::from_str("Unknown"),
    }
}

/// The session's identifier: the one asked for, or else `fresh`, a new
/// random identifier made by the caller.
pub fn session_id_or_new(id: Option<String>, fresh: String) -> (r: String)
    ensures
        id matches Some(i) ==> r == i,
        id is None ==> r == fresh,
{
    match id {
        Some(i) => i,
        None => fresh,
    }
}

/// `s` without every leading copy of `p`.
pub open spec fn strip_all_prefixes(s: Seq<char>, p: Seq<char>) -> Seq<char>
    decreases s.len(),
{
    if p.len() > 0 && p.len() <= s.len() && s.take(p.len() as int) == p {
        strip_all_prefixes(s.skip(p.len() as int), p)
    } else {
        s
    }
}

/// The WSL distribution named by a host `wsl://<distro>`: the host without
/// its leading `wsl://` prefixes; none for other hosts.
pub fn wsl_distro(host: &str) -> (r: Option<String>)
    ensures
        !(host@.len() >= 6 && host@.take(6) == "wsl://"@) ==> r is None,
        (host@.len() >= 6 && host@.take(6) == "wsl://"@) ==> (r matches Some(d) && d@ == strip_all_prefixes(
            host@,
            "wsl://"@,
        )),
{
    proof {
        reveal_strlit("wsl://");
    }
    let chars = crate::text::chars_of(host);
    let prefix = crate::text::chars_of("wsl://");
    let n = chars.len();
    if n < 6 || !crate::text::matches_at(&chars, &prefix, 0) {
        proof {
            if n >= 6 {
                assert(host@.subrange(0, 6) =~= host@.take(6));
            }
        }
        return None;
    }
    proof {
        assert(host@.subrange(0, 6) =~= host@.take(6));
    }
    let mut start: usize = 0;
    proof {
        assert(host@.skip(0) =~= host@);
    }
    while n - start >= 6 && crate::text::matches_at(&chars, &prefix, start)
        invariant
            chars@ == host@,
            prefix@ == "wsl://"@,
            prefix@.len() == 6,
            n == host@.len(),
            start <= n,
            start % 6 == 0,
            strip_all_prefixes(host@, "wsl://"@) == strip_all_prefixes(host@.skip(start as int), "wsl://"@),
        decreases n - start,
    {
        proof {
            let t = host@.skip(start as int);
            assert(t.take(6) =~= host@.subrange(start as int, start + 6));
            assert(t.skip(6) =~= host@.skip(start + 6));
        }
        start = start + 6;
    }
    proof {
        let t = host@.skip(start as int);
        if n - start >= 6 {
            assert(t.take(6) =~= host@.subrange(start as int, start + 6));
        }
        assert(strip_all_prefixes(t, "wsl://"@) == t);
    }
    let mut out = String::new();
    let mut i: usize = start;
    while i < n
        invariant
            chars@ == host@,
            n == host@.len(),
            start <= i <= n,
            out@ == host@.subrange(start as int, i as int),
        decreases n - i,
    {
        crate::text::push_char(&mut out, chars[i]);
        proof {
            assert(host@.subrange(start as int, i + 1) =~= host@.subrange(start as int, i as int).push(host@[i as int]));
        }
        i = i + 1;
    }
    proof {
        assert(host@.subrange(start as int, n as int) =~= host@.skip(start as int));
    }
    Some(out)
}

/// Whether a connection logs in with a key.
pub open spec fn uses_key(c: Connection) -> bool {
    c.auth_type matches Some(t) && t@ == "key"@
}

/// The stored key a session needs before connecting: the connection's key
/// when it logs in with one.  When `required` (a connection test), a key
/// login without a key is refused.
pub fn key_to_fetch(config: &Connection, required: bool) -> (r: Result<Option<i64>, String>)
    ensures
        !uses_key(*config) ==> r == Ok::<Option<i64>, String>(None),
        uses_key(*config) && config.ssh_key_id is Some ==> r == Ok::<Option<i64>, String>(config.ssh_key_id),
        uses_key(*config) && config.ssh_key_id is None && !required ==> r == Ok::<Option<i64>, String>(None),
        uses_key(*config) && config.ssh_key_id is None && required ==> (r matches Err(m) && m@
            == "SSH Key ID is missing needed for key authentication"@),
{
    let is_key = match &config.auth_type {
        Some(t) => str_eq(t.as_str(), "key"),
        None => false,
    };
    if !is_key {
        return Ok(None);
    }
    match config.ssh_key_id {
        Some(id) => Ok(Some(id)),
        None => if required {
            Err(String::from_str("SSH Key ID is missing needed for key authentication"))
        } else {
            Ok(None)
        },
    }
}

/// The message when stored key `key_id` is missing: a connection names
/// the database, a connection test does not.
pub fn key_not_found(key_id: i64, in_database: bool) -> (r: String)
    ensures
        r@ == "SSH Key with ID "@ + signed_decimal(key_id as int) + (if in_database {
            " not found in database"@
        } else {
            " not found"@
        }),
{
    let r = with_signed_decimal(String::from_str("SSH Key with ID "), key_id).concat(
        if in_database {
            " not found in database"
        } else {
            " not found"
        },
    );
    r
}

/// The message when reading a stored key failed.
pub fn key_fetch_failed(detail: &str) -> (r: String)
    ensures
        r@ == "Failed to fetch SSH Key: "@ + detail@,
{
    String::from_str("Failed to fetch SSH Key: ").concat(detail)
}

/// The connection with the stored key filled in.
pub fn with_key(config: Connection, content: String, passphrase: Option<String>) -> (r: Connection)
    ensures
        r == (Connection { key_content: Some(content), key_passphrase: passphrase, ..config }),
{
    let mut c = config;
    c.key_content = Some(content);
    c.key_passphrase = passphrase;
    c
}

/// The number of background sessions: the setting, or six without
/// settings.
pub fn max_background_sessions(setting: Option<i32>) -> (r: usize)
    ensures
        r == match setting {
            Some(v) => v as usize,
            None => 6usize,
        },
{
    match setting {
        Some(v) => v as usize,
        None => 6,
    }
}

/// The message when the terminal of a session could not be started.
pub fn shell_start_failed(detail: &str) -> (r: String)
    ensures
        r@ == "Failed to start shell thread: "@ + detail@,
{
    String::from_str("Failed to start shell thread: ").concat(detail)
}

} // verus!
