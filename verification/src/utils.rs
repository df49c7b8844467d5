//! Helpers of the SSH workers: when a blocked libssh2 call is retried, the
//! SFTP buffer size, and the hashes used to compare local and remote files.
use vstd::prelude::*;

use crate::connection::byte_hex;
use crate::error_classifier::SshErrorCode;
use crate::text::{decimal, is_white_space, str_trim, trim_of, trim_start_of};

verus! {

/// Attempts after the first that a blocked libssh2 call gets.
pub const MAX_SSH2_RETRIES: u32 = 3;

/// The libssh2 code of a call that would block.
pub open spec fn is_would_block(code: SshErrorCode) -> bool {
    code == SshErrorCode::Session(-37i32)
}

/// Whether attempt `attempt` (from 0) of a libssh2 call that failed with
/// `code` is followed by another, after 10 ms: only a call that would
/// block is retried, at most three times.
pub fn ssh2_should_retry(code: SshErrorCode, attempt: u32) -> (r: bool)
    ensures
        r == (is_would_block(code) && attempt < MAX_SSH2_RETRIES),
{
    code == SshErrorCode::Session(-37) && attempt < MAX_SSH2_RETRIES
}

/// The SFTP buffer size in bytes for a setting in kilobytes, 512 KB
/// without settings.
pub fn get_sftp_buffer_size(setting_kb: Option<i32>) -> (r: usize)
    requires
        setting_kb matches Some(kb) ==> i32::MIN <= kb * 1024 <= i32::MAX,
    ensures
        r == match setting_kb {
            Some(kb) => (kb * 1024) as usize,
            None => 524288usize,
        },
{
    match setting_kb {
        Some(kb) => (kb * 1024) as usize,
        None => 512 * 1024,
    }
}

/// Bytes as lower-case hexadecimal, two digits per byte.
pub open spec fn hex_of(bytes: Seq<u8>) -> Seq<char>
    decreases bytes.len(),
{
    if bytes.len() == 0 {
        Seq::empty()
    } else {
        hex_of(bytes.drop_last()) + byte_hex(bytes.last())
    }
}

/// Calls `hex::encode`, documented to encode each byte as two lower-case
/// hexadecimal digits, in order.
#[verifier::external_body]
fn hex_encode(data: &[u8]) -> (r: String)
    ensures
        r@ == hex_of(data@),
{
    hex::encode(data)
}

/// The SHA-256 digest of `data`, as the `sha2` crate computes it.
pub uninterp spec fn sha256_of(data: Seq<u8>) -> Seq<u8>;

/// Calls `Sha256::digest` of the `sha2` crate.  The contract states that
/// the result is `sha256_of` the input and, as the output size of SHA-256,
/// 32 bytes long.
#[verifier::external_body]
fn sha256_digest(data: &[u8]) -> (r: Vec<u8>)
    ensures
        r@ == sha256_of(data@),
        r@.len() == 32,
{
    <sha2::Sha256 as sha2::Digest>::digest(data).to_vec()
}

/// How many bytes of a chunk of `n` bytes read after `read` bytes are
/// hashed when at most `limit` bytes are: the chunk, cut at the limit.
pub fn hash_chunk_len(read: u64, n: usize, limit: u64) -> (r: usize)
    requires
        read <= limit,
    ensures
        r == (if read + n > limit { (limit - read) as usize } else { n }),
        r <= n,
{
    if (read as u128) + (n as u128) > (limit as u128) {
        (limit - read) as usize
    } else {
        n
    }
}

/// Whether a hash of at most `limit` bytes is complete after `read` bytes.
pub fn hash_complete(read: u64, limit: u64) -> (r: bool)
    ensures
        r == (read >= limit),
{
    read >= limit
}

/// The hexadecimal SHA-256 of the first `limit` bytes of `content` (all of
/// it when shorter).
pub fn hash_prefix(content: &[u8], limit: u64) -> (r: String)
    ensures
        r@ == hex_of(sha256_of(content@.take(if content@.len() > limit { limit as int } else { content@.len() as int }))),
{
    let n: usize = if (content.len() as u128) > (limit as u128) { limit as usize } else { content.len() };
    let mut prefix: Vec<u8> = Vec::new();
    let mut i: usize = 0;
    while i < n
        invariant
            n <= content@.len(),
            i <= n,
            prefix@ == content@.take(i as int),
        decreases n - i,
    {
        prefix.push(content[i]);
        proof {
            assert(content@.take(i + 1) =~= content@.take(i as int).push(content@[i as int]));
        }
        i = i + 1;
    }
    let digest = sha256_digest(prefix.as_slice());
    hex_encode(digest.as_slice())
}

/// The tool used to hash a remote file.
#[derive(Debug, Clone, Copy, PartialEq, Eq, Structural)]
pub enum HashTool {
    Sha256sum,
    Md5sum,
}

/// The command hashing `path` with `tool`; the path is put between single
/// quotes as it is.
pub fn remote_hash_command(tool: HashTool, path: &str) -> (r: String)
    ensures
        r@ == (match tool {
            HashTool::Sha256sum => "sha256sum '"@,
            HashTool::Md5sum => "md5sum '"@,
        }) + path@ + "'"@,
{
    let head = match tool {
        HashTool::Sha256sum => "sha256sum '",
        HashTool::Md5sum => "md5sum '",
    };
    String::from_str(head).concat(path).concat("'")
}

/// The longest start of `s` without white space.
pub open spec fn word_prefix(s: Seq<char>) -> Seq<char>
    decreases s.len(),
{
    if s.len() == 0 || is_white_space(s[0]) {
        Seq::empty()
    } else {
        seq![s[0]] + word_prefix(s.skip(1))
    }
}

/// The first word of `s`: after its leading white space, the characters up
/// to the next white space; none when `s` is all white space.
pub open spec fn first_word_of(s: Seq<char>) -> Option<Seq<char>> {
    let t = trim_start_of(s);
    if t.len() == 0 {
        None
    } else {
        Some(word_prefix(t))
    }
}

/// Calls `str::split_whitespace` and takes the first word; its
/// documentation splits at any amount of white space as the Unicode
/// `White_Space` property defines it.
#[verifier::external_body]
fn first_word(s: &str) -> (r: Option<String>)
    ensures
        match r {
            Some(w) => first_word_of(s@) == Some(w@),
            None => first_word_of(s@) is None,
        },
{
    s.split_whitespace().next().map(|w| w.to_string())
}

/// The hash a hashing command printed: its first word, when it exited with
/// status 0.
pub fn hash_from_output(exit_status: i32, output: &str) -> (r: Option<String>)
    ensures
        exit_status != 0 ==> r is None,
        exit_status == 0 ==> match r {
            Some(w) => first_word_of(output@) == Some(w@),
            None => first_word_of(output@) is None,
        },
{
    if exit_status != 0 {
        return None;
    }
    first_word(output)
}

/// A step of hashing a remote file that can fail.
#[derive(Debug, Clone, Copy, PartialEq, Eq, Structural)]
pub enum RemoteHashStep {
    OpenChannel,
    Exec,
    WaitClose,
    OpenMd5Channel,
    ExecMd5,
}

/// The message of a failed step of hashing a remote file.
pub fn remote_hash_error(step: RemoteHashStep, detail: &str) -> (r: String)
    ensures
        r@ == (match step {
            RemoteHashStep::OpenChannel => "Failed to create channel: "@,
            RemoteHashStep::Exec => "Failed to execute command: "@,
            RemoteHashStep::WaitClose => "Failed to wait for channel close: "@,
            RemoteHashStep::OpenMd5Channel => "Failed to create channel for md5sum: "@,
            RemoteHashStep::ExecMd5 => "Failed to execute md5sum command: "@,
        }) + detail@,
{
    let prefix = match step {
        RemoteHashStep::OpenChannel => "Failed to create channel: ",
        RemoteHashStep::Exec => "Failed to execute command: ",
        RemoteHashStep::WaitClose => "Failed to wait for channel close: ",
        RemoteHashStep::OpenMd5Channel => "Failed to create channel for md5sum: ",
        RemoteHashStep::ExecMd5 => "Failed to execute md5sum command: ",
    };
    String::from_str(prefix).concat(detail)
}

/// Whether reading a command's output timed out: after ten seconds.
pub fn command_timed_out(elapsed_ms: u64) -> (r: bool)
    ensures
        r == (elapsed_ms > 10_000),
{
    elapsed_ms > 10_000
}

} // verus!
