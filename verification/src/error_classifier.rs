//! Sorting SSH errors into categories that drive the retry decision:
//! temporary (retry), permanent (give up), rate limited (retry later) and
//! resource exhausted (retry with backoff).
use vstd::prelude::*;

use crate::text::{all_ascii, ascii_lower_char, chars_of, contains_sub, lowercase_of, str_contains, to_lowercase};

verus! {

/// Category of an SSH failure, used to decide whether and how to retry.
#[derive(Debug, Clone, Copy, PartialEq, Eq, Structural)]
pub enum SshErrorType {
    /// Network fluctuation or timeout: retry.
    Temporary,
    /// Authentication or configuration problem: do not retry.
    Permanent,
    /// The server limits connections: retry with an extended delay.
    RateLimited,
    /// The server is overloaded: retry with backoff.
    ResourceExhausted,
}

/// Code carried by an error of the SSH library: a session code (libssh2
/// `LIBSSH2_ERROR_*`) or an SFTP status code (`LIBSSH2_FX_*`).
#[derive(Debug, Clone, Copy, PartialEq, Eq, Structural)]
pub enum SshErrorCode {
    Session(i32),
    Sftp(i32),
}

/// What the classifier reads of an SSH library error: its code and the text
/// it displays.
#[derive(Debug, Clone)]
pub struct SshError {
    pub code: SshErrorCode,
    pub text: String,
}

/// Kind of an I/O error, as far as the classifier distinguishes kinds.
#[derive(Debug, Clone, Copy, PartialEq, Eq, Structural)]
pub enum IoErrorKind {
    WouldBlock,
    TimedOut,
    Interrupted,
    ConnectionReset,
    ConnectionAborted,
    NotFound,
    PermissionDenied,
    ConnectionRefused,
    Other,
}

/// What the classifier reads of an I/O error: its kind and displayed text.
#[derive(Debug, Clone)]
pub struct IoErrorInfo {
    pub kind: IoErrorKind,
    pub text: String,
}

/// Message patterns that mark an error as permanent.
pub open spec fn permanent_patterns() -> Seq<Seq<char>> {
    seq![
        "authentication failed"@, "auth failed"@, "permission denied"@, "access denied"@,
        "invalid user"@, "invalid password"@, "wrong password"@, "incorrect password"@,
        "key authentication failed"@, "publickey authentication failed"@,
        "host key verification failed"@, "host key mismatch"@, "no such host"@,
        "name or service not known"@, "nodename nor servname provided"@,
        "address not available"@, "network is unreachable"@, "connection refused"@,
        "protocol error"@, "invalid"@, "unsupported"@, "not supported"@, "disabled"@,
        "banned"@, "blocked"@, "blacklisted"@,
    ]
}

/// Message patterns that mark an error as rate limiting.
pub open spec fn rate_limit_patterns() -> Seq<Seq<char>> {
    seq![
        "too many"@, "rate limit"@, "throttl"@, "slow down"@, "max sessions"@,
        "max connections"@, "connection limit"@, "try again later"@,
    ]
}

/// Message patterns that mark an error as resource exhaustion.
pub open spec fn resource_patterns() -> Seq<Seq<char>> {
    seq![
        "resource"@, "out of memory"@, "oom"@, "overload"@, "busy"@, "try again"@,
        "temporarily unavailable"@, "service unavailable"@,
    ]
}

/// Some pattern of `pats` occurs in `msg`.
pub open spec fn contains_any(msg: Seq<char>, pats: Seq<Seq<char>>) -> bool {
    exists|k: int| 0 <= k < pats.len() && contains_sub(msg, #[trigger] pats[k])
}

/// Classification of an already lower-cased message: permanent patterns
/// first, then resource exhaustion (a busy server asking to try again later
/// is overloaded), then rate limiting; anything else is temporary.
pub open spec fn classify_lowered(msg: Seq<char>) -> SshErrorType {
    if contains_any(msg, permanent_patterns()) {
        SshErrorType::Permanent
    } else if contains_any(msg, resource_patterns()) {
        SshErrorType::ResourceExhausted
    } else if contains_any(msg, rate_limit_patterns()) {
        SshErrorType::RateLimited
    } else {
        SshErrorType::Temporary
    }
}

/// Classification of a message of any case.
pub open spec fn classify_message(msg: Seq<char>) -> SshErrorType {
    classify_lowered(lowercase_of(msg))
}

/// Session codes that are permanent whatever the message says: -18
/// (authentication), -19 (request denied), -30 (known hosts check) and -40
/// (invalid request).
pub open spec fn is_permanent_code(code: SshErrorCode) -> bool {
    match code {
        SshErrorCode::Session(n) => n == -18 || n == -19 || n == -30 || n == -40,
        SshErrorCode::Sftp(_) => false,
    }
}

/// Classification of an SSH library error.
pub open spec fn classify_ssh_error(e: SshError) -> SshErrorType {
    if is_permanent_code(e.code) {
        SshErrorType::Permanent
    } else {
        classify_message(lowercase_of(e.text@))
    }
}

/// Classification of an I/O error.
pub open spec fn classify_io(kind: IoErrorKind, text: Seq<char>) -> SshErrorType {
    match kind {
        IoErrorKind::WouldBlock | IoErrorKind::TimedOut | IoErrorKind::Interrupted
        | IoErrorKind::ConnectionReset | IoErrorKind::ConnectionAborted => SshErrorType::Temporary,
        IoErrorKind::NotFound | IoErrorKind::PermissionDenied
        | IoErrorKind::ConnectionRefused => SshErrorType::Permanent,
        IoErrorKind::Other => classify_message(lowercase_of(text)),
    }
}

/// Whether an error of this category is worth retrying.
pub open spec fn retryable(t: SshErrorType) -> bool {
    t != SshErrorType::Permanent
}

fn permanent_list() -> (r: Vec<&'static str>)
    ensures
        r@.map_values(|p: &str| p@) == permanent_patterns(),
{
    let r = vec![
        "authentication failed", "auth failed", "permission denied", "access denied",
        "invalid user", "invalid password", "wrong password", "incorrect password",
        "key authentication failed", "publickey authentication failed",
        "host key verification failed", "host key mismatch", "no such host",
        "name or service not known", "nodename nor servname provided",
        "address not available", "network is unreachable", "connection refused",
        "protocol error", "invalid", "unsupported", "not supported", "disabled",
        "banned", "blocked", "blacklisted",
    ];
    assert(r@.map_values(|p: &str| p@) =~= permanent_patterns());
    r
}

fn rate_limit_list() -> (r: Vec<&'static str>)
    ensures
        r@.map_values(|p: &str| p@) == rate_limit_patterns(),
{
    let r = vec![
        "too many", "rate limit", "throttl", "slow down", "max sessions",
        "max connections", "connection limit", "try again later",
    ];
    assert(r@.map_values(|p: &str| p@) =~= rate_limit_patterns());
    r
}

fn resource_list() -> (r: Vec<&'static str>)
    ensures
        r@.map_values(|p: &str| p@) == resource_patterns(),
{
    let r = vec![
        "resource", "out of memory", "oom", "overload", "busy", "try again",
        "temporarily unavailable", "service unavailable",
    ];
    assert(r@.map_values(|p: &str| p@) =~= resource_patterns());
    r
}

/// Whether some pattern of `pats` occurs in `msg`.
fn matches_any(msg: &Vec<char>, pats: &Vec<&'static str>) -> (r: bool)
    ensures
        r == contains_any(msg@, pats@.map_values(|p: &str| p@)),
{
    let ghost views = pats@.map_values(|p: &str| p@);
    let mut k: usize = 0;
    while k < pats.len()
        invariant
            views == pats@.map_values(|p: &str| p@),
            k <= pats@.len(),
            forall|j: int| 0 <= j < k ==> !contains_sub(msg@, #[trigger] views[j]),
        decreases pats@.len() - k,
    {
        if str_contains(msg, pats[k]) {
            assert(contains_sub(msg@, views[k as int]));
            return true;
        }
        k = k + 1;
    }
    false
}

/// Sorts SSH errors into [`SshErrorType`] categories.
pub struct SshErrorClassifier;

impl SshErrorClassifier {
    /// Classifies an SSH library error: session codes -18, -19, -30 and -40
    /// are permanent; otherwise the lower-cased displayed text decides.
    pub fn classify(error: &SshError) -> (r: SshErrorType)
        ensures
            r == classify_ssh_error(*error),
    {
        match error.code {
            SshErrorCode::Session(n) => {
                if n == -18 || n == -19 || n == -30 || n == -40 {
                    return SshErrorType::Permanent;
                }
            },
            SshErrorCode::Sftp(_) => {},
        }
        let msg = to_lowercase(error.text.as_str());
        Self::classify_from_string(msg.as_str())
    }

    /// Classifies an I/O error: timeouts, interruptions and dropped
    /// connections are temporary; missing files, refused permission and
    /// refused connections are permanent; other kinds go by the message.
    pub fn classify_io_error(error: &IoErrorInfo) -> (r: SshErrorType)
        ensures
            r == classify_io(error.kind, error.text@),
    {
        match error.kind {
            IoErrorKind::WouldBlock | IoErrorKind::TimedOut | IoErrorKind::Interrupted
            | IoErrorKind::ConnectionReset | IoErrorKind::ConnectionAborted => SshErrorType::Temporary,
            IoErrorKind::NotFound | IoErrorKind::PermissionDenied
            | IoErrorKind::ConnectionRefused => SshErrorType::Permanent,
            IoErrorKind::Other => {
                let msg = to_lowercase(error.text.as_str());
                Self::classify_from_string(msg.as_str())
            },
        }
    }

    /// Classifies a message: after lower-casing, permanent patterns win over
    /// resource patterns, which win over rate-limit patterns; a message with
    /// none of them is temporary.
    pub fn classify_from_string(error: &str) -> (r: SshErrorType)
        ensures
            r == classify_message(error@),
            all_ascii(error@) ==> r == classify_lowered(error@.map_values(|c: char| ascii_lower_char(c))),
    {
        let lowered = to_lowercase(error);
        let msg = chars_of(lowered.as_str());
        if matches_any(&msg, &permanent_list()) {
            return SshErrorType::Permanent;
        }
        if matches_any(&msg, &resource_list()) {
            return SshErrorType::ResourceExhausted;
        }
        if matches_any(&msg, &rate_limit_list()) {
            return SshErrorType::RateLimited;
        }
        SshErrorType::Temporary
    }

    /// Whether an error of this category should be retried: every category
    /// but `Permanent`.
    pub fn should_retry(error_type: SshErrorType) -> (r: bool)
        ensures
            r == retryable(error_type),
    {
        match error_type {
            SshErrorType::Temporary => true,
            SshErrorType::Permanent => false,
            SshErrorType::RateLimited => true,
            SshErrorType::ResourceExhausted => true,
        }
    }

    /// A human-readable description of the category.
    pub fn describe(error_type: SshErrorType) -> (r: &'static str)
        ensures
            r@ == describe_spec(error_type),
    {
        match error_type {
            SshErrorType::Temporary => "Temporary error - network issue or timeout",
            SshErrorType::Permanent => "Permanent error - authentication or configuration issue",
            SshErrorType::RateLimited => "Rate limited - server is limiting connections",
            SshErrorType::ResourceExhausted => "Resource exhausted - server is overloaded",
        }
    }
}

/// Description text of each category.
pub open spec fn describe_spec(t: SshErrorType) -> Seq<char> {
    match t {
        SshErrorType::Temporary => "Temporary error - network issue or timeout"@,
        SshErrorType::Permanent => "Permanent error - authentication or configuration issue"@,
        SshErrorType::RateLimited => "Rate limited - server is limiting connections"@,
        SshErrorType::ResourceExhausted => "Resource exhausted - server is overloaded"@,
    }
}

/// Classification is a total priority order: a message that holds a
/// permanent pattern is permanent whatever else it holds, and only a message
/// with no pattern of any list is temporary.
pub proof fn law_classification_priority(msg: Seq<char>)
    ensures
        contains_any(lowercase_of(msg), permanent_patterns())
            ==> classify_message(msg) == SshErrorType::Permanent,
        classify_message(msg) == SshErrorType::Temporary <==> (
            !contains_any(lowercase_of(msg), permanent_patterns())
            && !contains_any(lowercase_of(msg), rate_limit_patterns())
            && !contains_any(lowercase_of(msg), resource_patterns())),
        retryable(classify_message(msg)) <==> !contains_any(
            lowercase_of(msg),
            permanent_patterns(),
        ),
{
}


/// I/O errors: timeouts, interruptions, blocking and dropped connections
/// are temporary; missing files, refused permission and refused connections
/// are permanent; any other kind is classified by its lower-cased message,
/// which is the class of the message itself wherever lowering its case a
/// second time changes nothing.
pub proof fn law_io_classification(kind: IoErrorKind, text: Seq<char>)
    ensures
        (kind == IoErrorKind::WouldBlock || kind == IoErrorKind::TimedOut || kind == IoErrorKind::Interrupted
            || kind == IoErrorKind::ConnectionReset || kind == IoErrorKind::ConnectionAborted) ==> classify_io(
            kind,
            text,
        ) == SshErrorType::Temporary,
        (kind == IoErrorKind::NotFound || kind == IoErrorKind::PermissionDenied || kind
            == IoErrorKind::ConnectionRefused) ==> classify_io(kind, text) == SshErrorType::Permanent,
        kind == IoErrorKind::Other ==> classify_io(kind, text) == classify_message(lowercase_of(text)),
        kind == IoErrorKind::Other && lowercase_of(lowercase_of(text)) == lowercase_of(text) ==> classify_io(
            kind,
            text,
        ) == classify_message(text),
{
}


/// A pattern found at position `i` of a list makes the message match it.
proof fn lemma_listed(l: Seq<char>, pats: Seq<Seq<char>>, i: int)
    requires
        0 <= i < pats.len(),
        contains_sub(l, pats[i]),
    ensures
        contains_any(l, pats),
{
}

/// A message naming a refused login, a refused or unreachable host, an
/// unknown name, a protocol error or anything invalid, unsupported, disabled
/// or banned is permanent, whatever else it says, and is not retried.
pub proof fn law_permanent_messages(msg: Seq<char>)
    ensures
        ({
            let l = lowercase_of(msg);
            ||| contains_sub(l, "authentication failed"@)
            ||| contains_sub(l, "auth failed"@)
            ||| contains_sub(l, "permission denied"@)
            ||| contains_sub(l, "access denied"@)
            ||| contains_sub(l, "invalid user"@)
            ||| contains_sub(l, "invalid password"@)
            ||| contains_sub(l, "wrong password"@)
            ||| contains_sub(l, "incorrect password"@)
            ||| contains_sub(l, "key authentication failed"@)
            ||| contains_sub(l, "publickey authentication failed"@)
            ||| contains_sub(l, "host key verification failed"@)
            ||| contains_sub(l, "host key mismatch"@)
            ||| contains_sub(l, "no such host"@)
            ||| contains_sub(l, "name or service not known"@)
            ||| contains_sub(l, "nodename nor servname provided"@)
            ||| contains_sub(l, "address not available"@)
            ||| contains_sub(l, "network is unreachable"@)
            ||| contains_sub(l, "connection refused"@)
            ||| contains_sub(l, "protocol error"@)
            ||| contains_sub(l, "invalid"@)
            ||| contains_sub(l, "unsupported"@)
            ||| contains_sub(l, "not supported"@)
            ||| contains_sub(l, "disabled"@)
            ||| contains_sub(l, "banned"@)
            ||| contains_sub(l, "blocked"@)
            ||| contains_sub(l, "blacklisted"@)
        }) ==> classify_message(msg) == SshErrorType::Permanent && !retryable(classify_message(msg)),
{
    let l = lowercase_of(msg);
    if contains_sub(l, "authentication failed"@) {
        assert(permanent_patterns()[0] == "authentication failed"@);
        lemma_listed(l, permanent_patterns(), 0);
    }
    if contains_sub(l, "auth failed"@) {
        assert(permanent_patterns()[1] == "auth failed"@);
        lemma_listed(l, permanent_patterns(), 1);
    }
    if contains_sub(l, "permission denied"@) {
        assert(permanent_patterns()[2] == "permission denied"@);
        lemma_listed(l, permanent_patterns(), 2);
    }
    if contains_sub(l, "access denied"@) {
        assert(permanent_patterns()[3] == "access denied"@);
        lemma_listed(l, permanent_patterns(), 3);
    }
    if contains_sub(l, "invalid user"@) {
        assert(permanent_patterns()[4] == "invalid user"@);
        lemma_listed(l, permanent_patterns(), 4);
    }
    if contains_sub(l, "invalid password"@) {
        assert(permanent_patterns()[5] == "invalid password"@);
        lemma_listed(l, permanent_patterns(), 5);
    }
    if contains_sub(l, "wrong password"@) {
        assert(permanent_patterns()[6] == "wrong password"@);
        lemma_listed(l, permanent_patterns(), 6);
    }
    if contains_sub(l, "incorrect password"@) {
        assert(permanent_patterns()[7] == "incorrect password"@);
        lemma_listed(l, permanent_patterns(), 7);
    }
    if contains_sub(l, "key authentication failed"@) {
        assert(permanent_patterns()[8] == "key authentication failed"@);
        lemma_listed(l, permanent_patterns(), 8);
    }
    if contains_sub(l, "publickey authentication failed"@) {
        assert(permanent_patterns()[9] == "publickey authentication failed"@);
        lemma_listed(l, permanent_patterns(), 9);
    }
    if contains_sub(l, "host key verification failed"@) {
        assert(permanent_patterns()[10] == "host key verification failed"@);
        lemma_listed(l, permanent_patterns(), 10);
    }
    if contains_sub(l, "host key mismatch"@) {
        assert(permanent_patterns()[11] == "host key mismatch"@);
        lemma_listed(l, permanent_patterns(), 11);
    }
    if contains_sub(l, "no such host"@) {
        assert(permanent_patterns()[12] == "no such host"@);
        lemma_listed(l, permanent_patterns(), 12);
    }
    if contains_sub(l, "name or service not known"@) {
        assert(permanent_patterns()[13] == "name or service not known"@);
        lemma_listed(l, permanent_patterns(), 13);
    }
    if contains_sub(l, "nodename nor servname provided"@) {
        assert(permanent_patterns()[14] == "nodename nor servname provided"@);
        lemma_listed(l, permanent_patterns(), 14);
    }
    if contains_sub(l, "address not available"@) {
        assert(permanent_patterns()[15] == "address not available"@);
        lemma_listed(l, permanent_patterns(), 15);
    }
    if contains_sub(l, "network is unreachable"@) {
        assert(permanent_patterns()[16] == "network is unreachable"@);
        lemma_listed(l, permanent_patterns(), 16);
    }
    if contains_sub(l, "connection refused"@) {
        assert(permanent_patterns()[17] == "connection refused"@);
        lemma_listed(l, permanent_patterns(), 17);
    }
    if contains_sub(l, "protocol error"@) {
        assert(permanent_patterns()[18] == "protocol error"@);
        lemma_listed(l, permanent_patterns(), 18);
    }
    if contains_sub(l, "invalid"@) {
        assert(permanent_patterns()[19] == "invalid"@);
        lemma_listed(l, permanent_patterns(), 19);
    }
    if contains_sub(l, "unsupported"@) {
        assert(permanent_patterns()[20] == "unsupported"@);
        lemma_listed(l, permanent_patterns(), 20);
    }
    if contains_sub(l, "not supported"@) {
        assert(permanent_patterns()[21] == "not supported"@);
        lemma_listed(l, permanent_patterns(), 21);
    }
    if contains_sub(l, "disabled"@) {
        assert(permanent_patterns()[22] == "disabled"@);
        lemma_listed(l, permanent_patterns(), 22);
    }
    if contains_sub(l, "banned"@) {
        assert(permanent_patterns()[23] == "banned"@);
        lemma_listed(l, permanent_patterns(), 23);
    }
    if contains_sub(l, "blocked"@) {
        assert(permanent_patterns()[24] == "blocked"@);
        lemma_listed(l, permanent_patterns(), 24);
    }
    if contains_sub(l, "blacklisted"@) {
        assert(permanent_patterns()[25] == "blacklisted"@);
        lemma_listed(l, permanent_patterns(), 25);
    }
}

/// A message that is not permanent and names an exhausted resource, an
/// overload or a busy server is resource exhaustion; one that is neither
/// and names too many connections, a rate limit or throttling is rate
/// limited.  Both are retried.
pub proof fn law_resource_and_rate_messages(msg: Seq<char>)
    ensures
        ({
            let l = lowercase_of(msg);
            ||| contains_sub(l, "resource"@)
            ||| contains_sub(l, "out of memory"@)
            ||| contains_sub(l, "oom"@)
            ||| contains_sub(l, "overload"@)
            ||| contains_sub(l, "busy"@)
            ||| contains_sub(l, "try again"@)
            ||| contains_sub(l, "temporarily unavailable"@)
            ||| contains_sub(l, "service unavailable"@)
        }) && classify_message(msg) != SshErrorType::Permanent ==> classify_message(msg)
            == SshErrorType::ResourceExhausted && retryable(classify_message(msg)),
        ({
            let l = lowercase_of(msg);
            ||| contains_sub(l, "too many"@)
            ||| contains_sub(l, "rate limit"@)
            ||| contains_sub(l, "throttl"@)
            ||| contains_sub(l, "slow down"@)
            ||| contains_sub(l, "max sessions"@)
            ||| contains_sub(l, "max connections"@)
            ||| contains_sub(l, "connection limit"@)
            ||| contains_sub(l, "try again later"@)
        }) && classify_message(msg) != SshErrorType::Permanent && classify_message(msg)
            != SshErrorType::ResourceExhausted ==> classify_message(msg) == SshErrorType::RateLimited
            && retryable(classify_message(msg)),
{
    let l = lowercase_of(msg);
    if contains_sub(l, "resource"@) {
        assert(resource_patterns()[0] == "resource"@);
        lemma_listed(l, resource_patterns(), 0);
    }
    if contains_sub(l, "out of memory"@) {
        assert(resource_patterns()[1] == "out of memory"@);
        lemma_listed(l, resource_patterns(), 1);
    }
    if contains_sub(l, "oom"@) {
        assert(resource_patterns()[2] == "oom"@);
        lemma_listed(l, resource_patterns(), 2);
    }
    if contains_sub(l, "overload"@) {
        assert(resource_patterns()[3] == "overload"@);
        lemma_listed(l, resource_patterns(), 3);
    }
    if contains_sub(l, "busy"@) {
        assert(resource_patterns()[4] == "busy"@);
        lemma_listed(l, resource_patterns(), 4);
    }
    if contains_sub(l, "try again"@) {
        assert(resource_patterns()[5] == "try again"@);
        lemma_listed(l, resource_patterns(), 5);
    }
    if contains_sub(l, "temporarily unavailable"@) {
        assert(resource_patterns()[6] == "temporarily unavailable"@);
        lemma_listed(l, resource_patterns(), 6);
    }
    if contains_sub(l, "service unavailable"@) {
        assert(resource_patterns()[7] == "service unavailable"@);
        lemma_listed(l, resource_patterns(), 7);
    }
    if contains_sub(l, "too many"@) {
        assert(rate_limit_patterns()[0] == "too many"@);
        lemma_listed(l, rate_limit_patterns(), 0);
    }
    if contains_sub(l, "rate limit"@) {
        assert(rate_limit_patterns()[1] == "rate limit"@);
        lemma_listed(l, rate_limit_patterns(), 1);
    }
    if contains_sub(l, "throttl"@) {
        assert(rate_limit_patterns()[2] == "throttl"@);
        lemma_listed(l, rate_limit_patterns(), 2);
    }
    if contains_sub(l, "slow down"@) {
        assert(rate_limit_patterns()[3] == "slow down"@);
        lemma_listed(l, rate_limit_patterns(), 3);
    }
    if contains_sub(l, "max sessions"@) {
        assert(rate_limit_patterns()[4] == "max sessions"@);
        lemma_listed(l, rate_limit_patterns(), 4);
    }
    if contains_sub(l, "max connections"@) {
        assert(rate_limit_patterns()[5] == "max connections"@);
        lemma_listed(l, rate_limit_patterns(), 5);
    }
    if contains_sub(l, "connection limit"@) {
        assert(rate_limit_patterns()[6] == "connection limit"@);
        lemma_listed(l, rate_limit_patterns(), 6);
    }
    if contains_sub(l, "try again later"@) {
        assert(rate_limit_patterns()[7] == "try again later"@);
        lemma_listed(l, rate_limit_patterns(), 7);
    }
}

/// A message with none of the listed patterns is a temporary error, and is
/// retried.
pub proof fn law_unlisted_messages_are_temporary(msg: Seq<char>)
    ensures
        !({
            let l = lowercase_of(msg);
            ||| contains_sub(l, "authentication failed"@)
            ||| contains_sub(l, "auth failed"@)
            ||| contains_sub(l, "permission denied"@)
            ||| contains_sub(l, "access denied"@)
            ||| contains_sub(l, "invalid user"@)
            ||| contains_sub(l, "invalid password"@)
            ||| contains_sub(l, "wrong password"@)
            ||| contains_sub(l, "incorrect password"@)
            ||| contains_sub(l, "key authentication failed"@)
            ||| contains_sub(l, "publickey authentication failed"@)
            ||| contains_sub(l, "host key verification failed"@)
            ||| contains_sub(l, "host key mismatch"@)
            ||| contains_sub(l, "no such host"@)
            ||| contains_sub(l, "name or service not known"@)
            ||| contains_sub(l, "nodename nor servname provided"@)
            ||| contains_sub(l, "address not available"@)
            ||| contains_sub(l, "network is unreachable"@)
            ||| contains_sub(l, "connection refused"@)
            ||| contains_sub(l, "protocol error"@)
            ||| contains_sub(l, "invalid"@)
            ||| contains_sub(l, "unsupported"@)
            ||| contains_sub(l, "not supported"@)
            ||| contains_sub(l, "disabled"@)
            ||| contains_sub(l, "banned"@)
            ||| contains_sub(l, "blocked"@)
            ||| contains_sub(l, "blacklisted"@)
            ||| contains_sub(l, "resource"@)
            ||| contains_sub(l, "out of memory"@)
            ||| contains_sub(l, "oom"@)
            ||| contains_sub(l, "overload"@)
            ||| contains_sub(l, "busy"@)
            ||| contains_sub(l, "try again"@)
            ||| contains_sub(l, "temporarily unavailable"@)
            ||| contains_sub(l, "service unavailable"@)
            ||| contains_sub(l, "too many"@)
            ||| contains_sub(l, "rate limit"@)
            ||| contains_sub(l, "throttl"@)
            ||| contains_sub(l, "slow down"@)
            ||| contains_sub(l, "max sessions"@)
            ||| contains_sub(l, "max connections"@)
            ||| contains_sub(l, "connection limit"@)
            ||| contains_sub(l, "try again later"@)
        }) ==> classify_message(msg) == SshErrorType::Temporary && retryable(classify_message(msg)),
{
    let l = lowercase_of(msg);
    if !({
        ||| contains_sub(l, "authentication failed"@)
        ||| contains_sub(l, "auth failed"@)
        ||| contains_sub(l, "permission denied"@)
        ||| contains_sub(l, "access denied"@)
        ||| contains_sub(l, "invalid user"@)
        ||| contains_sub(l, "invalid password"@)
        ||| contains_sub(l, "wrong password"@)
        ||| contains_sub(l, "incorrect password"@)
        ||| contains_sub(l, "key authentication failed"@)
        ||| contains_sub(l, "publickey authentication failed"@)
        ||| contains_sub(l, "host key verification failed"@)
        ||| contains_sub(l, "host key mismatch"@)
        ||| contains_sub(l, "no such host"@)
        ||| contains_sub(l, "name or service not known"@)
        ||| contains_sub(l, "nodename nor servname provided"@)
        ||| contains_sub(l, "address not available"@)
        ||| contains_sub(l, "network is unreachable"@)
        ||| contains_sub(l, "connection refused"@)
        ||| contains_sub(l, "protocol error"@)
        ||| contains_sub(l, "invalid"@)
        ||| contains_sub(l, "unsupported"@)
        ||| contains_sub(l, "not supported"@)
        ||| contains_sub(l, "disabled"@)
        ||| contains_sub(l, "banned"@)
        ||| contains_sub(l, "blocked"@)
        ||| contains_sub(l, "blacklisted"@)
        ||| contains_sub(l, "resource"@)
        ||| contains_sub(l, "out of memory"@)
        ||| contains_sub(l, "oom"@)
        ||| contains_sub(l, "overload"@)
        ||| contains_sub(l, "busy"@)
        ||| contains_sub(l, "try again"@)
        ||| contains_sub(l, "temporarily unavailable"@)
        ||| contains_sub(l, "service unavailable"@)
        ||| contains_sub(l, "too many"@)
        ||| contains_sub(l, "rate limit"@)
        ||| contains_sub(l, "throttl"@)
        ||| contains_sub(l, "slow down"@)
        ||| contains_sub(l, "max sessions"@)
        ||| contains_sub(l, "max connections"@)
        ||| contains_sub(l, "connection limit"@)
        ||| contains_sub(l, "try again later"@)
    }) {
    assert(permanent_patterns().len() == 26);
    assert forall|k: int| 0 <= k < permanent_patterns().len() implies !contains_sub(l, #[trigger] permanent_patterns()[k]) by {
        if k == 0 {
            assert(permanent_patterns()[0] == "authentication failed"@);
        } else if k == 1 {
            assert(permanent_patterns()[1] == "auth failed"@);
        } else if k == 2 {
            assert(permanent_patterns()[2] == "permission denied"@);
        } else if k == 3 {
            assert(permanent_patterns()[3] == "access denied"@);
        } else if k == 4 {
            assert(permanent_patterns()[4] == "invalid user"@);
        } else if k == 5 {
            assert(permanent_patterns()[5] == "invalid password"@);
        } else if k == 6 {
            assert(permanent_patterns()[6] == "wrong password"@);
        } else if k == 7 {
            assert(permanent_patterns()[7] == "incorrect password"@);
        } else if k == 8 {
            assert(permanent_patterns()[8] == "key authentication failed"@);
        } else if k == 9 {
            assert(permanent_patterns()[9] == "publickey authentication failed"@);
        } else if k == 10 {
            assert(permanent_patterns()[10] == "host key verification failed"@);
        } else if k == 11 {
            assert(permanent_patterns()[11] == "host key mismatch"@);
        } else if k == 12 {
            assert(permanent_patterns()[12] == "no such host"@);
        } else if k == 13 {
            assert(permanent_patterns()[13] == "name or service not known"@);
        } else if k == 14 {
            assert(permanent_patterns()[14] == "nodename nor servname provided"@);
        } else if k == 15 {
            assert(permanent_patterns()[15] == "address not available"@);
        } else if k == 16 {
            assert(permanent_patterns()[16] == "network is unreachable"@);
        } else if k == 17 {
            assert(permanent_patterns()[17] == "connection refused"@);
        } else if k == 18 {
            assert(permanent_patterns()[18] == "protocol error"@);
        } else if k == 19 {
            assert(permanent_patterns()[19] == "invalid"@);
        } else if k == 20 {
            assert(permanent_patterns()[20] == "unsupported"@);
        } else if k == 21 {
            assert(permanent_patterns()[21] == "not supported"@);
        } else if k == 22 {
            assert(permanent_patterns()[22] == "disabled"@);
        } else if k == 23 {
            assert(permanent_patterns()[23] == "banned"@);
        } else if k == 24 {
            assert(permanent_patterns()[24] == "blocked"@);
        } else if k == 25 {
            assert(permanent_patterns()[25] == "blacklisted"@);
        }
    }
    assert(resource_patterns().len() == 8);
    assert forall|k: int| 0 <= k < resource_patterns().len() implies !contains_sub(l, #[trigger] resource_patterns()[k]) by {
        if k == 0 {
            assert(resource_patterns()[0] == "resource"@);
        } else if k == 1 {
            assert(resource_patterns()[1] == "out of memory"@);
        } else if k == 2 {
            assert(resource_patterns()[2] == "oom"@);
        } else if k == 3 {
            assert(resource_patterns()[3] == "overload"@);
        } else if k == 4 {
            assert(resource_patterns()[4] == "busy"@);
        } else if k == 5 {
            assert(resource_patterns()[5] == "try again"@);
        } else if k == 6 {
            assert(resource_patterns()[6] == "temporarily unavailable"@);
        } else if k == 7 {
            assert(resource_patterns()[7] == "service unavailable"@);
        }
    }
    assert(rate_limit_patterns().len() == 8);
    assert forall|k: int| 0 <= k < rate_limit_patterns().len() implies !contains_sub(l, #[trigger] rate_limit_patterns()[k]) by {
        if k == 0 {
            assert(rate_limit_patterns()[0] == "too many"@);
        } else if k == 1 {
            assert(rate_limit_patterns()[1] == "rate limit"@);
        } else if k == 2 {
            assert(rate_limit_patterns()[2] == "throttl"@);
        } else if k == 3 {
            assert(rate_limit_patterns()[3] == "slow down"@);
        } else if k == 4 {
            assert(rate_limit_patterns()[4] == "max sessions"@);
        } else if k == 5 {
            assert(rate_limit_patterns()[5] == "max connections"@);
        } else if k == 6 {
            assert(rate_limit_patterns()[6] == "connection limit"@);
        } else if k == 7 {
            assert(rate_limit_patterns()[7] == "try again later"@);
        }
    }
    }
}

} // verus!
