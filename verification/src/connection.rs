//! How SSH connections are opened and kept: the cache of liveness checks,
//! the plan of a connection (direct or through a jump host), the choice of
//! authentication, the retry policy of a failed connection, the trust
//! decision on a host key, and the choice of a background session.  The
//! sockets, SSH sessions and files themselves are handled by the caller.
use vstd::prelude::*;

use std::collections::HashMap;

use crate::clock::{elapsed_between, elapsed_ms, now_ms};
use crate::error_classifier::{classify_message, describe_spec, SshErrorClassifier, SshErrorType};
use crate::models::{clone_opt, Connection, ConnectionTimeoutSettings};
use crate::reconnect::{ReconnectManager, MAX_RETRY_TIME_MS};
use crate::text::{
    chars_of, contains_sub, decimal, push_char, str_contains, str_eq, str_trim, trim_of, with_decimal,
};
use crate::timeouts::{
    get_connection_timeout, get_jump_host_timeout, get_local_forward_timeout, timeout_or_default,
    DEFAULT_CONNECTION_TIMEOUT_SECS, DEFAULT_JUMP_HOST_TIMEOUT_SECS, DEFAULT_LOCAL_FORWARD_TIMEOUT_SECS,
};
use vstd::std_specs::hash::spec_keys_iter;
use vstd::std_specs::iter::IteratorSpec;

verus! {

broadcast use vstd::std_specs::hash::group_hash_axioms;

/// Results of recent liveness checks of sessions, each with the time it
/// was made.  A result counts for five seconds.
pub struct HealthCheckCache {
    results: HashMap<usize, (bool, u64)>,
    cache_duration_ms: u64,
}

/// Whether a check made at `at` still counts at `now`.
pub open spec fn still_fresh(at: u64, now: u64, duration_ms: u64) -> bool {
    elapsed_between(at, now) < duration_ms
}

/// The checks of `m` that still count at `now`.
pub open spec fn fresh_results(m: Map<usize, (bool, u64)>, now: u64, duration_ms: u64) -> Map<usize, (bool, u64)> {
    m.restrict(Set::new(|k: usize| m.contains_key(k) && still_fresh(m[k].1, now, duration_ms)))
}

impl HealthCheckCache {
    /// The cached checks, by session key.
    pub closed spec fn checks(&self) -> Map<usize, (bool, u64)> {
        self.results@
    }

    /// How long a check counts, in milliseconds.
    pub closed spec fn duration(&self) -> u64 {
        self.cache_duration_ms
    }

    /// An empty cache whose results count for five seconds.
    pub fn new() -> (r: Self)
        ensures
            r.checks() == Map::<usize, (bool, u64)>::empty(),
            r.duration() == 5000,
    {
        HealthCheckCache { results: HashMap::new(), cache_duration_ms: 5000 }
    }

    /// The cached result for `key` at `now`, if it still counts.
    pub fn get_at(&self, key: usize, now: u64) -> (r: Option<bool>)
        ensures
            r == (if self.checks().contains_key(key) && still_fresh(self.checks()[key].1, now, self.duration()) {
                Some(self.checks()[key].0)
            } else {
                None
            }),
    {
        match self.results.get(&key) {
            Some(entry) => {
                let (result, at) = *entry;
                if elapsed_ms(at, now) < self.cache_duration_ms {
                    Some(result)
                } else {
                    None
                }
            },
            None => None,
        }
    }

    /// The cached result for `key` now, if it still counts.
    pub fn get(&self, key: usize) -> (r: Option<bool>)
        ensures
            exists|now: u64|
                r == (if self.checks().contains_key(key) && #[trigger] still_fresh(
                    self.checks()[key].1,
                    now,
                    self.duration(),
                ) {
                    Some(self.checks()[key].0)
                } else {
                    None
                }),
    {
        self.get_at(key, now_ms())
    }

    /// Records `result` for `key`, made at `now`.
    pub fn insert_at(&mut self, key: usize, result: bool, now: u64)
        ensures
            final(self).checks() == old(self).checks().insert(key, (result, now)),
            final(self).duration() == old(self).duration(),
    {
        self.results.insert(key, (result, now));
    }

    /// Records `result` for `key`, made now.
    pub fn insert(&mut self, key: usize, result: bool)
        ensures
            exists|now: u64| final(self).checks() == #[trigger] old(self).checks().insert(key, (result, now)),
            final(self).duration() == old(self).duration(),
    {
        let now = now_ms();
        self.insert_at(key, result, now);
    }

    /// Forgets the result for `key`.
    pub fn invalidate(&mut self, key: usize)
        ensures
            final(self).checks() == old(self).checks().remove(key),
            final(self).duration() == old(self).duration(),
    {
        self.results.remove(&key);
    }

    /// Forgets the results that no longer count at `now`.
    pub fn cleanup_expired_at(&mut self, now: u64)
        ensures
            final(self).checks() == fresh_results(old(self).checks(), now, old(self).duration()),
            final(self).duration() == old(self).duration(),
    {
        let ghost m = self.results@;
        let dur = self.cache_duration_ms;
        let mut keys: Vec<usize> = Vec::new();
        for k in it: self.results.keys()
            invariant
                keys@.len() == it.index(),
                forall|i: int| 0 <= i < it.index() ==> keys@[i] == *it.seq()[i],
        {
            keys.push(*k);
        }
        proof {
            let ks = spec_keys_iter(&self.results).remaining().unref();
            assert(keys@ =~= ks);
            assert forall|j: int| 0 <= j < keys@.len() implies m.contains_key(#[trigger] keys@[j]) by {
                assert(ks.contains(ks[j]));
                assert(ks.to_set().contains(ks[j]));
            }
            assert forall|k: usize| m.contains_key(k) implies keys@.contains(k) by {
                assert(spec_keys_iter(&self.results).remaining().unref().to_set().contains(k));
            }
        }
        let mut kept: HashMap<usize, (bool, u64)> = HashMap::new();
        let mut i: usize = 0;
        while i < keys.len()
            invariant
                i <= keys@.len(),
                self.results@ == m,
                dur == self.cache_duration_ms,
                forall|j: int| 0 <= j < keys@.len() ==> m.contains_key(#[trigger] keys@[j]),
                forall|k: usize| #[trigger] kept@.contains_key(k) ==> m.contains_key(k) && still_fresh(m[k].1, now, dur)
                    && kept@[k] == m[k],
                forall|j: int| 0 <= j < i ==> (#[trigger] still_fresh(m[keys@[j]].1, now, dur) ==> kept@.contains_key(keys@[j])),
            decreases keys@.len() - i,
        {
            let k = keys[i];
            if let Some(entry) = self.results.get(&k) {
                let v = *entry;
                if elapsed_ms(v.1, now) < dur {
                    kept.insert(k, v);
                }
            }
            i = i + 1;
        }
        proof {
            assert(kept@ =~= fresh_results(m, now, dur)) by {
                assert forall|k: usize| fresh_results(m, now, dur).contains_key(k) implies kept@.contains_key(k) by {
                    assert(keys@.contains(k));
                    let j = choose|j: int| 0 <= j < keys@.len() && keys@[j] == k;
                    assert(still_fresh(m[keys@[j]].1, now, dur));
                }
            }
        }
        self.results = kept;
    }

    /// Forgets the results that no longer count now.
    pub fn cleanup_expired(&mut self)
        ensures
            final(self).duration() == old(self).duration(),
            exists|now: u64| final(self).checks() == #[trigger] fresh_results(old(self).checks(), now, old(self).duration()),
    {
        let now = now_ms();
        self.cleanup_expired_at(now);
    }
}

/// A result recorded at `at` is read back for its key, and kept by a
/// clean-up, until the cache duration has passed since `at`; once it has,
/// it is no longer read back.
pub proof fn law_cache_read_after_write(
    m: Map<usize, (bool, u64)>,
    key: usize,
    result: bool,
    at: u64,
    now: u64,
    duration_ms: u64,
)
    ensures
        m.insert(key, (result, at)).contains_key(key),
        m.insert(key, (result, at))[key] == (result, at),
        still_fresh(m.insert(key, (result, at))[key].1, now, duration_ms) <==> elapsed_between(at, now) < duration_ms,
        elapsed_between(at, now) < duration_ms ==> fresh_results(m.insert(key, (result, at)), now, duration_ms)
            .contains_key(key) && fresh_results(m.insert(key, (result, at)), now, duration_ms)[key] == (result, at),
        elapsed_between(at, now) >= duration_ms ==> !fresh_results(m.insert(key, (result, at)), now, duration_ms)
            .contains_key(key),
{
}

/// Milliseconds to wait before opening another background session after
/// `count` openings in a row: ten to the power of the count, at most five.
pub open spec fn stagger_delay_spec(count: u32) -> u64 {
    if count == 0 {
        1
    } else if count == 1 {
        10
    } else if count == 2 {
        100
    } else if count == 3 {
        1000
    } else if count == 4 {
        10000
    } else {
        100000
    }
}

/// The wait before opening another background session after `count`
/// openings in a row.
pub fn stagger_delay_ms(count: u32) -> (r: u64)
    ensures
        r == stagger_delay_spec(count),
{
    let e: u32 = if count < 5 { count } else { 5 };
    let mut d: u64 = 1;
    let mut i: u32 = 0;
    while i < e
        invariant
            i <= e <= 5,
            e == (if count < 5 { count } else { 5 }),
            d == stagger_delay_spec(i),
        decreases e - i,
    {
        d = d * 10;
        i = i + 1;
    }
    d
}


/// Whether a connection goes through a jump host: it names one that is not
/// blank.
pub open spec fn uses_jump_host(c: Connection) -> bool {
    c.jump_host matches Some(j) && trim_of(j@).len() > 0
}

/// `host:port`.
pub open spec fn address_text(host: Seq<char>, port: u16) -> Seq<char> {
    host + ":"@ + decimal(port as nat)
}

/// The text of an optional string, empty when absent.
pub open spec fn text_or_empty(s: Option<String>) -> Seq<char> {
    match s {
        Some(v) => v@,
        None => Seq::empty(),
    }
}

/// How to reach a server.
#[derive(Debug)]
pub enum ConnectionPlan {
    /// Connect to `address` within `timeout_secs`.
    Direct { address: String, timeout_secs: u64 },
    /// Log in to the jump host at `jump_address` with a password, forward a
    /// local port to `target_host:target_port` through it, and connect to
    /// that port within `forward_timeout_secs`.
    ThroughJump {
        jump_address: String,
        jump_timeout_secs: u64,
        jump_username: String,
        jump_password: String,
        target_host: String,
        target_port: u16,
        forward_timeout_secs: u64,
    },
}

fn address(host: &str, port: u16) -> (r: String)
    ensures
        r@ == address_text(host@, port),
{
    with_decimal(String::from_str(host).concat(":"), port as u64)
}

fn text_of(s: &Option<String>) -> (r: String)
    ensures
        r@ == text_or_empty(*s),
{
    match s {
        Some(v) => v.clone(),
        None => String::new(),
    }
}

/// The plan of a connection under `timeouts`: through the jump host when
/// one is named (its port defaults to 22, its user and password to empty),
/// otherwise directly to the server.
pub fn plan_connection(config: &Connection, timeouts: Option<&ConnectionTimeoutSettings>) -> (r: ConnectionPlan)
    ensures
        uses_jump_host(*config) ==> (r matches ConnectionPlan::ThroughJump {
            jump_address,
            jump_timeout_secs,
            jump_username,
            jump_password,
            target_host,
            target_port,
            forward_timeout_secs,
        } && jump_address@ == address_text(
            text_or_empty(config.jump_host),
            match config.jump_port {
                Some(p) => p,
                None => 22,
            },
        ) && jump_timeout_secs == timeout_or_default(
            match timeouts {
                Some(t) => Some(t.jump_host_timeout_secs),
                None => None,
            },
            DEFAULT_JUMP_HOST_TIMEOUT_SECS,
        ) && jump_username@ == text_or_empty(config.jump_username) && jump_password@ == text_or_empty(
            config.jump_password,
        ) && target_host@ == config.host@ && target_port == config.port && forward_timeout_secs
            == timeout_or_default(
            match timeouts {
                Some(t) => Some(t.local_forward_timeout_secs),
                None => None,
            },
            DEFAULT_LOCAL_FORWARD_TIMEOUT_SECS,
        )),
        !uses_jump_host(*config) ==> (r matches ConnectionPlan::Direct { address, timeout_secs } && address@
            == address_text(config.host@, config.port) && timeout_secs == timeout_or_default(
            match timeouts {
                Some(t) => Some(t.connection_timeout_secs),
                None => None,
            },
            DEFAULT_CONNECTION_TIMEOUT_SECS,
        )),
{
    if let Some(jump_host) = &config.jump_host {
        let trimmed = str_trim(jump_host.as_str());
        if !trimmed.is_empty() {
            let port: u16 = match config.jump_port {
                Some(p) => p,
                None => 22,
            };
            return ConnectionPlan::ThroughJump {
                jump_address: address(jump_host.as_str(), port),
                jump_timeout_secs: get_jump_host_timeout(timeouts),
                jump_username: text_of(&config.jump_username),
                jump_password: text_of(&config.jump_password),
                target_host: config.host.clone(),
                target_port: config.port,
                forward_timeout_secs: get_local_forward_timeout(timeouts),
            };
        }
    }
    ConnectionPlan::Direct {
        address: address(config.host.as_str(), config.port),
        timeout_secs: get_connection_timeout(timeouts),
    }
}

/// How to log in.
#[derive(Debug)]
pub enum AuthPlan {
    /// With the private key `key_content`, unlocked by `passphrase`.
    Key { username: String, key_content: String, passphrase: Option<String> },
    /// With a password.
    Password { username: String, password: String },
}

/// Whether a connection asks for key authentication.
pub open spec fn wants_key_auth(c: Connection) -> bool {
    c.auth_type matches Some(t) && t@ == "key"@
}

/// The log-in of a connection: with its key when the authentication type
/// is `key` (which then needs key content), otherwise with its password
/// (empty when there is none).
pub fn plan_auth(config: &Connection) -> (r: Result<AuthPlan, String>)
    ensures
        wants_key_auth(*config) && config.key_content is None ==> (r matches Err(m) && m@
            == "Auth type is 'key' but no key content provided"@),
        wants_key_auth(*config) && config.key_content is Some ==> (r matches Ok(AuthPlan::Key {
            username,
            key_content,
            passphrase,
        }) && username@ == config.username@ && key_content@ == text_or_empty(config.key_content)
            && passphrase == config.key_passphrase),
        !wants_key_auth(*config) ==> (r matches Ok(AuthPlan::Password { username, password }) && username@
            == config.username@ && password@ == text_or_empty(config.password)),
{
    let is_key = match &config.auth_type {
        Some(t) => str_eq(t.as_str(), "key"),
        None => false,
    };
    if is_key {
        match &config.key_content {
            Some(k) => Ok(AuthPlan::Key {
                username: config.username.clone(),
                key_content: k.clone(),
                passphrase: clone_opt(&config.key_passphrase),
            }),
            None => Err(String::from_str("Auth type is 'key' but no key content provided")),
        }
    } else {
        Ok(AuthPlan::Password { username: config.username.clone(), password: text_of(&config.password) })
    }
}

/// What the `ssh-key` crate makes of an OpenSSH private key in PEM form:
/// the OpenSSH public key derived from it, or the failure, with whether it
/// came in parsing the private key (`true`) or in encoding its public half
/// (`false`), and the crate's message.
pub uninterp spec fn key_derivation(private_key: Seq<char>) -> Result<Seq<char>, (bool, Seq<char>)>;

/// The public key derived from a private key, if any.
pub open spec fn derived_public_key(private_key: Seq<char>) -> Option<Seq<char>> {
    match key_derivation(private_key) {
        Ok(k) => Some(k),
        Err(_) => None,
    }
}

/// The message of a failed derivation from a private key.
pub open spec fn derivation_message(private_key: Seq<char>) -> Seq<char> {
    match key_derivation(private_key) {
        Ok(_) => Seq::empty(),
        Err((_, m)) => m,
    }
}

/// Why a public key could not be derived, with the library's message.
#[derive(Debug)]
pub enum KeyDerivationError {
    /// The private key did not parse.
    Parse(String),
    /// The public key could not be encoded.
    Encode(String),
}

/// Calls `ssh_key::PrivateKey::from_openssh`, then `public_key` and
/// `PublicKey::to_openssh`, each failure carried with its `Display` text.
/// The contract states that the outcome is `key_derivation` of the input.
#[verifier::external_body]
fn derive_public_key(private_key: &str) -> (r: Result<String, KeyDerivationError>)
    ensures
        key_derivation(private_key@) == match r {
            Ok(k) => Ok::<Seq<char>, (bool, Seq<char>)>(k@),
            Err(KeyDerivationError::Parse(m)) => Err((true, m@)),
            Err(KeyDerivationError::Encode(m)) => Err((false, m@)),
        },
{
    let key = ssh_key::PrivateKey::from_openssh(private_key).map_err(|e| KeyDerivationError::Parse(e.to_string()))?;
    key.public_key().to_openssh().map_err(|e| KeyDerivationError::Encode(e.to_string()))
}

/// The refusal of a PuTTY key.
pub open spec fn ppk_refusal() -> Seq<char> {
    "Putty (PPK) format is not supported. Please convert your private key to OpenSSH format (PEM) using PuTTYgen or ssh-keygen."@
}

/// The public key to log in with `key_content`: a PuTTY key is refused,
/// and a key the library cannot read is reported with its message.
pub fn public_key_for_login(key_content: &str) -> (r: Result<String, String>)
    ensures
        contains_sub(key_content@, "PuTTY-User-Key-File"@) ==> (r matches Err(m) && m@ == ppk_refusal()),
        !contains_sub(key_content@, "PuTTY-User-Key-File"@) ==> match r {
            Ok(k) => derived_public_key(key_content@) == Some(k@),
            Err(m) => derived_public_key(key_content@) is None && m@
                == "Failed to parse private key. Ensure it is in OpenSSH format. Details: "@ + derivation_message(
                key_content@,
            ),
        },
{
    let chars = chars_of(key_content);
    if str_contains(&chars, "PuTTY-User-Key-File") {
        return Err(
            String::from_str(
                "Putty (PPK) format is not supported. Please convert your private key to OpenSSH format (PEM) using PuTTYgen or ssh-keygen.",
            ),
        );
    }
    match derive_public_key(key_content) {
        Ok(k) => Ok(k),
        Err(e) => {
            let d = match e {
                KeyDerivationError::Parse(d) => d,
                KeyDerivationError::Encode(d) => d,
            };
            let m = String::from_str("Failed to parse private key. Ensure it is in OpenSSH format. Details: ").concat(d.as_str());
            Err(m)
        },
    }
}

/// The message of a failed key login, with a hint that depends on whether
/// a passphrase was given.
pub open spec fn key_auth_failure_text(error: Seq<char>, has_passphrase: bool) -> Seq<char> {
    "Key authentication failed: "@ + error + ". Hint: "@ + if has_passphrase {
        "Verify your passphrase is correct."@
    } else {
        "Ensure the public key is added to the server's ~/.ssh/authorized_keys."@
    }
}

/// The message of a failed key login.
pub fn key_auth_failure(error: &str, has_passphrase: bool) -> (r: String)
    ensures
        r@ == key_auth_failure_text(error@, has_passphrase),
{
    let hint = if has_passphrase {
        "Verify your passphrase is correct."
    } else {
        "Ensure the public key is added to the server's ~/.ssh/authorized_keys."
    };
    let r = String::from_str("Key authentication failed: ").concat(error).concat(". Hint: ").concat(hint);
    proof {
        assert(r@ =~= key_auth_failure_text(error@, has_passphrase));
    }
    r
}

/// A step of opening a connection that can fail with a message.
#[derive(Debug, Clone, Copy, PartialEq, Eq, Structural)]
pub enum ConnectStep {
    JumpConnect,
    JumpHandshake,
    JumpAuth,
    BindLocalPort,
    ListenerNonBlocking,
    LocalPort,
    CloneListener,
    Connect,
    Handshake,
    PasswordAuth,
    WriteTempKey,
    WriteTempPublicKey,
    InitKnownHosts,
    CreateSshDir,
    CreateKnownHosts,
    ReadKnownHosts,
    AddHostKey,
    WriteKnownHosts,
    CreateSocket,
}

/// The prefix of each step's message.
pub open spec fn step_prefix(step: ConnectStep) -> Seq<char> {
    match step {
        ConnectStep::JumpConnect => "Jump host connection failed: "@,
        ConnectStep::JumpHandshake => "Jump handshake failed: "@,
        ConnectStep::JumpAuth => "Jump auth failed: "@,
        ConnectStep::BindLocalPort => "Failed to bind local port: "@,
        ConnectStep::ListenerNonBlocking => "Failed to set listener non-blocking: "@,
        ConnectStep::LocalPort => "Failed to get local port: "@,
        ConnectStep::CloneListener => "Failed to clone listener: "@,
        ConnectStep::Connect => "Connection failed: "@,
        ConnectStep::Handshake => "Handshake failed: "@,
        ConnectStep::PasswordAuth => "Password authentication failed: "@,
        ConnectStep::WriteTempKey => "Failed to write temporary key file (check permissions/disk space): "@,
        ConnectStep::WriteTempPublicKey => "Failed to write temporary public key file: "@,
        ConnectStep::InitKnownHosts => "Failed to init known hosts: "@,
        ConnectStep::CreateSshDir => "Failed to create .ssh directory: "@,
        ConnectStep::CreateKnownHosts => "Failed to create known_hosts file: "@,
        ConnectStep::ReadKnownHosts => "Failed to read known_hosts file: "@,
        ConnectStep::AddHostKey => "Failed to add host key: "@,
        ConnectStep::WriteKnownHosts => "Failed to write known_hosts file: "@,
        ConnectStep::CreateSocket => "Failed to create socket: "@,
    }
}

/// The message of a failed step, with the failure's text.
pub fn connect_step_error(step: ConnectStep, detail: &str) -> (r: String)
    ensures
        r@ == step_prefix(step) + detail@,
{
    let prefix = match step {
        ConnectStep::JumpConnect => "Jump host connection failed: ",
        ConnectStep::JumpHandshake => "Jump handshake failed: ",
        ConnectStep::JumpAuth => "Jump auth failed: ",
        ConnectStep::BindLocalPort => "Failed to bind local port: ",
        ConnectStep::ListenerNonBlocking => "Failed to set listener non-blocking: ",
        ConnectStep::LocalPort => "Failed to get local port: ",
        ConnectStep::CloneListener => "Failed to clone listener: ",
        ConnectStep::Connect => "Connection failed: ",
        ConnectStep::Handshake => "Handshake failed: ",
        ConnectStep::PasswordAuth => "Password authentication failed: ",
        ConnectStep::WriteTempKey => "Failed to write temporary key file (check permissions/disk space): ",
        ConnectStep::WriteTempPublicKey => "Failed to write temporary public key file: ",
        ConnectStep::InitKnownHosts => "Failed to init known hosts: ",
        ConnectStep::CreateSshDir => "Failed to create .ssh directory: ",
        ConnectStep::CreateKnownHosts => "Failed to create known_hosts file: ",
        ConnectStep::ReadKnownHosts => "Failed to read known_hosts file: ",
        ConnectStep::AddHostKey => "Failed to add host key: ",
        ConnectStep::WriteKnownHosts => "Failed to write known_hosts file: ",
        ConnectStep::CreateSocket => "Failed to create socket: ",
    };
    String::from_str(prefix).concat(detail)
}

/// The message when the forwarded local port `port` cannot be reached.
pub fn forward_connect_error(port: u16, detail: &str) -> (r: String)
    ensures
        r@ == "Failed to connect to local forwarded port "@ + decimal(port as nat) + ": "@ + detail@,
{
    let r = with_decimal(String::from_str("Failed to connect to local forwarded port "), port as u64).concat(": ").concat(detail);
    proof {
        assert(r@ =~= "Failed to connect to local forwarded port "@ + decimal(port as nat) + ": "@ + detail@);
    }
    r
}

/// What to do after a failed connection attempt.
#[derive(Debug)]
pub enum ConnectRetry {
    /// Wait this many milliseconds, then try again.
    Wait(u64),
    /// Stop with this message.
    GiveUp(String),
}

/// The name of the reason for giving up.
pub open spec fn give_up_reason(t: SshErrorType) -> Seq<char> {
    if t == SshErrorType::Permanent {
        "Permanent error - will not retry"@
    } else {
        "Max retry attempts reached"@
    }
}

/// The decision after a connection attempt failed at `now` with `error`:
/// the attempt is recorded under the error's category; when no retry is
/// allowed the message names the reason, the error and the attempts made;
/// otherwise the reconnection delay is waited.
pub fn after_connect_failure(manager: &mut ReconnectManager, error: &str, now: u64) -> (r: ConnectRetry)
    requires
        old(manager).attempt_count < u32::MAX,
        old(manager).total_after(classify_message(error@)) <= MAX_RETRY_TIME_MS,
    ensures
        final(manager).config == old(manager).config,
        final(manager).attempt_count == old(manager).attempt_count + 1,
        final(manager).last_error_type == Some(classify_message(error@)),
        final(manager).last_attempt_time_ms == Some(now),
        final(manager).total_retry_time_ms == old(manager).total_after(classify_message(error@)),
        !final(manager).spec_should_retry() ==> (r matches ConnectRetry::GiveUp(m) && m@ == give_up_reason(
            classify_message(error@),
        ) + ": "@ + error@ + " (attempts: "@ + decimal(final(manager).attempt_count as nat) + ")"@),
        final(manager).spec_should_retry() ==> (r matches ConnectRetry::Wait(d) && final(manager).spec_delay()
            == Some(d)),
{
    let error_type = SshErrorClassifier::classify_from_string(error);
    manager.record_attempt_at(error_type, now);
    if !manager.should_retry() {
        let desc = if error_type == SshErrorType::Permanent {
            "Permanent error - will not retry"
        } else {
            "Max retry attempts reached"
        };
        let m = with_decimal(
            String::from_str(desc).concat(": ").concat(error).concat(" (attempts: "),
            manager.attempt_count() as u64,
        ).concat(")");
        proof {
            assert(m@ =~= give_up_reason(classify_message(error@)) + ": "@ + error@ + " (attempts: "@ + decimal(
                manager.attempt_count as nat,
            ) + ")"@);
        }
        return ConnectRetry::GiveUp(m);
    }
    match manager.calculate_delay() {
        Some(d) => ConnectRetry::Wait(d),
        None => {
            let m = with_decimal(String::from_str("Failed to establish connection after "), manager.attempt_count() as u64)
                .concat(" attempts: ").concat(error);
            ConnectRetry::GiveUp(m)
        },
    }
}


/// The hexadecimal digit of `n`, below sixteen, in lower case.
pub open spec fn hex_digit(n: nat) -> char {
    seq!['0', '1', '2', '3', '4', '5', '6', '7', '8', '9', 'a', 'b', 'c', 'd', 'e', 'f'][n as int]
}

/// A byte as two lower-case hexadecimal digits.
pub open spec fn byte_hex(b: u8) -> Seq<char> {
    seq![hex_digit((b / 16) as nat), hex_digit((b % 16) as nat)]
}

/// Bytes as hexadecimal pairs separated by colons.
pub open spec fn colon_hex(bytes: Seq<u8>) -> Seq<char>
    decreases bytes.len(),
{
    if bytes.len() == 0 {
        Seq::empty()
    } else if bytes.len() == 1 {
        byte_hex(bytes[0])
    } else {
        colon_hex(bytes.drop_last()) + ":"@ + byte_hex(bytes.last())
    }
}

fn hex_char(n: u8) -> (c: char)
    requires
        n < 16,
    ensures
        c == hex_digit(n as nat),
{
    match n {
        0 => '0',
        1 => '1',
        2 => '2',
        3 => '3',
        4 => '4',
        5 => '5',
        6 => '6',
        7 => '7',
        8 => '8',
        9 => '9',
        10 => 'a',
        11 => 'b',
        12 => 'c',
        13 => 'd',
        14 => 'e',
        _ => 'f',
    }
}

/// A fingerprint as shown to the user: hexadecimal pairs separated by
/// colons, or `unknown` without one.
pub fn fingerprint_text(hash: Option<&[u8]>) -> (r: String)
    ensures
        r@ == match hash {
            Some(h) => colon_hex(h@),
            None => "unknown"@,
        },
{
    let h = match hash {
        Some(h) => h,
        None => return String::from_str("unknown"),
    };
    let mut out = String::new();
    let mut i: usize = 0;
    while i < h.len()
        invariant
            i <= h@.len(),
            out@ == colon_hex(h@.take(i as int)),
        decreases h@.len() - i,
    {
        let ghost before = out@;
        if i > 0 {
            push_char(&mut out, ':');
        }
        let b = h[i];
        push_char(&mut out, hex_char(b / 16));
        push_char(&mut out, hex_char(b % 16));
        proof {
            reveal_strlit(":");
            let t = h@.take(i + 1);
            assert(t.drop_last() =~= h@.take(i as int));
            assert(t.last() == b);
            assert(t.len() == i + 1);
            if i == 0 {
                assert(out@ =~= byte_hex(b));
                assert(colon_hex(t) == byte_hex(t[0]));
            } else {
                assert(colon_hex(t) == colon_hex(t.drop_last()) + ":"@ + byte_hex(t.last()));
                assert(out@ =~= before + ":"@ + byte_hex(b));
            }
        }
        i = i + 1;
    }
    proof {
        assert(h@.take(h@.len() as int) =~= h@);
    }
    out
}

/// What the known hosts say of the server's key.
#[derive(Debug, Clone, Copy, PartialEq, Eq, Structural)]
pub enum HostKeyCheck {
    Match,
    NotFound,
    Mismatch,
    Failure,
}

/// What to do with the server's key.
#[derive(Debug)]
pub enum HostKeyDecision {
    /// The key is known: go on.
    Accept,
    /// The key is new: trust it on first use, record it and go on.
    TrustAndRecord,
    /// Stop with this message.
    Reject(String),
}

/// The warning of a changed host key.
pub open spec fn host_key_changed_text(host: Seq<char>, port: u16, fingerprint: Seq<char>) -> Seq<char> {
    "Host key verification failed! The remote host identification has changed. This could mean that someone is eavesdropping on you (Man-in-the-Middle attack), or that the host key has legitimately changed. Host: "@
        + host + ":"@ + decimal(port as nat) + " Fingerprint: "@ + fingerprint + " Please verify the host key."@
}

/// The decision on the key of `host:port` after checking the known hosts:
/// a known key is accepted, an unknown one is trusted on first use, a
/// changed one is refused with its fingerprint, and a failed check is
/// refused.
pub fn host_key_decision(check: HostKeyCheck, host: &str, port: u16, fingerprint: Option<&[u8]>) -> (r: HostKeyDecision)
    ensures
        check == HostKeyCheck::Match ==> r is Accept,
        check == HostKeyCheck::NotFound ==> r is TrustAndRecord,
        check == HostKeyCheck::Mismatch ==> (r matches HostKeyDecision::Reject(m) && m@ == host_key_changed_text(
            host@,
            port,
            match fingerprint {
                Some(h) => colon_hex(h@),
                None => "unknown"@,
            },
        )),
        check == HostKeyCheck::Failure ==> (r matches HostKeyDecision::Reject(m) && m@
            == "Host key verification failed with internal error"@),
{
    match check {
        HostKeyCheck::Match => HostKeyDecision::Accept,
        HostKeyCheck::NotFound => HostKeyDecision::TrustAndRecord,
        HostKeyCheck::Mismatch => {
            let fp = fingerprint_text(fingerprint);
            let m = with_decimal(
                String::from_str(
                    "Host key verification failed! The remote host identification has changed. This could mean that someone is eavesdropping on you (Man-in-the-Middle attack), or that the host key has legitimately changed. Host: ",
                ).concat(host).concat(":"),
                port as u64,
            ).concat(" Fingerprint: ").concat(fp.as_str()).concat(" Please verify the host key.");
            proof {
                assert(m@ =~= host_key_changed_text(
                    host@,
                    port,
                    match fingerprint {
                        Some(h) => colon_hex(h@),
                        None => "unknown"@,
                    },
                ));
            }
            HostKeyDecision::Reject(m)
        },
        HostKeyCheck::Failure => HostKeyDecision::Reject(String::from_str("Host key verification failed with internal error")),
    }
}

/// The message when the address `addr` cannot be resolved.
pub fn invalid_address_error(addr: &str, detail: &str) -> (r: String)
    ensures
        r@ == "Invalid address '"@ + addr@ + "': "@ + detail@,
{
    let r = String::from_str("Invalid address '").concat(addr).concat("': ").concat(detail);
    proof {
        assert(r@ =~= "Invalid address '"@ + addr@ + "': "@ + detail@);
    }
    r
}

/// The message when connecting to `addr` failed.
pub fn connect_to_error(addr: &str, detail: &str) -> (r: String)
    ensures
        r@ == "Failed to connect to '"@ + addr@ + "': "@ + detail@,
{
    let r = String::from_str("Failed to connect to '").concat(addr).concat("': ").concat(detail);
    proof {
        assert(r@ =~= "Failed to connect to '"@ + addr@ + "': "@ + detail@);
    }
    r
}

/// Choice of a background session.
#[derive(Debug, Clone, Copy, PartialEq, Eq, Structural)]
pub enum SessionPick {
    /// Use the free session at this position.
    Use(usize),
    /// Wait this many milliseconds (none for the first session), then open
    /// a new session; the stagger count becomes `next_count`.
    Open { stagger_ms: Option<u64>, next_count: u32 },
    /// All sessions are busy and no more may be opened: wait 50 ms and
    /// look again.
    Wait,
}

/// The message when no background session became free in time.
pub open spec fn session_timeout_text() -> Seq<char> {
    "Timeout waiting for available SFTP session. Please try again later."@
}

/// The choice of a background session after `elapsed_ms` of waiting, with
/// `busy` telling which sessions are locked: past the timeout the wait
/// fails; the first free session is used; below the maximum a new one is
/// opened, staggered after the first; otherwise the caller waits.
pub fn pick_background_session(
    elapsed_ms: u64,
    timeout_ms: u64,
    busy: &Vec<bool>,
    max_sessions: usize,
    stagger_count: u32,
) -> (r: Result<SessionPick, String>)
    ensures
        elapsed_ms > timeout_ms ==> (r matches Err(m) && m@ == session_timeout_text()),
        elapsed_ms <= timeout_ms ==> r is Ok,
        r matches Ok(SessionPick::Use(i)) ==> i < busy@.len() && !busy@[i as int] && forall|k: int|
            0 <= k < i ==> busy@[k],
        elapsed_ms <= timeout_ms && (exists|k: int| 0 <= k < busy@.len() && !busy@[k]) ==> r matches Ok(
            SessionPick::Use(_),
        ),
        elapsed_ms <= timeout_ms && (forall|k: int| 0 <= k < busy@.len() ==> busy@[k]) ==> ({
            if busy@.len() < max_sessions {
                r == Ok::<SessionPick, String>(
                    SessionPick::Open {
                        stagger_ms: if busy@.len() == 0 {
                            None
                        } else {
                            Some(stagger_delay_spec(stagger_count))
                        },
                        next_count: if busy@.len() == 0 {
                            stagger_count
                        } else if stagger_count < u32::MAX {
                            (stagger_count + 1) as u32
                        } else {
                            u32::MAX
                        },
                    },
                )
            } else {
                r == Ok::<SessionPick, String>(SessionPick::Wait)
            }
        }),
{
    if elapsed_ms > timeout_ms {
        return Err(String::from_str("Timeout waiting for available SFTP session. Please try again later."));
    }
    let mut i: usize = 0;
    while i < busy.len()
        invariant
            elapsed_ms <= timeout_ms,
            i <= busy@.len(),
            forall|k: int| 0 <= k < i ==> busy@[k],
        decreases busy@.len() - i,
    {
        if !busy[i] {
            return Ok(SessionPick::Use(i));
        }
        i = i + 1;
    }
    if busy.len() < max_sessions {
        if busy.len() == 0 {
            Ok(SessionPick::Open { stagger_ms: None, next_count: stagger_count })
        } else {
            Ok(SessionPick::Open { stagger_ms: Some(stagger_delay_ms(stagger_count)), next_count: stagger_count.saturating_add(1) })
        }
    } else {
        Ok(SessionPick::Wait)
    }
}

/// The step of warming up spare sessions: stop once the pool is full;
/// otherwise open the next one after a pause of 100 ms (none for the first).
pub fn warmup_step(index: usize, current: usize, max_sessions: usize) -> (r: Option<u64>)
    ensures
        current >= max_sessions ==> r is None,
        current < max_sessions ==> r == Some(if index == 0 { 0u64 } else { 100u64 }),
{
    if current >= max_sessions {
        None
    } else if index == 0 {
        Some(0)
    } else {
        Some(100)
    }
}

/// How many spare sessions a warm-up tries to open: those missing to reach
/// `count`.
pub fn warmup_needed(count: usize, current: usize) -> (r: usize)
    ensures
        r == (if count > current { count - current } else { 0 }),
{
    count.saturating_sub(current)
}

/// The message when background session `idx` could not be rebuilt.
pub fn rebuild_background_error(idx: usize, detail: &str) -> (r: String)
    ensures
        r@ == "Failed to rebuild background session "@ + decimal(idx as nat) + ": "@ + detail@,
{
    let r = with_decimal(String::from_str("Failed to rebuild background session "), idx as u64).concat(": ").concat(detail);
    proof {
        assert(r@ =~= "Failed to rebuild background session "@ + decimal(idx as nat) + ": "@ + detail@);
    }
    r
}

/// The line appended to `authorized_keys` for a public key: the trimmed
/// key between two line breaks.
pub fn authorized_key_line(public_key: &str) -> (r: String)
    ensures
        r@ == "\n"@ + trim_of(public_key@) + "\n"@,
{
    let r = String::from_str("\n").concat(str_trim(public_key)).concat("\n");
    proof {
        assert(r@ =~= "\n"@ + trim_of(public_key@) + "\n"@);
    }
    r
}

/// The connection to install a key through: the saved connection
/// `connection_id`, which must have a password, logged in by password.
pub fn connection_for_key_install(connections: &Vec<Connection>, connection_id: i64) -> (r: Result<Connection, String>)
    ensures
        !(exists|i: int| 0 <= i < connections@.len() && connections@[i].id == Some(connection_id)) ==> (r matches Err(
            m,
        ) && m@ == "Connection not found"@),
        r matches Ok(c) ==> exists|i: int|
            0 <= i < connections@.len() && connections@[i].id == Some(connection_id) && (forall|k: int|
                0 <= k < i ==> connections@[k].id != Some(connection_id)) && connections@[i].password is Some
                && c == (Connection { auth_type: c.auth_type, ..connections@[i] }) && (c.auth_type matches Some(
                t,
            ) && t@ == "password"@),
        (exists|i: int|
            0 <= i < connections@.len() && connections@[i].id == Some(connection_id) && (forall|k: int|
                0 <= k < i ==> connections@[k].id != Some(connection_id)) && connections@[i].password is None) ==> (
        r matches Err(m) && m@ == "Connection must have a password to install SSH key"@),
        (exists|i: int|
            0 <= i < connections@.len() && connections@[i].id == Some(connection_id) && (forall|k: int|
                0 <= k < i ==> connections@[k].id != Some(connection_id)) && connections@[i].password is Some) ==> r is Ok,
{
    let mut i: usize = 0;
    while i < connections.len()
        invariant
            i <= connections@.len(),
            forall|k: int| 0 <= k < i ==> connections@[k].id != Some(connection_id),
        decreases connections@.len() - i,
    {
        if connections[i].id == Some(connection_id) {
            proof {
                assert forall|j: int|
                    0 <= j < connections@.len() && connections@[j].id == Some(connection_id) && (forall|k: int|
                        0 <= k < j ==> connections@[k].id != Some(connection_id)) implies j == i by {
                    if j < i {
                    } else if j > i {
                        assert(connections@[i as int].id != Some(connection_id));
                    }
                }
            }
            if connections[i].password.is_none() {
                return Err(String::from_str("Connection must have a password to install SSH key"));
            }
            let mut c = connections[i].clone();
            c.auth_type = Some(String::from_str("password"));
            return Ok(c);
        }
        i = i + 1;
    }
    Err(String::from_str("Connection not found"))
}

/// The public key of a stored private key, for installing on a server.
pub fn public_key_for_install(key_content: &str) -> (r: Result<String, String>)
    ensures
        r matches Ok(k) ==> derived_public_key(key_content@) == Some(k@),
        r matches Err(m) ==> match key_derivation(key_content@) {
            Ok(_) => false,
            Err((true, d)) => m@ == "Invalid private key in DB: "@ + d,
            Err((false, d)) => m@ == "Failed to derive public key: "@ + d,
        },
{
    match derive_public_key(key_content) {
        Ok(k) => Ok(k),
        Err(KeyDerivationError::Parse(d)) => {
            let m = String::from_str("Invalid private key in DB: ").concat(d.as_str());
            Err(m)
        },
        Err(KeyDerivationError::Encode(d)) => {
            let m = String::from_str("Failed to derive public key: ").concat(d.as_str());
            Err(m)
        },
    }
}

/// The saved connection after a key was installed: it logs in with key
/// `key_id`.
pub fn connection_using_key(conn: Connection, key_id: i64) -> (r: Connection)
    ensures
        r == (Connection { auth_type: r.auth_type, ssh_key_id: Some(key_id), ..conn }),
        r.auth_type matches Some(t) && t@ == "key"@,
{
    let mut c = conn;
    c.auth_type = Some(String::from_str("key"));
    c.ssh_key_id = Some(key_id);
    c
}

} // verus!
