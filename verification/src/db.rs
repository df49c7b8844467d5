//! The application database: its schema with the steps that bring an
//! older database up to date, where it is stored, and how the settings row
//! is read with defaults for columns added later.  Running the statements
//! is left to the caller.
use vstd::prelude::*;

use crate::models::{
    ConnectionTimeoutSettings, HeartbeatSettings, NetworkAdaptiveSettings, PoolHealthSettings, ReconnectSettings,
};
use crate::text::{joined_path, path_join};

verus! {

/// One statement of the schema.  A required statement must succeed; the
/// others add columns that may already exist, and their failures are
/// ignored.
#[derive(Debug, Clone, Copy)]
pub struct SchemaStep {
    pub sql: &'static str,
    pub required: bool,
}

/// The statements that create or update the schema, in order, each with
/// whether it must succeed.
pub open spec fn schema_steps() -> Seq<(Seq<char>, bool)> {
    seq![
        ("CREATE TABLE IF NOT EXISTS connections (\n            id INTEGER PRIMARY KEY,\n            name TEXT NOT NULL,\n            host TEXT NOT NULL,\n            port INTEGER NOT NULL,\n            username TEXT NOT NULL,\n            password TEXT\n        )"@, true),
        ("CREATE TABLE IF NOT EXISTS settings (\n            id INTEGER PRIMARY KEY CHECK (id = 1),\n            theme TEXT NOT NULL DEFAULT 'dark',\n            language TEXT NOT NULL DEFAULT 'zh',\n            ai_api_url TEXT NOT NULL DEFAULT 'https://api.openai.com/v1',\n            ai_api_key TEXT NOT NULL DEFAULT '',\n            ai_model_name TEXT NOT NULL DEFAULT 'gpt-3.5-turbo',\n            terminal_font_size INTEGER NOT NULL DEFAULT 14,\n            terminal_font_family TEXT NOT NULL DEFAULT 'Menlo, Monaco, \"Courier New\", monospace',\n            terminal_cursor_style TEXT NOT NULL DEFAULT 'block',\n            terminal_line_height REAL NOT NULL DEFAULT 1.0\n        )"@, true),
        ("INSERT OR IGNORE INTO settings (id) VALUES (1)"@, true),
        ("ALTER TABLE connections ADD COLUMN jump_host TEXT"@, false),
        ("ALTER TABLE connections ADD COLUMN jump_port INTEGER"@, false),
        ("ALTER TABLE connections ADD COLUMN jump_username TEXT"@, false),
        ("ALTER TABLE connections ADD COLUMN jump_password TEXT"@, false),
        ("ALTER TABLE settings ADD COLUMN terminal_font_size INTEGER NOT NULL DEFAULT 14"@, false),
        ("ALTER TABLE settings ADD COLUMN terminal_font_family TEXT NOT NULL DEFAULT 'Menlo, Monaco, \"Courier New\", monospace'"@, false),
        ("ALTER TABLE settings ADD COLUMN terminal_cursor_style TEXT NOT NULL DEFAULT 'block'"@, false),
        ("ALTER TABLE settings ADD COLUMN terminal_line_height REAL NOT NULL DEFAULT 1.0"@, false),
        ("ALTER TABLE settings ADD COLUMN file_manager_view_mode TEXT NOT NULL DEFAULT 'flat'"@, false),
        ("ALTER TABLE settings ADD COLUMN ssh_max_background_sessions INTEGER NOT NULL DEFAULT 10"@, false),
        ("ALTER TABLE settings ADD COLUMN ssh_enable_auto_cleanup INTEGER NOT NULL DEFAULT 1"@, false),
        ("ALTER TABLE settings ADD COLUMN ssh_cleanup_interval_minutes INTEGER NOT NULL DEFAULT 5"@, false),
        ("ALTER TABLE settings ADD COLUMN file_manager_sftp_buffer_size INTEGER NOT NULL DEFAULT 512"@, false),
        ("ALTER TABLE settings ADD COLUMN connection_timeout_secs INTEGER NOT NULL DEFAULT 15"@, false),
        ("ALTER TABLE settings ADD COLUMN jump_host_timeout_secs INTEGER NOT NULL DEFAULT 30"@, false),
        ("ALTER TABLE settings ADD COLUMN local_forward_timeout_secs INTEGER NOT NULL DEFAULT 10"@, false),
        ("ALTER TABLE settings ADD COLUMN command_timeout_secs INTEGER NOT NULL DEFAULT 30"@, false),
        ("ALTER TABLE settings ADD COLUMN sftp_operation_timeout_secs INTEGER NOT NULL DEFAULT 60"@, false),
        ("CREATE TABLE IF NOT EXISTS connection_groups (\n            id INTEGER PRIMARY KEY,\n            name TEXT NOT NULL,\n            parent_id INTEGER,\n            FOREIGN KEY(parent_id) REFERENCES connection_groups(id) ON DELETE CASCADE\n        )"@, true),
        ("ALTER TABLE connections ADD COLUMN group_id INTEGER REFERENCES connection_groups(id) ON DELETE SET NULL"@, false),
        ("ALTER TABLE connections ADD COLUMN os_type TEXT NOT NULL DEFAULT 'Linux'"@, false),
        ("CREATE TABLE IF NOT EXISTS ssh_keys (\n            id INTEGER PRIMARY KEY,\n            name TEXT NOT NULL,\n            content TEXT NOT NULL,\n            passphrase TEXT,\n            created_at INTEGER NOT NULL\n        )"@, true),
        ("ALTER TABLE connections ADD COLUMN auth_type TEXT DEFAULT 'password'"@, false),
        ("ALTER TABLE connections ADD COLUMN ssh_key_id INTEGER REFERENCES ssh_keys(id) ON DELETE SET NULL"@, false),
        ("ALTER TABLE settings ADD COLUMN reconnect_max_attempts INTEGER NOT NULL DEFAULT 5"@, false),
        ("ALTER TABLE settings ADD COLUMN reconnect_initial_delay_ms INTEGER NOT NULL DEFAULT 1000"@, false),
        ("ALTER TABLE settings ADD COLUMN reconnect_max_delay_ms INTEGER NOT NULL DEFAULT 30000"@, false),
        ("ALTER TABLE settings ADD COLUMN reconnect_backoff_multiplier REAL NOT NULL DEFAULT 2.0"@, false),
        ("ALTER TABLE settings ADD COLUMN reconnect_enabled INTEGER NOT NULL DEFAULT 1"@, false),
        ("ALTER TABLE settings ADD COLUMN heartbeat_tcp_keepalive_interval_secs INTEGER NOT NULL DEFAULT 60"@, false),
        ("ALTER TABLE settings ADD COLUMN heartbeat_ssh_keepalive_interval_secs INTEGER NOT NULL DEFAULT 15"@, false),
        ("ALTER TABLE settings ADD COLUMN heartbeat_app_heartbeat_interval_secs INTEGER NOT NULL DEFAULT 30"@, false),
        ("ALTER TABLE settings ADD COLUMN heartbeat_timeout_secs INTEGER NOT NULL DEFAULT 5"@, false),
        ("ALTER TABLE settings ADD COLUMN heartbeat_failed_heartbeats_before_action INTEGER NOT NULL DEFAULT 3"@, false),
        ("ALTER TABLE settings ADD COLUMN pool_health_check_interval_secs INTEGER NOT NULL DEFAULT 60"@, false),
        ("ALTER TABLE settings ADD COLUMN pool_session_warmup_count INTEGER NOT NULL DEFAULT 1"@, false),
        ("ALTER TABLE settings ADD COLUMN pool_max_session_age_minutes INTEGER NOT NULL DEFAULT 60"@, false),
        ("ALTER TABLE settings ADD COLUMN pool_unhealthy_threshold INTEGER NOT NULL DEFAULT 3"@, false),
        ("ALTER TABLE settings ADD COLUMN network_adaptive_enabled INTEGER NOT NULL DEFAULT 1"@, false),
        ("ALTER TABLE settings ADD COLUMN network_latency_check_interval_secs INTEGER NOT NULL DEFAULT 30"@, false),
        ("ALTER TABLE settings ADD COLUMN network_high_latency_threshold_ms INTEGER NOT NULL DEFAULT 300"@, false),
        ("ALTER TABLE settings ADD COLUMN network_low_bandwidth_threshold_kbps INTEGER NOT NULL DEFAULT 100"@, false)
    ]
}

/// The statements that create or update the schema, in order.
pub fn init_db_steps() -> (r: Vec<SchemaStep>)
    ensures
        r@.map_values(|s: SchemaStep| (s.sql@, s.required)) == schema_steps(),
{
    let mut v: Vec<SchemaStep> = Vec::new();
    v.push(SchemaStep { sql: "CREATE TABLE IF NOT EXISTS connections (\n            id INTEGER PRIMARY KEY,\n            name TEXT NOT NULL,\n            host TEXT NOT NULL,\n            port INTEGER NOT NULL,\n            username TEXT NOT NULL,\n            password TEXT\n        )", required: true });
    v.push(SchemaStep { sql: "CREATE TABLE IF NOT EXISTS settings (\n            id INTEGER PRIMARY KEY CHECK (id = 1),\n            theme TEXT NOT NULL DEFAULT 'dark',\n            language TEXT NOT NULL DEFAULT 'zh',\n            ai_api_url TEXT NOT NULL DEFAULT 'https://api.openai.com/v1',\n            ai_api_key TEXT NOT NULL DEFAULT '',\n            ai_model_name TEXT NOT NULL DEFAULT 'gpt-3.5-turbo',\n            terminal_font_size INTEGER NOT NULL DEFAULT 14,\n            terminal_font_family TEXT NOT NULL DEFAULT 'Menlo, Monaco, \"Courier New\", monospace',\n            terminal_cursor_style TEXT NOT NULL DEFAULT 'block',\n            terminal_line_height REAL NOT NULL DEFAULT 1.0\n        )", required: true });
    v.push(SchemaStep { sql: "INSERT OR IGNORE INTO settings (id) VALUES (1)", required: true });
    v.push(SchemaStep { sql: "ALTER TABLE connections ADD COLUMN jump_host TEXT", required: false });
    v.push(SchemaStep { sql: "ALTER TABLE connections ADD COLUMN jump_port INTEGER", required: false });
    v.push(SchemaStep { sql: "ALTER TABLE connections ADD COLUMN jump_username TEXT", required: false });
    v.push(SchemaStep { sql: "ALTER TABLE connections ADD COLUMN jump_password TEXT", required: false });
    v.push(SchemaStep { sql: "ALTER TABLE settings ADD COLUMN terminal_font_size INTEGER NOT NULL DEFAULT 14", required: false });
    v.push(SchemaStep { sql: "ALTER TABLE settings ADD COLUMN terminal_font_family TEXT NOT NULL DEFAULT 'Menlo, Monaco, \"Courier New\", monospace'", required: false });
    v.push(SchemaStep { sql: "ALTER TABLE settings ADD COLUMN terminal_cursor_style TEXT NOT NULL DEFAULT 'block'", required: false });
    v.push(SchemaStep { sql: "ALTER TABLE settings ADD COLUMN terminal_line_height REAL NOT NULL DEFAULT 1.0", required: false });
    v.push(SchemaStep { sql: "ALTER TABLE settings ADD COLUMN file_manager_view_mode TEXT NOT NULL DEFAULT 'flat'", required: false });
    v.push(SchemaStep { sql: "ALTER TABLE settings ADD COLUMN ssh_max_background_sessions INTEGER NOT NULL DEFAULT 10", required: false });
    v.push(SchemaStep { sql: "ALTER TABLE settings ADD COLUMN ssh_enable_auto_cleanup INTEGER NOT NULL DEFAULT 1", required: false });
    v.push(SchemaStep { sql: "ALTER TABLE settings ADD COLUMN ssh_cleanup_interval_minutes INTEGER NOT NULL DEFAULT 5", required: false });
    v.push(SchemaStep { sql: "ALTER TABLE settings ADD COLUMN file_manager_sftp_buffer_size INTEGER NOT NULL DEFAULT 512", required: false });
    v.push(SchemaStep { sql: "ALTER TABLE settings ADD COLUMN connection_timeout_secs INTEGER NOT NULL DEFAULT 15", required: false });
    v.push(SchemaStep { sql: "ALTER TABLE settings ADD COLUMN jump_host_timeout_secs INTEGER NOT NULL DEFAULT 30", required: false });
    v.push(SchemaStep { sql: "ALTER TABLE settings ADD COLUMN local_forward_timeout_secs INTEGER NOT NULL DEFAULT 10", required: false });
    v.push(SchemaStep { sql: "ALTER TABLE settings ADD COLUMN command_timeout_secs INTEGER NOT NULL DEFAULT 30", required: false });
    v.push(SchemaStep { sql: "ALTER TABLE settings ADD COLUMN sftp_operation_timeout_secs INTEGER NOT NULL DEFAULT 60", required: false });
    v.push(SchemaStep { sql: "CREATE TABLE IF NOT EXISTS connection_groups (\n            id INTEGER PRIMARY KEY,\n            name TEXT NOT NULL,\n            parent_id INTEGER,\n            FOREIGN KEY(parent_id) REFERENCES connection_groups(id) ON DELETE CASCADE\n        )", required: true });
    v.push(SchemaStep { sql: "ALTER TABLE connections ADD COLUMN group_id INTEGER REFERENCES connection_groups(id) ON DELETE SET NULL", required: false });
    v.push(SchemaStep { sql: "ALTER TABLE connections ADD COLUMN os_type TEXT NOT NULL DEFAULT 'Linux'", required: false });
    v.push(SchemaStep { sql: "CREATE TABLE IF NOT EXISTS ssh_keys (\n            id INTEGER PRIMARY KEY,\n            name TEXT NOT NULL,\n            content TEXT NOT NULL,\n            passphrase TEXT,\n            created_at INTEGER NOT NULL\n        )", required: true });
    v.push(SchemaStep { sql: "ALTER TABLE connections ADD COLUMN auth_type TEXT DEFAULT 'password'", required: false });
    v.push(SchemaStep { sql: "ALTER TABLE connections ADD COLUMN ssh_key_id INTEGER REFERENCES ssh_keys(id) ON DELETE SET NULL", required: false });
    v.push(SchemaStep { sql: "ALTER TABLE settings ADD COLUMN reconnect_max_attempts INTEGER NOT NULL DEFAULT 5", required: false });
    v.push(SchemaStep { sql: "ALTER TABLE settings ADD COLUMN reconnect_initial_delay_ms INTEGER NOT NULL DEFAULT 1000", required: false });
    v.push(SchemaStep { sql: "ALTER TABLE settings ADD COLUMN reconnect_max_delay_ms INTEGER NOT NULL DEFAULT 30000", required: false });
    v.push(SchemaStep { sql: "ALTER TABLE settings ADD COLUMN reconnect_backoff_multiplier REAL NOT NULL DEFAULT 2.0", required: false });
    v.push(SchemaStep { sql: "ALTER TABLE settings ADD COLUMN reconnect_enabled INTEGER NOT NULL DEFAULT 1", required: false });
    v.push(SchemaStep { sql: "ALTER TABLE settings ADD COLUMN heartbeat_tcp_keepalive_interval_secs INTEGER NOT NULL DEFAULT 60", required: false });
    v.push(SchemaStep { sql: "ALTER TABLE settings ADD COLUMN heartbeat_ssh_keepalive_interval_secs INTEGER NOT NULL DEFAULT 15", required: false });
    v.push(SchemaStep { sql: "ALTER TABLE settings ADD COLUMN heartbeat_app_heartbeat_interval_secs INTEGER NOT NULL DEFAULT 30", required: false });
    v.push(SchemaStep { sql: "ALTER TABLE settings ADD COLUMN heartbeat_timeout_secs INTEGER NOT NULL DEFAULT 5", required: false });
    v.push(SchemaStep { sql: "ALTER TABLE settings ADD COLUMN heartbeat_failed_heartbeats_before_action INTEGER NOT NULL DEFAULT 3", required: false });
    v.push(SchemaStep { sql: "ALTER TABLE settings ADD COLUMN pool_health_check_interval_secs INTEGER NOT NULL DEFAULT 60", required: false });
    v.push(SchemaStep { sql: "ALTER TABLE settings ADD COLUMN pool_session_warmup_count INTEGER NOT NULL DEFAULT 1", required: false });
    v.push(SchemaStep { sql: "ALTER TABLE settings ADD COLUMN pool_max_session_age_minutes INTEGER NOT NULL DEFAULT 60", required: false });
    v.push(SchemaStep { sql: "ALTER TABLE settings ADD COLUMN pool_unhealthy_threshold INTEGER NOT NULL DEFAULT 3", required: false });
    v.push(SchemaStep { sql: "ALTER TABLE settings ADD COLUMN network_adaptive_enabled INTEGER NOT NULL DEFAULT 1", required: false });
    v.push(SchemaStep { sql: "ALTER TABLE settings ADD COLUMN network_latency_check_interval_secs INTEGER NOT NULL DEFAULT 30", required: false });
    v.push(SchemaStep { sql: "ALTER TABLE settings ADD COLUMN network_high_latency_threshold_ms INTEGER NOT NULL DEFAULT 300", required: false });
    v.push(SchemaStep { sql: "ALTER TABLE settings ADD COLUMN network_low_bandwidth_threshold_kbps INTEGER NOT NULL DEFAULT 100", required: false });
    proof {
        assert(v@.map_values(|s: SchemaStep| (s.sql@, s.required)) =~= schema_steps());
    }
    v
}

/// File name of the database in the application data directory.
pub open spec fn db_file_name() -> Seq<char> {
    "ssh_assistant.db"@
}

/// The database file in the application data directory `app_dir`.
pub fn db_path_in(app_dir: &str) -> (r: String)
    ensures
        r@ == joined_path(app_dir@, db_file_name()),
{
    path_join(app_dir, "ssh_assistant.db")
}

/// The authentication type stored for a connection: `password` when none
/// is given.
pub fn stored_auth_type(auth_type: Option<String>) -> (r: String)
    ensures
        r@ == match auth_type {
            Some(a) => a@,
            None => "password"@,
        },
{
    match auth_type {
        Some(a) => a,
        None => String::from_str("password"),
    }
}

/// Where the AI assistant is reached.
#[derive(Debug)]
pub struct AiConfig {
    pub api_url: String,
    pub api_key: String,
    pub model_name: String,
}

/// How the terminal looks.  The line height is in thousandths of the font
/// size.
#[derive(Debug)]
pub struct TerminalAppearanceSettings {
    pub font_size: i32,
    pub font_family: String,
    pub cursor_style: String,
    pub line_height_milli: u32,
}

/// How the file manager shows and moves files.  The buffer size is in
/// kilobytes.
#[derive(Debug)]
pub struct FileManagerSettings {
    pub view_mode: String,
    pub sftp_buffer_size: i32,
}

/// Limits of the pool of background sessions.
#[derive(Debug, Clone, Copy, PartialEq, Eq, Structural)]
pub struct SshPoolSettings {
    pub max_background_sessions: i32,
    pub enable_auto_cleanup: bool,
    pub cleanup_interval_minutes: i32,
}

/// All settings of the application.
#[derive(Debug)]
pub struct AppSettings {
    pub theme: String,
    pub language: String,
    pub ai: AiConfig,
    pub terminal_appearance: TerminalAppearanceSettings,
    pub file_manager: FileManagerSettings,
    pub ssh_pool: SshPoolSettings,
    pub connection_timeout: ConnectionTimeoutSettings,
    pub reconnect: ReconnectSettings,
    pub heartbeat: HeartbeatSettings,
    pub pool_health: PoolHealthSettings,
    pub network_adaptive: NetworkAdaptiveSettings,
}

/// The settings row as read, with the columns that may be empty.
#[derive(Debug)]
pub struct SettingsRow {
    pub theme: String,
    pub language: String,
    pub ai_api_url: String,
    pub ai_api_key: String,
    pub ai_model_name: String,
    pub terminal_font_size: Option<i32>,
    pub terminal_font_family: Option<String>,
    pub terminal_cursor_style: Option<String>,
    pub terminal_line_height_milli: Option<u32>,
    pub file_manager_view_mode: Option<String>,
    pub ssh_max_background_sessions: Option<i32>,
    pub ssh_enable_auto_cleanup: Option<bool>,
    pub ssh_cleanup_interval_minutes: Option<i32>,
    pub file_manager_sftp_buffer_size: Option<i32>,
    pub connection_timeout_secs: Option<u32>,
    pub jump_host_timeout_secs: Option<u32>,
    pub local_forward_timeout_secs: Option<u32>,
    pub command_timeout_secs: Option<u32>,
    pub sftp_operation_timeout_secs: Option<u32>,
    pub reconnect_max_attempts: Option<u32>,
    pub reconnect_initial_delay_ms: Option<u32>,
    pub reconnect_max_delay_ms: Option<u32>,
    pub reconnect_backoff_multiplier_milli: Option<u32>,
    pub reconnect_enabled: Option<bool>,
    pub heartbeat_tcp_keepalive_interval_secs: Option<u32>,
    pub heartbeat_ssh_keepalive_interval_secs: Option<u32>,
    pub heartbeat_app_heartbeat_interval_secs: Option<u32>,
    pub heartbeat_timeout_secs: Option<u32>,
    pub heartbeat_failed_heartbeats_before_action: Option<u32>,
    pub pool_health_check_interval_secs: Option<u32>,
    pub pool_session_warmup_count: Option<u32>,
    pub pool_max_session_age_minutes: Option<u32>,
    pub pool_unhealthy_threshold: Option<u32>,
    pub network_adaptive_enabled: Option<bool>,
    pub network_latency_check_interval_secs: Option<u32>,
    pub network_high_latency_threshold_ms: Option<u32>,
    pub network_low_bandwidth_threshold_kbps: Option<u32>,
}

/// A value, or its default when the column is empty.
pub open spec fn or_default<T>(v: Option<T>, d: T) -> T {
    match v {
        Some(x) => x,
        None => d,
    }
}

/// A text, or its default when the column is empty.
pub open spec fn text_or(v: Option<String>, d: Seq<char>) -> Seq<char> {
    match v {
        Some(x) => x@,
        None => d,
    }
}

fn string_or(v: Option<String>, d: &str) -> (r: String)
    ensures
        r@ == text_or(v, d@),
{
    match v {
        Some(x) => x,
        None => String::from_str(d),
    }
}

/// The default font family of the terminal.
pub open spec fn default_font_family() -> Seq<char> {
    "Menlo, Monaco, \"Courier New\", monospace"@
}

/// `r` holds the settings of `row`, each empty column taking its default.
pub open spec fn settings_of_row(row: SettingsRow, r: AppSettings) -> bool {
    &&& r.theme == row.theme
    &&& r.language == row.language
    &&& r.ai.api_url == row.ai_api_url
    &&& r.ai.api_key == row.ai_api_key
    &&& r.ai.model_name == row.ai_model_name
    &&& r.terminal_appearance.font_size == or_default(row.terminal_font_size, 14)
    &&& r.terminal_appearance.font_family@ == text_or(row.terminal_font_family, default_font_family())
    &&& r.terminal_appearance.cursor_style@ == text_or(row.terminal_cursor_style, "block"@)
    &&& r.terminal_appearance.line_height_milli == or_default(row.terminal_line_height_milli, 1000)
    &&& r.file_manager.view_mode@ == text_or(row.file_manager_view_mode, "flat"@)
    &&& r.file_manager.sftp_buffer_size == or_default(row.file_manager_sftp_buffer_size, 512)
    &&& r.ssh_pool == (SshPoolSettings {
        max_background_sessions: or_default(row.ssh_max_background_sessions, 10),
        enable_auto_cleanup: or_default(row.ssh_enable_auto_cleanup, true),
        cleanup_interval_minutes: or_default(row.ssh_cleanup_interval_minutes, 5),
    })
    &&& r.connection_timeout == (ConnectionTimeoutSettings {
        connection_timeout_secs: or_default(row.connection_timeout_secs, 15),
        jump_host_timeout_secs: or_default(row.jump_host_timeout_secs, 30),
        local_forward_timeout_secs: or_default(row.local_forward_timeout_secs, 10),
        command_timeout_secs: or_default(row.command_timeout_secs, 30),
        sftp_operation_timeout_secs: or_default(row.sftp_operation_timeout_secs, 60),
    })
    &&& r.reconnect == (ReconnectSettings {
        max_reconnect_attempts: or_default(row.reconnect_max_attempts, 5),
        initial_delay_ms: or_default(row.reconnect_initial_delay_ms, 1000),
        max_delay_ms: or_default(row.reconnect_max_delay_ms, 30000),
        backoff_multiplier_milli: or_default(row.reconnect_backoff_multiplier_milli, 2000),
        enable_auto_reconnect: or_default(row.reconnect_enabled, true),
    })
    &&& r.heartbeat == (HeartbeatSettings {
        tcp_keepalive_interval_secs: or_default(row.heartbeat_tcp_keepalive_interval_secs, 60),
        ssh_keepalive_interval_secs: or_default(row.heartbeat_ssh_keepalive_interval_secs, 15),
        app_heartbeat_interval_secs: or_default(row.heartbeat_app_heartbeat_interval_secs, 30),
        heartbeat_timeout_secs: or_default(row.heartbeat_timeout_secs, 5),
        failed_heartbeats_before_action: or_default(row.heartbeat_failed_heartbeats_before_action, 3),
    })
    &&& r.pool_health == (PoolHealthSettings {
        health_check_interval_secs: or_default(row.pool_health_check_interval_secs, 60),
        session_warmup_count: or_default(row.pool_session_warmup_count, 1),
        max_session_age_minutes: or_default(row.pool_max_session_age_minutes, 60),
        unhealthy_threshold: or_default(row.pool_unhealthy_threshold, 3),
    })
    &&& r.network_adaptive == (NetworkAdaptiveSettings {
        enable_adaptive: or_default(row.network_adaptive_enabled, true),
        latency_check_interval_secs: or_default(row.network_latency_check_interval_secs, 30),
        high_latency_threshold_ms: or_default(row.network_high_latency_threshold_ms, 300),
        low_bandwidth_threshold_kbps: or_default(row.network_low_bandwidth_threshold_kbps, 100),
    })
}

impl AppSettings {
    /// The settings of a row, each empty column taking its default.
    pub fn from_row(row: SettingsRow) -> (r: AppSettings)
        ensures
            settings_of_row(row, r),
    {
        AppSettings {
            theme: row.theme,
            language: row.language,
            ai: AiConfig { api_url: row.ai_api_url, api_key: row.ai_api_key, model_name: row.ai_model_name },
            terminal_appearance: TerminalAppearanceSettings {
                font_size: match row.terminal_font_size {
                    Some(v) => v,
                    None => 14,
                },
                font_family: string_or(row.terminal_font_family, "Menlo, Monaco, \"Courier New\", monospace"),
                cursor_style: string_or(row.terminal_cursor_style, "block"),
                line_height_milli: match row.terminal_line_height_milli {
                    Some(v) => v,
                    None => 1000,
                },
            },
            file_manager: FileManagerSettings {
                view_mode: string_or(row.file_manager_view_mode, "flat"),
                sftp_buffer_size: match row.file_manager_sftp_buffer_size {
                    Some(v) => v,
                    None => 512,
                },
            },
            ssh_pool: SshPoolSettings {
                max_background_sessions: match row.ssh_max_background_sessions {
                    Some(v) => v,
                    None => 10,
                },
                enable_auto_cleanup: match row.ssh_enable_auto_cleanup {
                    Some(v) => v,
                    None => true,
                },
                cleanup_interval_minutes: match row.ssh_cleanup_interval_minutes {
                    Some(v) => v,
                    None => 5,
                },
            },
            connection_timeout: ConnectionTimeoutSettings {
                connection_timeout_secs: match row.connection_timeout_secs {
                    Some(v) => v,
                    None => 15,
                },
                jump_host_timeout_secs: match row.jump_host_timeout_secs {
                    Some(v) => v,
                    None => 30,
                },
                local_forward_timeout_secs: match row.local_forward_timeout_secs {
                    Some(v) => v,
                    None => 10,
                },
                command_timeout_secs: match row.command_timeout_secs {
                    Some(v) => v,
                    None => 30,
                },
                sftp_operation_timeout_secs: match row.sftp_operation_timeout_secs {
                    Some(v) => v,
                    None => 60,
                },
            },
            reconnect: ReconnectSettings {
                max_reconnect_attempts: match row.reconnect_max_attempts {
                    Some(v) => v,
                    None => 5,
                },
                initial_delay_ms: match row.reconnect_initial_delay_ms {
                    Some(v) => v,
                    None => 1000,
                },
                max_delay_ms: match row.reconnect_max_delay_ms {
                    Some(v) => v,
                    None => 30000,
                },
                backoff_multiplier_milli: match row.reconnect_backoff_multiplier_milli {
                    Some(v) => v,
                    None => 2000,
                },
                enable_auto_reconnect: match row.reconnect_enabled {
                    Some(v) => v,
                    None => true,
                },
            },
            heartbeat: HeartbeatSettings {
                tcp_keepalive_interval_secs: match row.heartbeat_tcp_keepalive_interval_secs {
                    Some(v) => v,
                    None => 60,
                },
                ssh_keepalive_interval_secs: match row.heartbeat_ssh_keepalive_interval_secs {
                    Some(v) => v,
                    None => 15,
                },
                app_heartbeat_interval_secs: match row.heartbeat_app_heartbeat_interval_secs {
                    Some(v) => v,
                    None => 30,
                },
                heartbeat_timeout_secs: match row.heartbeat_timeout_secs {
                    Some(v) => v,
                    None => 5,
                },
                failed_heartbeats_before_action: match row.heartbeat_failed_heartbeats_before_action {
                    Some(v) => v,
                    None => 3,
                },
            },
            pool_health: PoolHealthSettings {
                health_check_interval_secs: match row.pool_health_check_interval_secs {
                    Some(v) => v,
                    None => 60,
                },
                session_warmup_count: match row.pool_session_warmup_count {
                    Some(v) => v,
                    None => 1,
                },
                max_session_age_minutes: match row.pool_max_session_age_minutes {
                    Some(v) => v,
                    None => 60,
                },
                unhealthy_threshold: match row.pool_unhealthy_threshold {
                    Some(v) => v,
                    None => 3,
                },
            },
            network_adaptive: NetworkAdaptiveSettings {
                enable_adaptive: match row.network_adaptive_enabled {
                    Some(v) => v,
                    None => true,
                },
                latency_check_interval_secs: match row.network_latency_check_interval_secs {
                    Some(v) => v,
                    None => 30,
                },
                high_latency_threshold_ms: match row.network_high_latency_threshold_ms {
                    Some(v) => v,
                    None => 300,
                },
                low_bandwidth_threshold_kbps: match row.network_low_bandwidth_threshold_kbps {
                    Some(v) => v,
                    None => 100,
                },
            },
        }
    }
}

/// The settings, from the settings row when there is one.
pub fn get_settings(row: Option<SettingsRow>) -> (r: Result<AppSettings, String>)
    ensures
        row is None ==> (r matches Err(m) && m@ == "Settings not found"@),
        row matches Some(w) ==> (r matches Ok(v) && settings_of_row(w, v)),
{
    match row {
        Some(row) => Ok(AppSettings::from_row(row)),
        None => Err(String::from_str("Settings not found")),
    }
}

} // verus!
