//! Settings: the error type of the settings use cases and the value types of
//! the settings groups that hold no floating-point field, with their defaults.

use vstd::prelude::*;

use super::ports::{store_error_text, StoreError};

verus! {

/// Error of the settings use cases.
#[derive(Debug, Clone, PartialEq, Eq)]
pub enum SettingsError {
    /// Persistence failed.
    Storage(StoreError),
    /// Content refused (unparsable or out of range).
    Invalid(String),
}

/// The display text of a settings error.
pub open spec fn settings_error_text(e: SettingsError) -> Seq<char> {
    match e {
        SettingsError::Storage(s) => store_error_text(s),
        SettingsError::Invalid(m) => m@,
    }
}

impl SettingsError {
    /// The display text.
    pub fn message(&self) -> (m: String)
        ensures
            m@ == settings_error_text(*self),
    {
        match self {
            SettingsError::Storage(e) => e.message(),
            SettingsError::Invalid(m) => m.clone(),
        }
    }
}

/// Theme.
#[derive(Debug, Clone, Copy, PartialEq, Eq, Structural)]
pub enum ThemeMode {
    /// Follow the system (default).
    System,
    /// Dark.
    Dark,
    /// Light.
    Light,
}

/// Interface language.
#[derive(Debug, Clone, Copy, PartialEq, Eq, Structural)]
pub enum Language {
    /// Simplified Chinese (default).
    Zh,
    /// English.
    En,
}

/// Cursor style.
#[derive(Debug, Clone, Copy, PartialEq, Eq, Structural)]
pub enum CursorStyle {
    /// Bar (default).
    Bar,
    /// Block.
    Block,
    /// Underline.
    Underline,
}

/// Terminal encoding ('utf-8' or 'gbk').
#[derive(Debug, Clone, Copy, PartialEq, Eq, Structural)]
pub enum TerminalEncoding {
    /// UTF-8 (default).
    Utf8,
    /// GBK.
    Gbk,
}

/// Terminal colour scheme (GitHub Light is the default).
#[derive(Debug, Clone, Copy, PartialEq, Eq, Structural)]
pub enum TerminalColorScheme {
    /// Dracula.
    Dracula,
    /// Tokyo Night.
    TokyoNight,
    /// One Dark.
    OneDark,
    /// Nord.
    Nord,
    /// Solarized Dark.
    SolarizedDark,
    /// Solarized Light.
    SolarizedLight,
    /// GitHub Light (default); the former "default" value maps here.
    GithubLight,
}

/// Default authentication method of new connections.
#[derive(Debug, Clone, Copy, PartialEq, Eq, Structural)]
pub enum DefaultAuthMethod {
    /// Password (default).
    Password,
    /// Private key.
    PrivateKey,
    /// Keyboard-interactive.
    KeyboardInteractive,
    /// No secret.
    Agent,
}

/// Default policy for transfer name conflicts.
#[derive(Debug, Clone, Copy, PartialEq, Eq, Structural)]
pub enum ConflictPolicy {
    /// Ask every time (default).
    Ask,
    /// Overwrite.
    Overwrite,
    /// Skip.
    Skip,
    /// Keep both (rename).
    Rename,
}

/// Appearance settings.
#[derive(Debug, Clone, Copy, PartialEq, Eq, Structural)]
pub struct AppearanceSettings {
    /// Theme.
    pub theme: ThemeMode,
    /// Language.
    pub language: Language,
}

impl Default for AppearanceSettings {
    fn default() -> (s: Self)
        ensures
            s == (AppearanceSettings { theme: ThemeMode::System, language: Language::Zh }),
    {
        AppearanceSettings { theme: ThemeMode::System, language: Language::Zh }
    }
}

/// Terminal settings; the line height, a float, is kept beside them by the
/// settings file's own shape.
#[derive(Debug, Clone, PartialEq, Eq)]
pub struct TerminalSettings {
    /// Font family.
    pub font_family: String,
    /// Font size in pixels.
    pub font_size: u8,
    /// Colour scheme.
    pub color_scheme: TerminalColorScheme,
    /// Cursor style.
    pub cursor_style: CursorStyle,
    /// Default encoding.
    pub encoding: TerminalEncoding,
    /// Scrollback lines.
    pub scrollback: u32,
    /// Copy on select.
    pub copy_on_select: bool,
    /// Paste on right click.
    pub right_click_paste: bool,
    /// Confirm before closing a tab.
    pub confirm_close_tab: bool,
}

impl Default for TerminalSettings {
    /// "Cascadia Mono, Consolas, monospace" at 13 px, GitHub Light, bar cursor,
    /// UTF-8, 5000 lines of scrollback, copy on select, right-click paste and
    /// a confirmation before closing a tab.
    fn default() -> (s: Self)
        ensures
            s.font_family@ == "Cascadia Mono, Consolas, monospace"@,
            s.font_size == 13,
            s.color_scheme == TerminalColorScheme::GithubLight,
            s.cursor_style == CursorStyle::Bar,
            s.encoding == TerminalEncoding::Utf8,
            s.scrollback == 5000,
            s.copy_on_select,
            s.right_click_paste,
            s.confirm_close_tab,
    {
        TerminalSettings {
            font_family: String::from_str("Cascadia Mono, Consolas, monospace"),
            font_size: 13,
            color_scheme: TerminalColorScheme::GithubLight,
            cursor_style: CursorStyle::Bar,
            encoding: TerminalEncoding::Utf8,
            scrollback: 5000,
            copy_on_select: true,
            right_click_paste: true,
            confirm_close_tab: true,
        }
    }
}

/// Connection defaults.
#[derive(Debug, Clone, Copy, PartialEq, Eq, Structural)]
pub struct ConnectionSettings {
    /// Keepalive interval in seconds; 0 turns it off.
    pub keepalive_interval_secs: u32,
    /// Default authentication method.
    pub default_auth_method: DefaultAuthMethod,
}

impl Default for ConnectionSettings {
    /// Keepalive every 30 s, password authentication.
    fn default() -> (s: Self)
        ensures
            s == (ConnectionSettings {
                keepalive_interval_secs: 30,
                default_auth_method: DefaultAuthMethod::Password,
            }),
    {
        ConnectionSettings { keepalive_interval_secs: 30, default_auth_method: DefaultAuthMethod::Password }
    }
}

/// Transfer defaults.
#[derive(Debug, Clone, Copy, PartialEq, Eq, Structural)]
pub struct TransferSettings {
    /// Most tasks running at once.
    pub max_concurrent_tasks: u8,
    /// Chunk size of one request, in KiB.
    pub chunk_size_kib: u32,
    /// Default conflict policy.
    pub default_conflict_policy: ConflictPolicy,
    /// Notify when a transfer completes.
    pub notify_on_complete: bool,
}

impl Default for TransferSettings {
    /// Two tasks at once, 32 KiB chunks, ask on conflicts, no notification.
    fn default() -> (s: Self)
        ensures
            s == (TransferSettings {
                max_concurrent_tasks: 2,
                chunk_size_kib: 32,
                default_conflict_policy: ConflictPolicy::Ask,
                notify_on_complete: false,
            }),
    {
        TransferSettings {
            max_concurrent_tasks: 2,
            chunk_size_kib: 32,
            default_conflict_policy: ConflictPolicy::Ask,
            notify_on_complete: false,
        }
    }
}

/// Monitor defaults.
#[derive(Debug, Clone, Copy, PartialEq, Eq, Structural)]
pub struct MonitorSettings {
    /// Default sampling interval in seconds.
    pub default_interval_secs: u32,
}

impl Default for MonitorSettings {
    /// Sample every 5 s.
    fn default() -> (s: Self)
        ensures
            s == (MonitorSettings { default_interval_secs: 5 }),
    {
        MonitorSettings { default_interval_secs: 5 }
    }
}

/// Largest accepted scrollback, in lines.
pub const MAX_SCROLLBACK: u32 = 100000;
/// Largest accepted layout, in bytes of its JSON text.
pub const MAX_LAYOUT_BYTES: usize = 262144;

/// The integer settings that carry a range rule.
#[derive(Debug, Clone, Copy, PartialEq, Eq, Structural)]
pub struct SettingsLimits {
    /// Terminal font size.
    pub font_size: u8,
    /// Terminal scrollback, in lines.
    pub scrollback: u32,
    /// SSH keepalive interval, in seconds.
    pub keepalive_interval_secs: u32,
    /// Concurrent transfer tasks.
    pub max_concurrent_tasks: u8,
    /// Transfer chunk size, in KiB.
    pub chunk_size_kib: u32,
    /// Default monitor sampling interval, in seconds.
    pub monitor_interval_secs: u32,
}

/// The first range rule `s` breaks, as its message; the line height (a float,
/// checked by the caller) is the second rule.
pub open spec fn settings_violation(s: SettingsLimits, line_height_in_range: bool) -> Option<Seq<char>> {
    if !(8 <= s.font_size <= 32) {
        Some("字号必须在 8–32 之间"@)
    } else if !line_height_in_range {
        Some("行距必须在 1.0–2.0 之间"@)
    } else if !(100 <= s.scrollback <= MAX_SCROLLBACK) {
        Some("回滚缓冲必须在 100–100000 行之间"@)
    } else if s.keepalive_interval_secs > 600 {
        Some("keepalive 间隔不能超过 600 秒"@)
    } else if !(1 <= s.max_concurrent_tasks <= 8) {
        Some("并发任务数必须在 1–8 之间"@)
    } else if !(4 <= s.chunk_size_kib <= 1024) {
        Some("分块大小必须在 4–1024 KiB 之间"@)
    } else if !(2 <= s.monitor_interval_secs <= 60) {
        Some("采样间隔必须在 2–60 秒之间"@)
    } else {
        None
    }
}

/// The range-checked values of the default settings (see the `Default`
/// impls of the terminal, connection, transfer and monitor settings).
pub open spec fn default_limits() -> SettingsLimits {
    SettingsLimits {
        font_size: 13,
        scrollback: 5000,
        keepalive_interval_secs: 30,
        max_concurrent_tasks: 2,
        chunk_size_kib: 32,
        monitor_interval_secs: 5,
    }
}

/// Law: the default settings pass every range rule (their line height, 1.2,
/// is in range).
pub proof fn law_defaults_are_valid()
    ensures
        settings_violation(default_limits(), true) is None,
{
}

/// Law: the settings pass exactly when every value is in its range: font size
/// 8–32, a line height in range, scrollback 100–`MAX_SCROLLBACK` lines, a
/// keepalive of at most 600 s (0 turns it off and is accepted), 1–8
/// concurrent tasks, 4–1024 KiB chunks and a 2–60 s sampling interval.
pub proof fn law_settings_pass_exactly_in_range(s: SettingsLimits, line_height_in_range: bool)
    ensures
        settings_violation(s, line_height_in_range) is None <==> {
            &&& 8 <= s.font_size <= 32
            &&& line_height_in_range
            &&& 100 <= s.scrollback <= 100000
            &&& s.keepalive_interval_secs <= 600
            &&& 1 <= s.max_concurrent_tasks <= 8
            &&& 4 <= s.chunk_size_kib <= 1024
            &&& 2 <= s.monitor_interval_secs <= 60
        },
        s.keepalive_interval_secs == 0 ==> settings_violation(s, line_height_in_range)
            == settings_violation(SettingsLimits { keepalive_interval_secs: 600, ..s }, line_height_in_range),
{
}

/// Checks the settings' ranges in order; the first broken one is an invalid
/// settings error with its message.
pub fn validate_settings(s: &SettingsLimits, line_height_in_range: bool) -> (r: Result<(), SettingsError>)
    ensures
        settings_violation(*s, line_height_in_range) is None ==> r is Ok,
        settings_violation(*s, line_height_in_range) matches Some(m) ==> (r matches Err(
            SettingsError::Invalid(x),
        ) && x@ == m),
{
    let m = if !(8 <= s.font_size && s.font_size <= 32) {
        "字号必须在 8–32 之间"
    } else if !line_height_in_range {
        "行距必须在 1.0–2.0 之间"
    } else if !(100 <= s.scrollback && s.scrollback <= MAX_SCROLLBACK) {
        "回滚缓冲必须在 100–100000 行之间"
    } else if s.keepalive_interval_secs > 600 {
        "keepalive 间隔不能超过 600 秒"
    } else if !(1 <= s.max_concurrent_tasks && s.max_concurrent_tasks <= 8) {
        "并发任务数必须在 1–8 之间"
    } else if !(4 <= s.chunk_size_kib && s.chunk_size_kib <= 1024) {
        "分块大小必须在 4–1024 KiB 之间"
    } else if !(2 <= s.monitor_interval_secs && s.monitor_interval_secs <= 60) {
        "采样间隔必须在 2–60 秒之间"
    } else {
        return Ok(());
    };
    Err(SettingsError::Invalid(String::from_str(m)))
}

/// Checks a settings patch: it must be a JSON object.
pub fn check_patch(is_object: bool) -> (r: Result<(), SettingsError>)
    ensures
        is_object ==> r is Ok,
        !is_object ==> (r matches Err(SettingsError::Invalid(x)) && x@ == "设置补丁必须是对象"@),
{
    if is_object {
        Ok(())
    } else {
        Err(SettingsError::Invalid(String::from_str("设置补丁必须是对象")))
    }
}

/// Checks a layout before it is saved: a JSON object whose text is at most
/// `MAX_LAYOUT_BYTES` long.
pub fn check_layout(is_object: bool, text_len: usize) -> (r: Result<(), SettingsError>)
    ensures
        is_object && text_len <= MAX_LAYOUT_BYTES ==> r is Ok,
        !is_object ==> (r matches Err(SettingsError::Invalid(x)) && x@ == "布局必须是对象"@),
        is_object && text_len > MAX_LAYOUT_BYTES ==> (r matches Err(SettingsError::Invalid(x))
            && x@ == "布局数据过大"@),
{
    if !is_object {
        return Err(SettingsError::Invalid(String::from_str("布局必须是对象")));
    }
    if text_len > MAX_LAYOUT_BYTES {
        return Err(SettingsError::Invalid(String::from_str("布局数据过大")));
    }
    Ok(())
}

} // verus!
