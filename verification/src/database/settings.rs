//! The flat table of preferences: each preference is one row of key and
//! value, both texts.
//!
//! Reading starts from the defaults and applies the rows in order. A row
//! with an unknown key is passed over. A row whose value cannot be read
//! gives its preference the default value. The volume is stored as a
//! fraction and is read and written by the caller.
use vstd::prelude::*;
use crate::models::settings::{default_settings, Setting, Settings, SettingsView};
use crate::text::{
    bool_str, lemma_signed_decimal_is_read_back, parse_bool, parse_i32, parsed_bool, parsed_i32,
    push_signed_decimal, signed_decimal, str_eq,
};

verus! {

/// The number that a value spells, or `default` where it spells none.
pub open spec fn number_or(value: Seq<char>, default: i32) -> i32 {
    match parsed_i32(value) {
        Some(n) => n,
        None => default,
    }
}

/// The truth value that a value spells, or `default` where it spells none.
pub open spec fn flag_or(value: Seq<char>, default: bool) -> bool {
    match parsed_bool(value) {
        Some(b) => b,
        None => default,
    }
}

/// The preferences after one row.
pub open spec fn with_row(settings: SettingsView, key: Seq<char>, value: Seq<char>) -> SettingsView {
    if key == "sound"@ {
        SettingsView { sound: value, ..settings }
    } else if key == "video_alert_offset"@ {
        SettingsView { video_alert_offset: number_or(value, 3), ..settings }
    } else if key == "regular_alert_offset"@ {
        SettingsView { regular_alert_offset: number_or(value, 1), ..settings }
    } else if key == "snooze_interval"@ {
        SettingsView { snooze_interval: number_or(value, 2), ..settings }
    } else if key == "max_snoozes"@ {
        SettingsView { max_snoozes: number_or(value, 3), ..settings }
    } else if key == "sync_interval"@ {
        SettingsView { sync_interval: number_or(value, 300), ..settings }
    } else if key == "auto_join_enabled"@ {
        SettingsView { auto_join_enabled: flag_or(value, false), ..settings }
    } else if key == "theme"@ {
        SettingsView { theme: value, ..settings }
    } else if key == "alert_30m"@ {
        SettingsView { alert_30m: flag_or(value, false), ..settings }
    } else if key == "alert_10m"@ {
        SettingsView { alert_10m: flag_or(value, false), ..settings }
    } else if key == "alert_5m"@ {
        SettingsView { alert_5m: flag_or(value, true), ..settings }
    } else if key == "alert_1m"@ {
        SettingsView { alert_1m: flag_or(value, true), ..settings }
    } else if key == "alert_default"@ {
        SettingsView { alert_default: flag_or(value, true), ..settings }
    } else {
        settings
    }
}

/// A row as a plain value: its key and its value.
pub open spec fn row_view(row: Setting) -> (Seq<char>, Seq<char>) {
    (row.key@, row.value@)
}

/// The views of a list of rows.
pub open spec fn row_views(rows: Seq<Setting>) -> Seq<(Seq<char>, Seq<char>)> {
    rows.map_values(|row: Setting| row_view(row))
}

/// The preferences after the first `n` rows, applied in order to `start`.
pub open spec fn with_rows(start: SettingsView, rows: Seq<(Seq<char>, Seq<char>)>, n: int) -> SettingsView
    decreases n,
{
    if n <= 0 || n > rows.len() {
        start
    } else {
        with_row(with_rows(start, rows, n - 1), rows[n - 1].0, rows[n - 1].1)
    }
}

/// The preferences that a table holds.
pub open spec fn settings_of(rows: Seq<(Seq<char>, Seq<char>)>) -> SettingsView {
    with_rows(default_settings(), rows, rows.len() as int)
}

/// The number that a value spells, or `default`.
fn read_number(value: &str, default: i32) -> (n: i32)
    ensures
        n == number_or(value@, default),
{
    match parse_i32(value) {
        Some(n) => n,
        None => default,
    }
}

/// The truth value that a value spells, or `default`.
fn read_flag(value: &str, default: bool) -> (b: bool)
    ensures
        b == flag_or(value@, default),
{
    match parse_bool(value) {
        Some(b) => b,
        None => default,
    }
}

/// Applies one row to the preferences.
pub fn apply_setting(settings: &mut Settings, key: &str, value: &str)
    ensures
        final(settings)@ == with_row(old(settings)@, key@, value@),
{
    if str_eq(key, "sound") {
        settings.sound = String::from_str(value);
    } else if str_eq(key, "video_alert_offset") {
        settings.video_alert_offset = read_number(value, 3);
    } else if str_eq(key, "regular_alert_offset") {
        settings.regular_alert_offset = read_number(value, 1);
    } else if str_eq(key, "snooze_interval") {
        settings.snooze_interval = read_number(value, 2);
    } else if str_eq(key, "max_snoozes") {
        settings.max_snoozes = read_number(value, 3);
    } else if str_eq(key, "sync_interval") {
        settings.sync_interval = read_number(value, 300);
    } else if str_eq(key, "auto_join_enabled") {
        settings.auto_join_enabled = read_flag(value, false);
    } else if str_eq(key, "theme") {
        settings.theme = String::from_str(value);
    } else if str_eq(key, "alert_30m") {
        settings.alert_30m = read_flag(value, false);
    } else if str_eq(key, "alert_10m") {
        settings.alert_10m = read_flag(value, false);
    } else if str_eq(key, "alert_5m") {
        settings.alert_5m = read_flag(value, true);
    } else if str_eq(key, "alert_1m") {
        settings.alert_1m = read_flag(value, true);
    } else if str_eq(key, "alert_default") {
        settings.alert_default = read_flag(value, true);
    }
}

/// Reads the preferences from the rows of the table.
pub fn get(rows: &Vec<Setting>) -> (settings: Settings)
    ensures
        settings@ == settings_of(row_views(rows@)),
{
    let mut settings = Settings::default();
    let mut i: usize = 0;
    while i < rows.len()
        invariant
            i <= rows.len(),
            settings@ == with_rows(default_settings(), row_views(rows@), i as int),
        decreases rows.len() - i,
    {
        assert(row_views(rows@)[i as int] == row_view(rows@[i as int]));
        apply_setting(&mut settings, rows[i].key.as_str(), rows[i].value.as_str());
        i += 1;
    }
    settings
}

/// The rows that hold the preferences, in the order in which they are
/// written.
pub open spec fn rows_of(settings: SettingsView) -> Seq<(Seq<char>, Seq<char>)> {
    seq![
        ("sound"@, settings.sound),
        ("video_alert_offset"@, signed_decimal(settings.video_alert_offset as int)),
        ("regular_alert_offset"@, signed_decimal(settings.regular_alert_offset as int)),
        ("snooze_interval"@, signed_decimal(settings.snooze_interval as int)),
        ("max_snoozes"@, signed_decimal(settings.max_snoozes as int)),
        ("sync_interval"@, signed_decimal(settings.sync_interval as int)),
        ("auto_join_enabled"@, flag_text(settings.auto_join_enabled)),
        ("theme"@, settings.theme),
        ("alert_30m"@, flag_text(settings.alert_30m)),
        ("alert_10m"@, flag_text(settings.alert_10m)),
        ("alert_5m"@, flag_text(settings.alert_5m)),
        ("alert_1m"@, flag_text(settings.alert_1m)),
        ("alert_default"@, flag_text(settings.alert_default)),
    ]
}

/// The spelling of a truth value.
pub open spec fn flag_text(value: bool) -> Seq<char> {
    if value {
        "true"@
    } else {
        "false"@
    }
}

/// A row with a number as its value.
fn number_row(key: &str, value: i32) -> (row: Setting)
    ensures
        row_view(row) == (key@, signed_decimal(value as int)),
{
    let mut text = String::new();
    push_signed_decimal(&mut text, value as i64);
    assert(text@ =~= signed_decimal(value as int));
    Setting { key: String::from_str(key), value: text }
}

/// A row with a truth value as its value.
fn flag_row(key: &str, value: bool) -> (row: Setting)
    ensures
        row_view(row) == (key@, flag_text(value)),
{
    Setting { key: String::from_str(key), value: String::from_str(bool_str(value)) }
}

/// Writes the preferences as rows of the table.
pub fn update(settings: &Settings) -> (rows: Vec<Setting>)
    ensures
        row_views(rows@) == rows_of(settings@),
{
    let mut rows: Vec<Setting> = Vec::new();
    rows.push(Setting { key: String::from_str("sound"), value: settings.sound.clone() });
    rows.push(number_row("video_alert_offset", settings.video_alert_offset));
    rows.push(number_row("regular_alert_offset", settings.regular_alert_offset));
    rows.push(number_row("snooze_interval", settings.snooze_interval));
    rows.push(number_row("max_snoozes", settings.max_snoozes));
    rows.push(number_row("sync_interval", settings.sync_interval));
    rows.push(flag_row("auto_join_enabled", settings.auto_join_enabled));
    rows.push(Setting { key: String::from_str("theme"), value: settings.theme.clone() });
    rows.push(flag_row("alert_30m", settings.alert_30m));
    rows.push(flag_row("alert_10m", settings.alert_10m));
    rows.push(flag_row("alert_5m", settings.alert_5m));
    rows.push(flag_row("alert_1m", settings.alert_1m));
    rows.push(flag_row("alert_default", settings.alert_default));
    assert(row_views(rows@) =~= rows_of(settings@));
    rows
}

/// The keys of the table differ from one another.
proof fn lemma_keys_differ()
    ensures
        "sound"@.len() == 5,
        "video_alert_offset"@.len() == 18,
        "regular_alert_offset"@.len() == 20,
        "snooze_interval"@.len() == 15,
        "max_snoozes"@.len() == 11,
        "sync_interval"@.len() == 13,
        "auto_join_enabled"@.len() == 17,
        "theme"@.len() == 5,
        "alert_30m"@.len() == 9,
        "alert_10m"@.len() == 9,
        "alert_5m"@.len() == 8,
        "alert_1m"@.len() == 8,
        "alert_default"@.len() == 13,
        "sound"@[0] == 's',
        "theme"@[0] == 't',
        "alert_30m"@[6] == '3',
        "alert_10m"@[6] == '1',
        "alert_5m"@[6] == '5',
        "alert_1m"@[6] == '1',
        "sync_interval"@[0] == 's',
        "alert_default"@[0] == 'a',
{
    reveal_strlit("sound");
    reveal_strlit("video_alert_offset");
    reveal_strlit("regular_alert_offset");
    reveal_strlit("snooze_interval");
    reveal_strlit("max_snoozes");
    reveal_strlit("sync_interval");
    reveal_strlit("auto_join_enabled");
    reveal_strlit("theme");
    reveal_strlit("alert_30m");
    reveal_strlit("alert_10m");
    reveal_strlit("alert_5m");
    reveal_strlit("alert_1m");
    reveal_strlit("alert_default");
}

/// The spelling of a truth value is read back.
proof fn lemma_flag_is_read_back(value: bool, default: bool)
    ensures
        flag_or(flag_text(value), default) == value,
{
    reveal_strlit("true");
    reveal_strlit("false");
    assert("true"@.len() == 4 && "false"@.len() == 5);
}

/// What is written is read back: the rows that hold some preferences give
/// those preferences when they are read. The volume is not among the rows,
/// so it reads as the default.
pub proof fn lemma_written_settings_are_read_back(settings: SettingsView)
    ensures
        settings_of(rows_of(settings)) == (SettingsView { volume_percent: 70, ..settings }),
{
    lemma_keys_differ();
    lemma_signed_decimal_is_read_back(settings.video_alert_offset);
    lemma_signed_decimal_is_read_back(settings.regular_alert_offset);
    lemma_signed_decimal_is_read_back(settings.snooze_interval);
    lemma_signed_decimal_is_read_back(settings.max_snoozes);
    lemma_signed_decimal_is_read_back(settings.sync_interval);
    lemma_flag_is_read_back(settings.auto_join_enabled, false);
    lemma_flag_is_read_back(settings.alert_30m, false);
    lemma_flag_is_read_back(settings.alert_10m, false);
    lemma_flag_is_read_back(settings.alert_5m, true);
    lemma_flag_is_read_back(settings.alert_1m, true);
    lemma_flag_is_read_back(settings.alert_default, true);
    let rows = rows_of(settings);
    let start = default_settings();
    assert(rows.len() == 13);
    let s1 = with_rows(start, rows, 1);
    assert(with_rows(start, rows, 0) == start);
    assert(s1 == with_row(start, rows[0].0, rows[0].1));
    let s2 = with_rows(start, rows, 2);
    assert(s2 == with_row(s1, rows[1].0, rows[1].1));
    let s3 = with_rows(start, rows, 3);
    assert(s3 == with_row(s2, rows[2].0, rows[2].1));
    let s4 = with_rows(start, rows, 4);
    assert(s4 == with_row(s3, rows[3].0, rows[3].1));
    let s5 = with_rows(start, rows, 5);
    assert(s5 == with_row(s4, rows[4].0, rows[4].1));
    let s6 = with_rows(start, rows, 6);
    assert(s6 == with_row(s5, rows[5].0, rows[5].1));
    let s7 = with_rows(start, rows, 7);
    assert(s7 == with_row(s6, rows[6].0, rows[6].1));
    let s8 = with_rows(start, rows, 8);
    assert(s8 == with_row(s7, rows[7].0, rows[7].1));
    let s9 = with_rows(start, rows, 9);
    assert(s9 == with_row(s8, rows[8].0, rows[8].1));
    let s10 = with_rows(start, rows, 10);
    assert(s10 == with_row(s9, rows[9].0, rows[9].1));
    let s11 = with_rows(start, rows, 11);
    assert(s11 == with_row(s10, rows[10].0, rows[10].1));
    let s12 = with_rows(start, rows, 12);
    assert(s12 == with_row(s11, rows[11].0, rows[11].1));
    let s13 = with_rows(start, rows, 13);
    assert(s13 == with_row(s12, rows[12].0, rows[12].1));
    assert(s1.sound == settings.sound);
    assert(s2.video_alert_offset == settings.video_alert_offset);
    assert(s3.regular_alert_offset == settings.regular_alert_offset);
    assert(s4.snooze_interval == settings.snooze_interval);
    assert(s5.max_snoozes == settings.max_snoozes);
    assert(s6.sync_interval == settings.sync_interval);
    assert(s7.auto_join_enabled == settings.auto_join_enabled);
    assert(s8.theme == settings.theme);
    assert(s9.alert_30m == settings.alert_30m);
    assert(s10.alert_10m == settings.alert_10m);
    assert(s11.alert_5m == settings.alert_5m);
    assert(s12.alert_1m == settings.alert_1m);
    assert(s13.alert_default == settings.alert_default);
}

} // verus!
