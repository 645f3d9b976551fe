//! The status-widget helpers: battery, keyboard layout, weather, updates,
//! pomodoro timer, time formatting and album-art naming.

use eww_mixer::battery::{battery_health, battery_time_parts, find_battery, get_battery_icon};
use eww_mixer::keyboard::{code_to_flag, flag_char, get_layout_code, layout_code_of_lower};
use eww_mixer::music::album_art_filename;
use eww_mixer::pomodoro::{PomodoroConfig, PomodoroTimer, TimerStatus};
use eww_mixer::timefmt::format_time;
use eww_mixer::updates::{count_newlines, get_updates};
use eww_mixer::weather::{get_icon_from_condition, split_weather_line, weather_icon_of_lower};

#[test]
fn find_battery_picks_first_present_slot() {
    assert_eq!(find_battery(&vec![false, true, true]), Some(1));
    assert_eq!(find_battery(&vec![true, false, false]), Some(0));
    assert_eq!(find_battery(&vec![false, false, false]), None);
    assert_eq!(find_battery(&vec![]), None);
}

#[test]
fn battery_icon_by_status_and_level() {
    assert_eq!(get_battery_icon("Charging", 5), "\u{f0084}");
    assert_eq!(get_battery_icon("Full", 100), "\u{f0079}");
    assert_eq!(get_battery_icon("Discharging", 95), "\u{f0079}");
    assert_eq!(get_battery_icon("Discharging", 75), "\u{f0080}");
    assert_eq!(get_battery_icon("Discharging", 55), "\u{f007e}");
    assert_eq!(get_battery_icon("Discharging", 35), "\u{f007c}");
    assert_eq!(get_battery_icon("Discharging", 15), "\u{f007a}");
    assert_eq!(get_battery_icon("Discharging", 5), "\u{f008e}");
}

#[test]
fn battery_health_and_time() {
    assert_eq!(battery_health(90, 100), 90);
    assert_eq!(battery_health(4_200_000, 4_800_000), 87);
    assert_eq!(battery_health(5, 0), 0);
    // 2.5 hours at this drain: 2 whole hours, 30 minutes left over.
    assert_eq!(battery_time_parts(2_500_000, 1_000_000), (2, 30));
    assert_eq!(battery_time_parts(0, 7), (0, 0));
}

#[test]
fn layout_code_from_name() {
    assert_eq!(get_layout_code("English (US)"), "en");
    assert_eq!(get_layout_code("GERMAN"), "ge");
    assert_eq!(layout_code_of_lower("(ukrainian)"), "uk");
    assert_eq!(layout_code_of_lower("12 keyboard"), "us");
    assert_eq!(layout_code_of_lower(""), "us");
}

#[test]
fn flags_from_codes() {
    assert_eq!(code_to_flag("us".to_string()), "\u{1f1fa}\u{1f1f8}");
    // The language code is remapped to the country whose flag is shown.
    assert_eq!(code_to_flag("uk".to_string()), "\u{1f1fa}\u{1f1e6}");
    assert_eq!(code_to_flag("eng".to_string()), "\u{1f1fa}\u{1f1f8}");
    assert_eq!(code_to_flag("xyz".to_string()), "\u{2328}\u{fe0f} xyz");
    assert_eq!(flag_char('D'), '\u{1f1e9}');
    assert_eq!(flag_char('d'), '\u{1f1e9}');
    assert_eq!(flag_char('7'), '?');
}

#[test]
fn weather_icon_families() {
    assert_eq!(get_icon_from_condition("Sunny", ""), "\u{f0599}");
    assert_eq!(get_icon_from_condition("Partly cloudy", ""), "\u{f0595}");
    assert_eq!(get_icon_from_condition("Light rain shower", ""), "\u{f0597}");
    assert_eq!(get_icon_from_condition("Thundery outbreaks", ""), "\u{f067e}");
    assert_eq!(get_icon_from_condition("Blowing snow", ""), "\u{f0598}");
    assert_eq!(get_icon_from_condition("Mist", ""), "\u{f0591}");
    // Unrecognized conditions fall back to overcast.
    assert_eq!(get_icon_from_condition("Haboob", ""), "\u{f0590}");
    // The raw icon alone can pick the family.
    assert_eq!(weather_icon_of_lower("", "\u{2600}"), "\u{f0599}");
}

#[test]
fn weather_line_splits_into_three_fields() {
    let (temp, cond, icon) = split_weather_line("+19°C|Sunny|\u{2600}").unwrap();
    assert_eq!(temp, "+19°C");
    assert_eq!(cond, "Sunny");
    assert_eq!(icon, "\u{2600}");
    assert!(split_weather_line("no separators here").is_none());
    assert!(split_weather_line("only|one").is_none());
}

#[test]
fn update_counting() {
    assert_eq!(count_newlines(&b"pkg1\npkg2\npkg3\n".to_vec()), 3);
    assert_eq!(count_newlines(&b"".to_vec()), 0);
    let u = get_updates(2, 3);
    assert_eq!(u.official, 2);
    assert_eq!(u.aur, 3);
    assert_eq!(u.total, 5);
}

#[test]
fn clock_formatting() {
    assert_eq!(format_time(1500), "25:00");
    assert_eq!(format_time(65), "1:05");
    assert_eq!(format_time(0), "0:00");
    assert_eq!(format_time(3600), "60:00");
    assert_eq!(format_time(59), "0:59");
}

fn short_config() -> PomodoroConfig {
    PomodoroConfig {
        work_duration: 3,
        short_break: 2,
        long_break: 5,
        long_break_interval: 2,
    }
}

#[test]
fn pomodoro_fresh_timer_is_idle() {
    let timer = PomodoroTimer::new(PomodoroConfig::default());
    let state = timer.get_state();
    assert_eq!(state.status, "idle");
    assert_eq!(state.time_left, 1500);
    assert_eq!(state.time_display, "25:00");
    assert_eq!(state.sessions, 0);
    assert!(!state.is_break);
    assert_eq!(state.percent, 0);
    assert_eq!(state.icon, "\u{4f5c}\u{696d}");
}

#[test]
fn pomodoro_toggle_pauses_and_resumes() {
    let mut timer = PomodoroTimer::new(short_config());
    timer.toggle();
    assert!(timer.running);
    assert!(matches!(timer.status, TimerStatus::Running));
    timer.toggle();
    assert!(!timer.running);
    assert!(matches!(timer.status, TimerStatus::Paused));
    timer.toggle();
    assert!(timer.running);
}

#[test]
fn pomodoro_tick_finishes_work_into_break() {
    let mut timer = PomodoroTimer::new(short_config());
    timer.toggle();
    assert!(!timer.tick());
    assert!(!timer.tick());
    let state = timer.get_state();
    assert_eq!(state.time_left, 1);
    assert!(state.percent > 0);
    // The final second ends the work phase and loads a break.
    assert!(timer.tick());
    assert!(timer.is_break);
    assert!(!timer.running);
    assert!(matches!(timer.status, TimerStatus::Idle));
    // Sessions counted 0 when started from a fresh idle phase with time
    // on the clock, so the long-break cadence picks the long break.
    assert_eq!(timer.duration, 5);
    // A paused or idle timer does not tick.
    assert!(!timer.tick());
}

#[test]
fn pomodoro_skip_and_stop() {
    let mut timer = PomodoroTimer::new(short_config());
    timer.skip();
    assert!(timer.is_break);
    assert_eq!(timer.sessions, 1);
    assert_eq!(timer.duration, 2);
    timer.skip();
    assert!(!timer.is_break);
    assert_eq!(timer.time_left, 3);
    timer.skip();
    assert_eq!(timer.sessions, 2);
    assert_eq!(timer.duration, 5);
    timer.stop();
    assert_eq!(timer.sessions, 0);
    assert!(!timer.is_break);
    assert_eq!(timer.time_left, 3);
    assert!(matches!(timer.status, TimerStatus::Idle));
}

#[test]
fn album_art_names() {
    assert_eq!(album_art_filename(""), None);
    assert_eq!(
        album_art_filename("file:///home/user/cover.png"),
        Some("/home/user/cover.png".to_string())
    );
    // The cache name is the URL digest, not the URL itself.
    assert_eq!(
        album_art_filename("http://example.com/art.png"),
        Some("9705feec43232fde658c25af871687db.jpg".to_string())
    );
}
