use chess_clock::app::{classify_press, Page, PressType};
use chess_clock::game::Player;
use chess_clock::aux::{format_duration, format_secs, pwm_freq_config, CeilTime};
use chess_clock::effect::Effects;
use chess_clock::time::{Duration, TICKS_PER_SEC};

#[test]
fn format_secs_renders_fixed_width() {
    assert_eq!(format_secs(0).unwrap(), "00:00");
    assert_eq!(format_secs(90).unwrap(), "01:30");
    assert_eq!(format_secs(600).unwrap(), "10:00");
    assert_eq!(format_secs(5999).unwrap(), "99:59");
}

#[test]
fn format_secs_rejects_values_that_do_not_fit() {
    assert!(format_secs(6000).is_err());
    assert!(format_secs(u64::MAX).is_err());
}

#[test]
fn format_duration_uses_whole_seconds() {
    assert_eq!(format_duration(Duration::from_secs(75)).unwrap(), "01:15");
    assert_eq!(format_duration(Duration::from_millis(75_900)).unwrap(), "01:15");
}

#[test]
fn ceil_secs_rounds_partial_seconds_up() {
    assert_eq!(Duration::from_secs(2).ceil_secs(), 2);
    assert_eq!(Duration::from_millis(1_500).ceil_secs(), 2);
    assert_eq!(Duration::from_millis(1).ceil_secs(), 1);
    assert_eq!(Duration::from_ticks(0).ceil_secs(), 0);
}

#[test]
fn saturating_sub_clamps_at_zero() {
    let five = Duration::from_secs(5);
    let three = Duration::from_secs(3);
    assert_eq!(five.saturating_sub(three), Duration::from_secs(2));
    assert_eq!(three.saturating_sub(five), Duration::from_ticks(0));
}

#[test]
fn one_tick_is_one_millisecond() {
    assert_eq!(TICKS_PER_SEC, 1000);
    assert_eq!(Duration::from_secs(2).as_ticks(), 2000);
    assert_eq!(Duration::from_millis(250).as_ticks(), 250);
    assert_eq!(Duration::from_millis(2500).as_secs(), 2);
}

#[test]
fn classify_press_uses_the_hold_time() {
    assert_eq!(
        classify_press(Duration::from_millis(100)),
        PressType::Single
    );
    assert_eq!(classify_press(Duration::from_millis(300)), PressType::Single);
    assert_eq!(classify_press(Duration::from_millis(301)), PressType::Long);
}

#[test]
fn buzz_requests_keep_the_higher_frequency() {
    let mut effects = Effects::new();
    effects.buzz(440, Duration::from_millis(500));
    effects.buzz(880, Duration::from_millis(100));
    let kept = effects.buzz.unwrap();
    assert_eq!(kept.freq, 880);
    assert_eq!(kept.duration, Duration::from_millis(100));

    let mut effects = Effects::new();
    effects.buzz(880, Duration::from_millis(100));
    effects.buzz(440, Duration::from_millis(500));
    let kept = effects.buzz.unwrap();
    assert_eq!(kept.freq, 880);
    assert_eq!(kept.duration, Duration::from_millis(100));
}

#[test]
fn clock_requests_merge_with_or() {
    let mut effects = Effects::new();
    effects.set_clock(false);
    assert_eq!(effects.set_clock, Some(false));
    effects.set_clock(true);
    assert_eq!(effects.set_clock, Some(true));
    effects.set_clock(false);
    assert_eq!(effects.set_clock, Some(true));
}

#[test]
fn first_page_change_request_wins() {
    let mut effects = Effects::new();
    effects.page_change(Page::GameOver(Player::Left));
    effects.page_change(Page::Welcome);
    assert_eq!(effects.page_change, Some(Page::GameOver(Player::Left)));
}

#[test]
fn pwm_settings_divide_the_system_clock() {
    let settings = pwm_freq_config(125_000_000, 440);
    assert_eq!(settings.divider, 16);
    assert_eq!(u32::from(settings.top), 125_000_000u32 / (440 * 16) - 1);
}
