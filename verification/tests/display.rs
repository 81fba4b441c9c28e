use cputest::display::{display_value, format_percent};
use cputest::machine::RunState;
use cputest::style::{toggle_control, Button, ButtonStyle, Rgb};

#[test]
fn percent_has_two_decimals() {
    assert_eq!(format_percent(0), "0.00%");
    assert_eq!(format_percent(5), "0.05%");
    assert_eq!(format_percent(70), "0.70%");
    assert_eq!(format_percent(100), "1.00%");
    assert_eq!(format_percent(1234), "12.34%");
    assert_eq!(format_percent(9999), "99.99%");
    assert_eq!(format_percent(10_000), "100.00%");
    assert_eq!(format_percent(1_000_001), "10000.01%");
    assert_eq!(format_percent(u32::MAX), "42949672.95%");
}

#[test]
fn percent_agrees_with_std_formatting() {
    for hundredths in (0..200_000u32).step_by(37) {
        let want = format!("{}.{:02}%", hundredths / 100, hundredths % 100);
        assert_eq!(format_percent(hundredths), want);
    }
}

#[test]
fn display_shows_placeholder_without_a_value() {
    assert_eq!(display_value(None), "---");
    assert_eq!(display_value(Some(0)), "0.00%");
    assert_eq!(display_value(Some(4321)), "43.21%");
}

#[test]
fn button_kinds_have_their_looks() {
    let white = Rgb { red: 100, green: 100, blue: 100 };
    assert_eq!(
        Button::Primary.active(),
        ButtonStyle {
            background: Rgb { red: 11, green: 42, blue: 87 },
            text_color: white,
            border_radius: 12,
            shadow_right: 1,
            shadow_down: 1,
        }
    );
    assert_eq!(Button::Secondary.active().background, Rgb { red: 50, green: 50, blue: 50 });
    assert_eq!(Button::Destructive.active().background, Rgb { red: 80, green: 20, blue: 20 });
    assert_eq!(Button::Destructive.active().text_color, white);
    assert_eq!(Button::Secondary.active().border_radius, 12);
}

#[test]
fn toggle_control_follows_the_run_state() {
    assert_eq!(toggle_control(RunState::Idle), ("Start", Button::Primary));
    assert_eq!(toggle_control(RunState::Ticking), ("Stop", Button::Destructive));
}
