use paber::config::{
    determine_mode, is_image_extension, parse_hex_color, parse_monitors, Args, Mode,
    MonitorsError, DEFAULT_CYCLE_INTERVAL_SECS,
};
use paber::pixel::Color;

fn no_args() -> Args {
    Args { plain: None, image: None, generated: None, cycle: None, monitors: None, interval: None }
}

#[test]
fn plain_wins_over_everything() {
    let mut args = no_args();
    args.plain = Some("ffffff".to_owned());
    args.image = Some("a.png".to_owned());
    args.cycle = Some("/pics".to_owned());
    args.generated = Some("a sunset".to_owned());
    assert!(matches!(determine_mode(&args), Ok(Mode::Plain)));
}

#[test]
fn image_mode_carries_its_path() {
    let mut args = no_args();
    args.image = Some("wall.png".to_owned());
    match determine_mode(&args) {
        Ok(Mode::Image(p)) => assert_eq!(p, "wall.png"),
        other => panic!("wrong mode: {:?}", other),
    }
}

#[test]
fn cycle_mode_takes_the_given_interval() {
    let mut args = no_args();
    args.cycle = Some("/pics".to_owned());
    args.interval = Some(5);
    match determine_mode(&args) {
        Ok(Mode::Cycle(p, i)) => {
            assert_eq!(p, "/pics");
            assert_eq!(i, 5);
        },
        _ => panic!("wrong mode"),
    }
}

#[test]
fn cycle_mode_defaults_to_one_hour() {
    let mut args = no_args();
    args.cycle = Some("/pics".to_owned());
    match determine_mode(&args) {
        Ok(Mode::Cycle(_, i)) => assert_eq!(i, DEFAULT_CYCLE_INTERVAL_SECS),
        _ => panic!("wrong mode"),
    }
    assert_eq!(DEFAULT_CYCLE_INTERVAL_SECS, 3600);
}

#[test]
fn generated_mode_comes_last() {
    let mut args = no_args();
    args.generated = Some("a sunset".to_owned());
    args.cycle = Some("/pics".to_owned());
    assert!(matches!(determine_mode(&args), Ok(Mode::Cycle(_, _))));
    args.cycle = None;
    match determine_mode(&args) {
        Ok(Mode::Generated(p)) => assert_eq!(p, "a sunset"),
        _ => panic!("wrong mode"),
    }
}

#[test]
fn no_option_means_no_mode() {
    let args = no_args();
    match determine_mode(&args) {
        Err(e) => assert_eq!(e, "no mode found"),
        Ok(_) => panic!("a mode came from nothing"),
    }
}

#[test]
fn monitors_default_to_first_output() {
    let args = no_args();
    assert_eq!(parse_monitors(&args), Ok(vec![0]));
}

#[test]
fn monitors_parse_comma_separated_indices() {
    let mut args = no_args();
    args.monitors = Some("0,2,5".to_owned());
    assert_eq!(parse_monitors(&args), Ok(vec![0, 2, 5]));
}

#[test]
fn single_monitor_parses() {
    let mut args = no_args();
    args.monitors = Some("7".to_owned());
    assert_eq!(parse_monitors(&args), Ok(vec![7]));
}

#[test]
fn non_numeric_monitor_is_rejected() {
    let mut args = no_args();
    args.monitors = Some("1,x".to_owned());
    assert_eq!(parse_monitors(&args), Err(MonitorsError::NotANumber));
}

#[test]
fn empty_monitor_field_is_rejected() {
    let mut args = no_args();
    args.monitors = Some("1,,2".to_owned());
    assert_eq!(parse_monitors(&args), Err(MonitorsError::NotANumber));
    args.monitors = Some("".to_owned());
    assert_eq!(parse_monitors(&args), Err(MonitorsError::NotANumber));
}

#[test]
fn leading_plus_is_accepted() {
    let mut args = no_args();
    args.monitors = Some("+0".to_owned());
    assert_eq!(parse_monitors(&args), Ok(vec![0]));
    args.monitors = Some("1,+2".to_owned());
    assert_eq!(parse_monitors(&args), Ok(vec![1, 2]));
}

#[test]
fn a_sign_alone_or_doubled_is_rejected() {
    let mut args = no_args();
    args.monitors = Some("+".to_owned());
    assert_eq!(parse_monitors(&args), Err(MonitorsError::NotANumber));
    args.monitors = Some("++1".to_owned());
    assert_eq!(parse_monitors(&args), Err(MonitorsError::NotANumber));
    args.monitors = Some("-1".to_owned());
    assert_eq!(parse_monitors(&args), Err(MonitorsError::NotANumber));
}

#[test]
fn monitor_index_bounds() {
    let mut args = no_args();
    args.monitors = Some(format!("{}", usize::MAX));
    assert_eq!(parse_monitors(&args), Ok(vec![usize::MAX]));
    args.monitors = Some("18446744073709551616".to_owned());
    assert_eq!(parse_monitors(&args), Err(MonitorsError::NotANumber));
}

#[test]
fn six_digit_hex_is_an_opaque_color() {
    assert_eq!(
        parse_hex_color("1a2B3c"),
        Some(Color { a: 0xFF, r: 0x1A, g: 0x2B, b: 0x3C })
    );
    assert_eq!(parse_hex_color("000000"), Some(Color { a: 0xFF, r: 0, g: 0, b: 0 }));
}

#[test]
fn eight_digit_hex_carries_alpha() {
    assert_eq!(
        parse_hex_color("80FF0000"),
        Some(Color { a: 0x80, r: 0xFF, g: 0x00, b: 0x00 })
    );
}

#[test]
fn malformed_hex_is_no_color() {
    assert_eq!(parse_hex_color(""), None);
    assert_eq!(parse_hex_color("fff"), None);
    assert_eq!(parse_hex_color("1a2B3g"), None);
    assert_eq!(parse_hex_color("1a2B3c4"), None);
    assert_eq!(parse_hex_color("#ff0000"), None);
}

#[test]
fn image_extensions_match_case_insensitively() {
    for ext in ["jpg", "JPG", "jpeg", "Png", "webp", "GIF", "bmp"] {
        assert!(is_image_extension(ext), "{} should be an image", ext);
    }
    for ext in ["txt", "jpgg", "", "svg", "jp"] {
        assert!(!is_image_extension(ext), "{} should not be an image", ext);
    }
}
