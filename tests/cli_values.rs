use pwwwd::cli::{
    parse_rgb, ParseRgbError, Resize, ResizeOption, Transition, TransitionKind, DEFAULT_RESIZE, RGB,
};

#[test]
fn resize_flags_resolve() {
    let none = Resize { no_resize: false, resize: None };
    assert_eq!(none.option(), ResizeOption::Crop);
    assert_eq!(DEFAULT_RESIZE, ResizeOption::Crop);
    let fit = Resize { no_resize: false, resize: Some(ResizeOption::Fit) };
    assert_eq!(fit.option(), ResizeOption::Fit);
    let off = Resize { no_resize: true, resize: None };
    assert_eq!(off.option(), ResizeOption::No);
}

#[test]
fn transition_flags_resolve() {
    let none = Transition { no_transition: false, transition: None };
    assert_eq!(none.kind(), TransitionKind::No);
    let wipe = Transition { no_transition: false, transition: Some(TransitionKind::Wipe) };
    assert_eq!(wipe.kind(), TransitionKind::Wipe);
    let off = Transition { no_transition: true, transition: None };
    assert_eq!(off.kind(), TransitionKind::No);
}

#[test]
fn parse_rgb_reads_hex_pairs() {
    assert_eq!(parse_rgb("224466"), Ok(RGB));
    assert_eq!(parse_rgb("FFaa00"), Ok((255, 170, 0)));
    assert_eq!(parse_rgb("000000"), Ok((0, 0, 0)));
    assert_eq!(parse_rgb("0a1B2c"), Ok((10, 27, 44)));
}

#[test]
fn parse_rgb_refuses_wrong_length() {
    assert_eq!(parse_rgb(""), Err(ParseRgbError::WrongLength));
    assert_eq!(parse_rgb("12345"), Err(ParseRgbError::WrongLength));
    assert_eq!(parse_rgb("1234567"), Err(ParseRgbError::WrongLength));
}

#[test]
fn parse_rgb_refuses_non_hex() {
    assert_eq!(parse_rgb("12345g"), Err(ParseRgbError::InvalidDigit));
    assert_eq!(parse_rgb("+12345"), Err(ParseRgbError::InvalidDigit));
    assert_eq!(parse_rgb("zz0000"), Err(ParseRgbError::InvalidDigit));
}
