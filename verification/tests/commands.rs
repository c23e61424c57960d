use pasta::commands::{select_mode, Mode, START};

#[test]
fn start_selects_the_listener() {
    assert_eq!(select_mode(Some("start")), Mode::Listen);
    assert_eq!(select_mode(Some(START)), Mode::Listen);
}

#[test]
fn no_subcommand_selects_the_display() {
    assert_eq!(select_mode(None), Mode::Display);
}

#[test]
fn any_other_subcommand_selects_the_display() {
    for name in ["", "Start", "START", "start ", " start", "stop", "star", "started"] {
        assert_eq!(select_mode(Some(name)), Mode::Display);
    }
}

#[test]
fn start_subcommand_is_named_start() {
    assert_eq!(START, "start");
}
