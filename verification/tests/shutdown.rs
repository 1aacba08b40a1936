use gcsf::shutdown::ShutdownFlag;

#[test]
fn fresh_flag_is_raised() {
    assert!(ShutdownFlag::new().is_running());
}

#[test]
fn reading_leaves_the_flag_raised() {
    let flag = ShutdownFlag::new();
    for _ in 0..4 {
        assert!(flag.is_running());
    }
}

#[test]
fn interrupt_lowers_the_flag() {
    let mut flag = ShutdownFlag::new();
    flag.request_stop();
    assert!(!flag.is_running());
}

#[test]
fn lowered_flag_stays_down() {
    let mut flag = ShutdownFlag::new();
    flag.request_stop();
    for _ in 0..4 {
        assert!(!flag.is_running());
    }
    flag.request_stop();
    assert!(!flag.is_running());
}
