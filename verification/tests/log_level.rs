use fenster::log_level::{get_log_level, level_of_arg, LogLevel};

fn args(list: &[&str]) -> Vec<Vec<u8>> {
    list.iter().map(|a| a.as_bytes().to_vec()).collect()
}

#[test]
fn no_arguments_give_warn() {
    assert_eq!(get_log_level(&args(&[])), "warn");
}

#[test]
fn verbose_gives_info() {
    assert_eq!(get_log_level(&args(&["--verbose"])), "info");
}

#[test]
fn v_counts_give_levels() {
    assert_eq!(get_log_level(&args(&["-v"])), "info");
    assert_eq!(get_log_level(&args(&["-vv"])), "debug");
    assert_eq!(get_log_level(&args(&["-vvv"])), "trace");
    assert_eq!(get_log_level(&args(&["-vvvvvv"])), "trace");
}

#[test]
fn first_requesting_argument_decides() {
    assert_eq!(get_log_level(&args(&["foo", "-vv", "-v"])), "debug");
    assert_eq!(get_log_level(&args(&["-", "--verbose", "-vvv"])), "info");
}

#[test]
fn other_arguments_are_skipped() {
    assert_eq!(get_log_level(&args(&["-", "-vx", "--verbos", "-V", "--vv"])), "warn");
}

#[test]
fn bytes_that_are_not_utf8_are_skipped() {
    let list = vec![vec![0xffu8, 0xfe], b"-vv".to_vec()];
    assert_eq!(get_log_level(&list), "debug");
}

#[test]
fn single_argument_levels() {
    assert_eq!(level_of_arg(&b"-".to_vec()), None);
    assert_eq!(level_of_arg(&b"".to_vec()), None);
    assert_eq!(level_of_arg(&b"-vvvv".to_vec()), Some(LogLevel::Trace));
    assert_eq!(level_of_arg(&b"--verbose".to_vec()), Some(LogLevel::Info));
    assert_eq!(LogLevel::Warn.as_str(), "warn");
}
