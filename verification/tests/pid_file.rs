use proc_supervisor::pid_file::{format_pid, parse_pid, pid_file_path, proc_cmdline_path};

#[test]
fn format_pid_writes_plain_decimal() {
    assert_eq!(format_pid(0), "0");
    assert_eq!(format_pid(7), "7");
    assert_eq!(format_pid(10), "10");
    assert_eq!(format_pid(4242), "4242");
    assert_eq!(format_pid(1_000_000), "1000000");
    assert_eq!(format_pid(u32::MAX), "4294967295");
}

#[test]
fn format_pid_agrees_with_display() {
    for pid in [0u32, 1, 9, 10, 99, 100, 101, 65535, 65536, 123456789, u32::MAX - 1] {
        assert_eq!(format_pid(pid), format!("{}", pid));
    }
}

#[test]
fn parse_pid_reads_digits() {
    assert_eq!(parse_pid("0"), Some(0));
    assert_eq!(parse_pid("1"), Some(1));
    assert_eq!(parse_pid("4242"), Some(4242));
    assert_eq!(parse_pid("4294967295"), Some(u32::MAX));
}

#[test]
fn parse_pid_takes_a_plus_sign_and_leading_zeros() {
    assert_eq!(parse_pid("+17"), Some(17));
    assert_eq!(parse_pid("0017"), Some(17));
    assert_eq!(parse_pid("+0"), Some(0));
    assert_eq!(parse_pid("00000000000000000001"), Some(1));
}

#[test]
fn parse_pid_refuses_what_is_no_number() {
    assert_eq!(parse_pid(""), None);
    assert_eq!(parse_pid("+"), None);
    assert_eq!(parse_pid("-"), None);
    assert_eq!(parse_pid("-1"), None);
    assert_eq!(parse_pid("++1"), None);
    assert_eq!(parse_pid("12a"), None);
    assert_eq!(parse_pid("a12"), None);
    assert_eq!(parse_pid("1 2"), None);
    assert_eq!(parse_pid("0x10"), None);
    assert_eq!(parse_pid("1.5"), None);
}

#[test]
fn parse_pid_refuses_white_space_and_line_ends() {
    assert_eq!(parse_pid(" 12"), None);
    assert_eq!(parse_pid("12 "), None);
    assert_eq!(parse_pid("12\n"), None);
    assert_eq!(parse_pid("\t12"), None);
}

#[test]
fn parse_pid_refuses_other_scripts() {
    assert_eq!(parse_pid("١٢٣"), None);
    assert_eq!(parse_pid("12é"), None);
    assert_eq!(parse_pid("é12"), None);
    assert_eq!(parse_pid("+１２"), None);
}

#[test]
fn parse_pid_refuses_what_is_too_large() {
    assert_eq!(parse_pid("4294967296"), None);
    assert_eq!(parse_pid("99999999999"), None);
    assert_eq!(parse_pid("18446744073709551616"), None);
    assert_eq!(parse_pid("+4294967296"), None);
    assert_eq!(parse_pid("340282366920938463463374607431768211456"), None);
}

#[test]
fn parse_pid_agrees_with_the_standard_parser() {
    let texts = [
        "", "0", "+", "-", "+1", "-1", "12", "012", "4294967295", "4294967296", " 1", "1 ", "1\n",
        "abc", "1e3", "+-1", "９", "42949672950",
    ];
    for text in texts {
        assert_eq!(parse_pid(text), text.parse::<u32>().ok(), "text {:?}", text);
    }
}

#[test]
fn parse_pid_reads_back_what_format_pid_wrote() {
    for pid in [0u32, 1, 9, 10, 11, 99, 100, 999, 1000, 32768, 4194304, u32::MAX] {
        assert_eq!(parse_pid(&format_pid(pid)), Some(pid));
    }
}

#[test]
fn pid_file_path_is_beside_the_working_directory() {
    assert_eq!(pid_file_path("w1"), "./w1.pid");
    assert_eq!(pid_file_path(""), "./.pid");
    assert_eq!(pid_file_path("wörker 7"), "./wörker 7.pid");
}

#[test]
fn proc_cmdline_path_names_the_process() {
    assert_eq!(proc_cmdline_path(1), "/proc/1/cmdline");
    assert_eq!(proc_cmdline_path(31337), "/proc/31337/cmdline");
    assert_eq!(proc_cmdline_path(u32::MAX), "/proc/4294967295/cmdline");
}
