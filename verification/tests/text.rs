use socktrace::proc_fd::{fd_dir, fd_from_name};
use socktrace::text::{push_decimal, push_digits};

#[test]
fn integers_are_written_in_decimal() {
    for n in [0, 1, 9, 10, 99, 100, -1, -10, 12345, i32::MAX, i32::MIN] {
        let mut out = String::from("n=");
        push_decimal(&mut out, n);
        assert_eq!(out, format!("n={}", n));
    }
    for n in [0u64, 9, 10, 1234567890123, u64::MAX] {
        let mut out = String::new();
        push_digits(&mut out, n);
        assert_eq!(out, format!("{}", n));
    }
}

#[test]
fn descriptor_directory_is_under_proc() {
    assert_eq!(fd_dir(1234), "/proc/1234/fd");
}

#[test]
fn descriptor_names_are_read() {
    assert_eq!(fd_from_name("0").unwrap(), 0);
    assert_eq!(fd_from_name("17").unwrap(), 17);
    assert_eq!(fd_from_name("+5").unwrap(), 5);
    assert_eq!(fd_from_name("-5").unwrap(), -5);
    assert_eq!(fd_from_name("007").unwrap(), 7);
    assert_eq!(fd_from_name("2147483647").unwrap(), i32::MAX);
    assert_eq!(fd_from_name("-2147483648").unwrap(), i32::MIN);
}

#[test]
fn other_names_are_refused() {
    for name in ["", "+", "-", "x", "1x", " 1", "1 ", "1_0", "--1", "2147483648", "-2147483649"] {
        assert!(fd_from_name(name).is_err(), "{:?}", name);
    }
}

#[test]
fn refusals_carry_the_error_of_the_parser() {
    for (name, text) in [
        ("", "cannot parse integer from empty string"),
        ("1x", "invalid digit found in string"),
        ("2147483648", "number too large to fit in target type"),
        ("-2147483649", "number too small to fit in target type"),
    ] {
        let error = fd_from_name(name).unwrap_err().error;
        assert_eq!(error.to_string(), text);
        assert_eq!(Err(error), i32::from_str_radix(name, 10));
    }
}

#[test]
fn descriptors_are_read_back() {
    for fd in [0, 1, 2, 10, 255, 65535, i32::MAX, -1, i32::MIN] {
        let mut name = String::new();
        push_decimal(&mut name, fd);
        assert_eq!(fd_from_name(&name).unwrap(), fd);
    }
}
