use socktrace::output::{safe_name, sock_file_name};
use socktrace::outman::plain_sock_file_name;

fn expected_char(c: char) -> char {
    match c {
        '/' | '\\' => '_',
        ':' | '*' | '?' | '"' | '<' | '>' | '|' => '_',
        c if c.is_control() => '_',
        c => c,
    }
}

#[test]
fn separators_are_replaced() {
    assert_eq!(safe_name("/run/user/1000/bus"), "_run_user_1000_bus");
    assert_eq!(safe_name("a\\b:c*d?e\"f<g>h|i"), "a_b_c_d_e_f_g_h_i");
}

#[test]
fn control_characters_are_replaced() {
    assert_eq!(safe_name("a\nb\u{0}c\u{7f}d\u{85}e"), "a_b_c_d_e");
}

#[test]
fn every_character_is_treated_alone() {
    for c in '\0'..=char::MAX {
        assert_eq!(safe_name(&c.to_string()), expected_char(c).to_string());
    }
}

#[test]
fn empty_name_becomes_underscore() {
    assert_eq!(safe_name(""), "_");
}

#[test]
fn other_characters_are_kept() {
    assert_eq!(safe_name("dbus-1.sock ~ü€😀"), "dbus-1.sock ~ü€😀");
}

#[test]
fn long_names_are_cut() {
    assert_eq!(safe_name(&"a".repeat(254)), "a".repeat(254));
    assert_eq!(safe_name(&"a".repeat(255)), "a".repeat(255));
    assert_eq!(safe_name(&"a".repeat(256)), "a".repeat(255));
    assert_eq!(safe_name(&"/".repeat(1000)), "_".repeat(255));
}

#[test]
fn cut_falls_between_characters() {
    let name = "a".repeat(254) + "😀b";
    let safe = safe_name(&name);
    assert_eq!(safe, "a".repeat(254) + "😀");
    assert_eq!(safe.len(), 258);
    assert_eq!(safe_name(&("€".repeat(100))), "€".repeat(85));
}

#[test]
fn making_safe_twice_changes_nothing() {
    let long = "a/".repeat(300);
    let wide = "a".repeat(254) + "😀b";
    for name in ["", "/", "/tmp/x", "plain", long.as_str(), wide.as_str()] {
        let once = safe_name(name);
        assert_eq!(safe_name(&once), once);
    }
}

#[test]
fn file_names_are_made_of_four_parts() {
    let name = String::from("/run/x.sock");
    assert_eq!(sock_file_name(&name, 3, 1700000000, true), "_run_x.sock.3.1700000000.in");
    assert_eq!(sock_file_name(&name, 12, 0, false), "_run_x.sock.12.0.out");
    assert_eq!(sock_file_name(&name, -1, 7, true), "_run_x.sock.-1.7.in");
    assert_eq!(
        sock_file_name(&String::new(), i32::MIN, u64::MAX, false),
        "_.-2147483648.18446744073709551615.out"
    );
}

#[test]
fn file_names_are_single_components() {
    for name in ["/", "..", "../../etc/passwd", ".", "a/b"] {
        let file = sock_file_name(&String::from(name), 3, 4, true);
        assert!(!file.contains('/'));
        assert!(file != "." && file != "..");
    }
}

#[test]
fn different_captures_have_different_files() {
    let names = [String::from("a"), String::from("a.1"), String::from("a.1.1")];
    let mut files: Vec<String> = Vec::new();
    for name in names.iter() {
        for fd in [1, 11, -1] {
            for t in [1u64, 11] {
                for inside in [true, false] {
                    files.push(sock_file_name(name, fd, t, inside));
                }
            }
        }
    }
    let count = files.len();
    files.sort();
    files.dedup();
    assert_eq!(files.len(), count);
}

#[test]
fn plain_file_names_keep_the_socket_name() {
    let name = String::from("x.sock");
    assert_eq!(plain_sock_file_name(&name, 3, 1700000000, true), "x.sock.3.1700000000.true");
    assert_eq!(plain_sock_file_name(&name, 3, 5, false), "x.sock.3.5.false");
    assert_eq!(plain_sock_file_name(&String::from("/a"), -4, 5, false), "/a.-4.5.false");
}
