use pre_commit_rs::text::{patch_file_name, push_decimal, tree_name};

#[test]
fn patch_name_is_time_and_pid() {
    assert_eq!(patch_file_name(1_700_000_000_123, 4242), "patch1700000000123-4242");
}

#[test]
fn patch_name_of_zeroes() {
    assert_eq!(patch_file_name(0, 0), "patch0-0");
}

#[test]
fn patch_name_of_largest_values() {
    assert_eq!(
        patch_file_name(u128::MAX, u32::MAX),
        "patch340282366920938463463374607431768211455-4294967295"
    );
}

#[test]
fn decimal_is_appended() {
    let mut s = String::from("n=");
    push_decimal(&mut s, 9);
    push_decimal(&mut s, 10);
    push_decimal(&mut s, 1005);
    assert_eq!(s, "n=9101005");
}

#[test]
fn tree_name_drops_the_line_feed() {
    assert_eq!(
        tree_name(b"4b825dc642cb6eb9a060e54bf8d69288fbee4904\n".to_vec()),
        Some("4b825dc642cb6eb9a060e54bf8d69288fbee4904".to_string())
    );
}

#[test]
fn tree_name_drops_all_white_space_at_the_end_only() {
    assert_eq!(tree_name(b" a b \t\r\n \x0b\x0c".to_vec()), Some(" a b".to_string()));
    assert_eq!(tree_name("x\u{a0}\u{2003}\u{3000}\u{85}".as_bytes().to_vec()), Some("x".to_string()));
    assert_eq!(tree_name("x\u{200b}".as_bytes().to_vec()), Some("x\u{200b}".to_string()));
}

#[test]
fn tree_name_of_nothing() {
    assert_eq!(tree_name(Vec::new()), Some(String::new()));
    assert_eq!(tree_name(b"\n".to_vec()), Some(String::new()));
}

#[test]
fn tree_name_refuses_bytes_that_are_not_utf8() {
    assert_eq!(tree_name(vec![0x61, 0xff, 0x0a]), None);
    assert_eq!(tree_name(vec![0xc3]), None);
}
