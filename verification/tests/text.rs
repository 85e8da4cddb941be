use yap::text::{decimal_of, file_stem, signed_decimal_of, split_at_each, trimmed, truth_of};

#[test]
fn stem_cuts_at_the_first_full_stop() {
    assert_eq!(file_stem("abc.opus"), "abc");
    assert_eq!(file_stem("a.b.opus"), "a");
    assert_eq!(file_stem("plain"), "plain");
    assert_eq!(file_stem(""), "");
    assert_eq!(file_stem(".opus"), "");
}

#[test]
fn split_keeps_every_piece() {
    assert_eq!(split_at_each("A,Ghost,B", ','), vec!["A", "Ghost", "B"]);
    assert_eq!(split_at_each("", ','), vec![""]);
    assert_eq!(split_at_each("a,", ','), vec!["a", ""]);
    assert_eq!(split_at_each(",", ','), vec!["", ""]);
    assert_eq!(split_at_each("one", ','), vec!["one"]);
}

#[test]
fn trimmed_drops_white_space_at_both_ends() {
    assert_eq!(trimmed("  a b \t\n"), "a b");
    assert_eq!(trimmed("ab"), "ab");
    assert_eq!(trimmed("   "), "");
    assert_eq!(trimmed(""), "");
}

#[test]
fn numbers_are_written_in_decimal() {
    assert_eq!(decimal_of(0), "0");
    assert_eq!(decimal_of(7), "7");
    assert_eq!(decimal_of(10), "10");
    assert_eq!(decimal_of(18446744073709551615), "18446744073709551615");
    assert_eq!(signed_decimal_of(-12), "-12");
    assert_eq!(signed_decimal_of(i32::MIN), "-2147483648");
    assert_eq!(signed_decimal_of(2147483647), "2147483647");
    assert_eq!(truth_of(true), "true");
    assert_eq!(truth_of(false), "false");
}
