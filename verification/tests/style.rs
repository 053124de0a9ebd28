use status_console::style::{eta, offset, rounding_div, write_decimal, Offset, Unit};
use status_console::text::{replace_all, same_text};

#[test]
fn division_rounds_to_the_nearest_with_halves_away_from_zero() {
    assert_eq!(rounding_div(5, 2), 3);
    assert_eq!(rounding_div(7, 2), 4);
    assert_eq!(rounding_div(1, 3), 0);
    assert_eq!(rounding_div(2, 3), 1);
    assert_eq!(rounding_div(0, 7), 0);
    assert_eq!(rounding_div(-5, 2), -3);
    assert_eq!(rounding_div(5, -2), -3);
    assert_eq!(rounding_div(-1, -2), 1);
    assert_eq!(rounding_div(-1, 3), 0);
    assert_eq!(rounding_div(89, 60), 1);
    assert_eq!(rounding_div(90, 60), 2);
    assert_eq!(rounding_div(i64::MAX, 1), i64::MAX);
    assert_eq!(rounding_div(i64::MIN, 1), i64::MIN);
    assert_eq!(rounding_div(i64::MAX, i64::MAX), 1);
    assert_eq!(rounding_div(i64::MIN, 2), -4_611_686_018_427_387_904);
}

#[test]
fn offsets_pick_their_unit() {
    assert_eq!(offset(1000, 700), Offset { past: true, count: 5, unit: Unit::Minutes });
    assert_eq!(offset(700, 1000), Offset { past: false, count: 5, unit: Unit::Minutes });
    assert_eq!(offset(0, 0), Offset { past: false, count: 0, unit: Unit::Minutes });
    assert_eq!(offset(3600, 0), Offset { past: true, count: 60, unit: Unit::Minutes });
    assert_eq!(offset(3601, 0), Offset { past: true, count: 1, unit: Unit::Hours });
    assert_eq!(offset(43_200, 0), Offset { past: true, count: 12, unit: Unit::Hours });
    assert_eq!(offset(43_201, 0), Offset { past: true, count: 1, unit: Unit::Days });
    assert_eq!(offset(86_400, 0), Offset { past: true, count: 1, unit: Unit::Days });
    assert_eq!(offset(86_401, 0), Offset { past: true, count: 1, unit: Unit::Days });
    assert_eq!(offset(129_600, 0), Offset { past: true, count: 2, unit: Unit::Days });
    assert_eq!(offset(0, 864_000), Offset { past: false, count: 10, unit: Unit::Days });
}

#[test]
fn offsets_are_written_in_four_columns() {
    assert_eq!(eta(1000, 700), "+ 5m");
    assert_eq!(eta(700, 1000), "- 5m");
    assert_eq!(eta(0, 0), "- 0m");
    assert_eq!(eta(29, 0), "+ 0m");
    assert_eq!(eta(30, 0), "+ 1m");
    assert_eq!(eta(3600, 0), "+60m");
    assert_eq!(eta(3601, 0), "+ 1h");
    assert_eq!(eta(0, 43_200), "-12h");
    assert_eq!(eta(43_201, 0), "+ 1d");
    assert_eq!(eta(129_600, 0), "+ 2d");
    assert_eq!(eta(0, 864_000), "-10d");
    assert_eq!(eta(86_400_000, 0), "+1000d");
    assert_eq!(
        Offset { past: true, count: 7, unit: Unit::Hours }.text(),
        "+ 7h"
    );
}

#[test]
fn numbers_are_written_in_decimal() {
    let mut out = String::from("n=");
    write_decimal(0, &mut out);
    out.push(',');
    write_decimal(7, &mut out);
    out.push(',');
    write_decimal(1_024, &mut out);
    out.push(',');
    write_decimal(u64::MAX, &mut out);
    assert_eq!(out, "n=0,7,1024,18446744073709551615");
}

#[test]
fn replacement_goes_from_left_to_right_without_overlap() {
    assert_eq!(replace_all("aaaa", "aa", "b"), "bb");
    assert_eq!(replace_all("aaa", "aa", "b"), "ba");
    assert_eq!(replace_all("abcabc", "bc", ""), "aa");
    assert_eq!(replace_all("abc", "abcd", "x"), "abc");
    assert_eq!(replace_all("", "a", "x"), "");
    assert_eq!(replace_all("a/b/c", "/", "//"), "a//b//c");
    assert_eq!(replace_all("gr\u{fc}\u{df}e \u{fc}ber", "\u{fc}", "ue"), "grue\u{df}e ueber");
    assert_eq!(replace_all("abab", "ab", "ab"), "abab");
    for (s, from, to) in [("banana", "ana", "o"), ("xxxx", "x", "yx"), ("pulls/pulls", "pulls", "pull")] {
        assert_eq!(replace_all(s, from, to), s.replace(from, to));
    }
}

#[test]
fn texts_are_compared_by_their_characters() {
    assert!(same_text("", ""));
    assert!(same_text("accepted", "accepted"));
    assert!(!same_text("accepted", "Accepted"));
    assert!(!same_text("a", "ab"));
}
