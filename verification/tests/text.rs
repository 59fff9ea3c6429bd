use tmdb_cli::text::{bool_text, i64_text, join, join_id, u64_text};

#[test]
fn u64_text_writes_single_digits() {
    let digits = ["0", "1", "2", "3", "4", "5", "6", "7", "8", "9"];
    for n in 0..10u64 {
        assert_eq!(u64_text(n), digits[n as usize]);
    }
}

#[test]
fn u64_text_writes_without_padding() {
    assert_eq!(u64_text(10), "10");
    assert_eq!(u64_text(99), "99");
    assert_eq!(u64_text(100), "100");
    assert_eq!(u64_text(2016), "2016");
    assert_eq!(u64_text(1_000_000), "1000000");
}

#[test]
fn u64_text_writes_the_largest_value() {
    assert_eq!(u64_text(u64::MAX), "18446744073709551615");
}

#[test]
fn u64_text_agrees_with_the_standard_library() {
    let mut n: u64 = 1;
    for _ in 0..64 {
        assert_eq!(u64_text(n), n.to_string());
        assert_eq!(u64_text(n - 1), (n - 1).to_string());
        assert_eq!(u64_text(n / 3 + 7), (n / 3 + 7).to_string());
        n = n.wrapping_mul(2);
        if n == 0 {
            break;
        }
    }
    for n in 0..3000u64 {
        assert_eq!(u64_text(n), n.to_string());
    }
}

#[test]
fn i64_text_writes_a_minus_sign_for_negatives() {
    assert_eq!(i64_text(-1), "-1");
    assert_eq!(i64_text(-10), "-10");
    assert_eq!(i64_text(-157336), "-157336");
}

#[test]
fn i64_text_writes_zero_and_positives_bare() {
    assert_eq!(i64_text(0), "0");
    assert_eq!(i64_text(7), "7");
    assert_eq!(i64_text(157336), "157336");
    assert_eq!(i64_text(39373), "39373");
}

#[test]
fn i64_text_writes_the_extremes() {
    assert_eq!(i64_text(i64::MAX), "9223372036854775807");
    assert_eq!(i64_text(i64::MIN), "-9223372036854775808");
    assert_eq!(i64_text(i64::MIN + 1), "-9223372036854775807");
}

#[test]
fn i64_text_agrees_with_the_standard_library() {
    for i in -1500..1500i64 {
        assert_eq!(i64_text(i), i.to_string());
    }
    let mut i: i64 = -1;
    for _ in 0..62 {
        assert_eq!(i64_text(i), i.to_string());
        assert_eq!(i64_text(-i), (-i).to_string());
        i *= 2;
    }
}

#[test]
fn bool_text_writes_both_flags() {
    assert_eq!(bool_text(true), "true");
    assert_eq!(bool_text(false), "false");
    assert_eq!(bool_text(true), true.to_string());
    assert_eq!(bool_text(false), false.to_string());
}

#[test]
fn join_puts_the_path_after_the_host() {
    assert_eq!(join("http://h", "/3/movie/popular"), "http://h/3/movie/popular");
    assert_eq!(join("", "/x"), "/x");
    assert_eq!(join("http://h", ""), "http://h");
}

#[test]
fn join_id_puts_the_id_between_prefix_and_leaf() {
    assert_eq!(join_id("http://h", "/3/movie/", 42, "/reviews"), "http://h/3/movie/42/reviews");
    assert_eq!(join_id("http://h", "/3/tv/", -5, ""), "http://h/3/tv/-5");
    assert_eq!(join_id("", "", 0, ""), "0");
}
