use pokefilter::lists::{decimal_list, join_list, parse_int_list, split_list};
use pokefilter::number::{decimal_string, parse_i64};
use pokefilter::text::{chars_of, eq_str, has_infix, has_prefix, has_suffix, join_strings, split_string, string_from};

fn strings(items: &[&str]) -> Vec<String> {
    items.iter().map(|s| s.to_string()).collect()
}

#[test]
fn chars_and_strings() {
    assert_eq!(chars_of("héllo"), vec!['h', 'é', 'l', 'l', 'o']);
    assert_eq!(string_from("Salamèche"), "Salamèche");
    assert!(eq_str(&chars_of("abc"), "abc"));
    assert!(!eq_str(&chars_of("abc"), "abd"));
    assert!(!eq_str(&chars_of("abc"), "ab"));
}

#[test]
fn prefix_suffix_infix() {
    let n = chars_of("zygarde-10-power-construct");
    assert!(has_prefix(&n, "zygarde"));
    assert!(!has_prefix(&n, "zygardes"));
    assert!(has_suffix(&n, "construct"));
    assert!(!has_suffix(&n, "-10"));
    assert!(has_infix(&n, "-10-"));
    assert!(has_infix(&n, ""));
    assert!(!has_infix(&n, "complete"));
    assert!(!has_infix(&chars_of("ab"), "abc"));
}

#[test]
fn join_and_split() {
    assert_eq!(join_strings(&strings(&["a", "b", "c"]), ','), "a,b,c");
    assert_eq!(join_strings(&strings(&[]), ','), "");
    assert_eq!(join_strings(&strings(&["only"]), ';'), "only");
    assert_eq!(split_string("a,b,,c", ','), strings(&["a", "b", "", "c"]));
    assert_eq!(split_string("", ','), strings(&[""]));
    assert_eq!(split_string(",", ','), strings(&["", ""]));
}

#[test]
fn decimal_matches_to_string() {
    for n in [0i64, 7, 10, 42, -1, -10, 309, i64::MAX, i64::MIN, 1025, -9] {
        assert_eq!(decimal_string(n), n.to_string());
    }
}

#[test]
fn parse_matches_std() {
    let cases = [
        "0", "42", "+42", "-42", "-0", "007", "", "-", "+", "4a", " 4", "4 ", "9223372036854775807",
        "9223372036854775808", "-9223372036854775808", "-9223372036854775809",
        "99999999999999999999999", "+-1", "1.5",
    ];
    for c in cases {
        assert_eq!(parse_i64(c), c.parse::<i64>().ok(), "parsing {c:?}");
    }
}

#[test]
fn decimal_parse_roundtrip() {
    for n in [i64::MIN, -123456789, -1, 0, 1, 65, i64::MAX] {
        assert_eq!(parse_i64(&decimal_string(n)), Some(n));
    }
}

#[test]
fn list_fields() {
    assert_eq!(split_list("Fire;Flying"), strings(&["Fire", "Flying"]));
    assert_eq!(split_list(""), strings(&[""]));
    assert_eq!(join_list(&strings(&["Monster", "Dragon"])), "Monster;Dragon");
    assert_eq!(parse_int_list("39;52;43;60;50;65;309"), Some(vec![39, 52, 43, 60, 50, 65, 309]));
    assert_eq!(parse_int_list("1;x;3"), None);
    assert_eq!(parse_int_list(""), None);
    assert_eq!(decimal_list(&vec![0, -5, 12]), "0;-5;12");
}

#[test]
fn list_roundtrip() {
    let parts = strings(&["Blaze", "Solar Power*"]);
    assert_eq!(split_list(&join_list(&parts)), parts);
    let ns = vec![45, 49, -1, 0, i64::MAX];
    assert_eq!(parse_int_list(&decimal_list(&ns)), Some(ns));
}
