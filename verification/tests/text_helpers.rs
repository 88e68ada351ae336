use siege::text::{
    concat2, decimal_string, split_once_str, str_contains, str_starts_with, trim_end_matches_char,
};

#[test]
fn substring_search() {
    assert!(str_contains("compact,delete", "compact"));
    assert!(!str_contains("delete", "compact"));
    assert!(str_contains("anything", ""));
    assert!(str_starts_with("__consumer_offsets", "__"));
    assert!(!str_starts_with("_x", "__"));
}

#[test]
fn trimming_and_joining() {
    assert_eq!(trim_end_matches_char("a//", '/'), "a");
    assert_eq!(trim_end_matches_char("a/b", '/'), "a/b");
    assert_eq!(concat2("ab", "cd"), "abcd");
}

#[test]
fn decimals() {
    assert_eq!(decimal_string(0), "0");
    assert_eq!(decimal_string(42), "42");
    assert_eq!(decimal_string(u64::MAX), u64::MAX.to_string());
}

#[test]
fn split_once_matches_std() {
    for (h, p) in [("a=b=c", "="), ("abc", "x"), ("xx", "xx"), ("héllo wörld", "ö")] {
        let ours = split_once_str(h, p);
        let std_split = h.split_once(p).map(|(a, b)| (a.to_string(), b.to_string()));
        assert_eq!(ours, std_split);
    }
}
