use rake::hash::{answer, choice, fnv1a_hash, responses};
use rake::text::{
    chars_eq, chars_of, int_string, parse_i32, parse_i64, parse_u64, parse_u8, parse_usize, push_pad_left,
    push_pad_right, push_signed, rsplit_once_chars, split_once_chars, split_three_chars, string_of,
    strip_prefix_chars,
};

fn cs(s: &str) -> Vec<char> {
    s.chars().collect()
}

#[test]
fn chars_round_trip() {
    assert_eq!(chars_of("héllo wörld"), cs("héllo wörld"));
    assert_eq!(string_of(&cs("a b\nc")), "a b\nc");
    assert!(chars_eq(&cs("help"), "help"));
    assert!(!chars_eq(&cs("hel"), "help"));
    assert!(!chars_eq(&cs("helP"), "help"));
}

#[test]
fn splitting() {
    let (a, b) = split_once_chars(&cs("Lousy Tank Top 3"), ' ').unwrap();
    assert_eq!(string_of(&a), "Lousy");
    assert_eq!(string_of(&b), "Tank Top 3");
    let (a, b) = rsplit_once_chars(&cs("Tank Top 3"), ' ').unwrap();
    assert_eq!(string_of(&a), "Tank Top");
    assert_eq!(string_of(&b), "3");
    assert!(split_once_chars(&cs("Sneaker"), ' ').is_none());
    assert!(rsplit_once_chars(&cs("Sneaker"), ' ').is_none());
    let (a, b, c) = split_three_chars(&cs("1 2 3 4"), ' ').unwrap();
    assert_eq!((string_of(&a), string_of(&b), string_of(&c)), ("1".to_string(), "2".to_string(), "3 4".to_string()));
    assert!(split_three_chars(&cs("1 2"), ' ').is_none());
    assert_eq!(string_of(&strip_prefix_chars(&cs("oi rake"), "oi ").unwrap()), "rake");
    assert!(strip_prefix_chars(&cs("oi"), "oi ").is_none());
    assert!(strip_prefix_chars(&cs("io rake"), "oi ").is_none());
}

#[test]
fn parsing_unsigned_like_std() {
    for s in ["0", "7", "+7", "255", "256", "", "+", "-1", "-0", "1a", " 1", "007"] {
        assert_eq!(parse_u8(&cs(s)), s.parse::<u8>().ok(), "u8 {s:?}");
        assert_eq!(parse_u64(&cs(s)), s.parse::<u64>().ok(), "u64 {s:?}");
        assert_eq!(parse_usize(&cs(s)), s.parse::<usize>().ok(), "usize {s:?}");
    }
    assert_eq!(parse_u64(&cs("18446744073709551615")), Some(u64::MAX));
    assert_eq!(parse_u64(&cs("18446744073709551616")), None);
    assert_eq!(parse_u8(&cs("٣")), None);
}

#[test]
fn parsing_signed_like_std() {
    for s in [
        "0", "-0", "+5", "-5", "2147483647", "2147483648", "-2147483648", "-2147483649", "-", "+", "", "--1",
        "-+1", "12x",
    ] {
        assert_eq!(parse_i32(&cs(s)), s.parse::<i32>().ok(), "i32 {s:?}");
        assert_eq!(parse_i64(&cs(s)), s.parse::<i64>().ok(), "i64 {s:?}");
    }
    assert_eq!(parse_i64(&cs("-9223372036854775808")), Some(i64::MIN));
    assert_eq!(parse_i64(&cs("9223372036854775807")), Some(i64::MAX));
    assert_eq!(parse_i64(&cs("9223372036854775808")), None);
}

#[test]
fn formatting_like_std() {
    for i in [0i64, 5, -5, 10, 1999, -99999, i64::MIN, i64::MAX] {
        assert_eq!(int_string(i), i.to_string());
        let mut s = String::new();
        push_signed(&mut s, i);
        assert_eq!(s, format!("{i:+}"));
    }
    let mut s = String::new();
    push_pad_right(&mut s, "Coat", 8);
    push_pad_left(&mut s, "42", 5);
    assert_eq!(s, format!("{:<8}{:>5}", "Coat", "42"));
    let mut s = String::new();
    push_pad_right(&mut s, "a name longer than eight", 8);
    assert_eq!(s, "a name longer than eight");
}

#[test]
fn fnv1a_known_values() {
    assert_eq!(fnv1a_hash("") as u64, 0xcbf29ce484222325);
    assert_eq!(fnv1a_hash("a") as u64, 0xaf63dc4c8601ec8c);
    assert_eq!(fnv1a_hash("foobar") as u64, 0x85944171f73967e8);
}

#[test]
fn choice_is_deterministic() {
    let items = [10, 20, 30];
    let first = *choice(&items, "seed");
    assert_eq!(*choice(&items, "seed"), first);
    assert_eq!(first, items[fnv1a_hash("seed") % 3]);
}

#[test]
fn answers_follow_the_hash() {
    let all = responses();
    assert_eq!(all.len(), 20);
    assert_eq!(answer("Will it rain?"), "Yes but actually no.");
    assert_eq!(answer("hello"), "...so you're a Rake of culture as well!");
    assert_eq!(answer(""), "It's a tough question... hmm... I'll say yes.");
    assert_eq!(answer("hello"), answer("hello"));
}

#[test]
fn decimal_round_trip() {
    for n in [0i64, 9, 10, 255, 65536, i64::MAX, -1, i64::MIN] {
        let text = cs(&int_string(n));
        assert_eq!(parse_i64(&text), Some(n));
        if n >= 0 {
            assert_eq!(parse_u64(&text), Some(n as u64));
        }
    }
}
