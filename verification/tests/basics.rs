use shop_backend::assoc_map::AssocMap;
use shop_backend::crypto::{check_password, hash_password, hex_encode, pepper_password};
use shop_backend::env_thingy::komunikat_braku;
use shop_backend::parse::{parse_i32, parse_i64, parse_u32, parse_u64};
use shop_backend::text::{
    chars_of, concat_text, contains_char, find_text, push_decimal, same_text, split_at, starts_with_text,
    string_from_range,
};

#[test]
fn split_like_str_split() {
    let seps = vec!['/'];
    assert_eq!(split_at("a/b//c", &seps), vec!["a", "b", "", "c"]);
    assert_eq!(split_at("", &seps), vec![""]);
    assert_eq!(split_at("x-y_z", &vec!['-', '_']), vec!["x", "y", "z"]);
}

#[test]
fn finding_text() {
    let hay = chars_of("abcabc");
    assert_eq!(find_text(&hay, &chars_of("ca")), Some(2));
    assert_eq!(find_text(&hay, &chars_of("abc")), Some(0));
    assert_eq!(find_text(&hay, &chars_of("x")), None);
    assert_eq!(string_from_range(&hay, 1, 4), "bca");
}

#[test]
fn small_text_helpers() {
    assert_eq!(concat_text("ab", "cd"), "abcd");
    assert!(same_text("żółw", "żółw"));
    assert!(!same_text("a", "b"));
    assert!(contains_char("a@b", '@'));
    assert!(!contains_char("ab", '@'));
    assert!(starts_with_text("Bearer x", "Bearer "));
    assert!(!starts_with_text("Bear", "Bearer "));
    let mut s = String::from("n=");
    push_decimal(&mut s, 1024);
    assert_eq!(s, "n=1024");
}

#[test]
fn parsing_integers() {
    assert_eq!(parse_i64("42"), Some(42));
    assert_eq!(parse_i64("-9223372036854775808"), Some(i64::MIN));
    assert_eq!(parse_i64("9223372036854775808"), None);
    assert_eq!(parse_i64("+7"), Some(7));
    assert_eq!(parse_i64("-"), None);
    assert_eq!(parse_i64(""), None);
    assert_eq!(parse_i64("1a"), None);
    assert_eq!(parse_i32("512"), Some(512));
    assert_eq!(parse_i32("2147483648"), None);
    assert_eq!(parse_u32("-1"), None);
    assert_eq!(parse_u32("+5"), Some(5));
    assert_eq!(parse_u32("4294967295"), Some(u32::MAX));
    assert_eq!(parse_u64("18446744073709551615"), Some(u64::MAX));
    assert_eq!(parse_u64("18446744073709551616"), None);
    assert_eq!(parse_u64("000123"), Some(123));
}

#[test]
fn parsing_agrees_with_std() {
    for s in ["0", "-0", "+0", "12", "-12", "+", "", " 1", "99999999999999999999", "-2147483649", "2147483647"] {
        assert_eq!(parse_i64(s), s.parse::<i64>().ok(), "{s}");
        assert_eq!(parse_i32(s), s.parse::<i32>().ok(), "{s}");
        assert_eq!(parse_u32(s), s.parse::<u32>().ok(), "{s}");
        assert_eq!(parse_u64(s), s.parse::<u64>().ok(), "{s}");
    }
}

#[test]
fn hex_and_hmac() {
    assert_eq!(hex_encode(&[0x00, 0x0f, 0xa5, 0xff]), "000fa5ff");
    let peppered = pepper_password("Hi There", &[0x0b; 20]);
    assert_eq!(
        peppered,
        "87aa7cdea5ef619d4ff0b4241a1d6cb02379f4e2ce4ec2787ad0b30545e17cdedaa833b7d6b8a702038b274eaea3f4e4be9d914eeb61f1702e696c203a126854"
    );
    let bytes: Vec<u8> = (0u8..=255).collect();
    assert_eq!(hex_encode(&bytes), hex::encode(&bytes));
}

#[test]
fn hashed_password_checks_out() {
    let h = hash_password("sekret123", b"pieprz").unwrap();
    assert_eq!(h.len(), 60);
    assert!(h.starts_with("$2b$12$"));
    assert!(check_password("sekret123", &h, b"pieprz"));
    assert!(!check_password("sekret124", &h, b"pieprz"));
    assert!(!check_password("sekret123", &h, b"inny"));
    assert!(!check_password("sekret123", "not a bcrypt hash", b"pieprz"));
}

#[test]
fn assoc_map_behaves_like_a_map() {
    let mut m: AssocMap<String> = AssocMap::new();
    assert_eq!(m.len(), 0);
    m.insert("b".to_string(), "1".to_string());
    m.insert("a".to_string(), "2".to_string());
    m.insert("b".to_string(), "3".to_string());
    assert_eq!(m.len(), 2);
    assert_eq!(m.get("b").map(|s| s.as_str()), Some("3"));
    assert_eq!(m.get("c"), None);
    assert_eq!(m.find("a").is_some(), true);
    assert_eq!(m.remove("a"), Some("2".to_string()));
    assert_eq!(m.remove("a"), None);
    let entries = m.into_entries();
    assert_eq!(entries, vec![("b".to_string(), "3".to_string())]);
}

#[test]
fn lock_message() {
    assert_eq!(komunikat_braku(""), "OnceLock accessed before initialization");
    assert_eq!(komunikat_braku("brak klucza"), "brak klucza");
}
