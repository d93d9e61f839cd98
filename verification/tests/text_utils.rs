use gguf_engine::strutil::{str_contains, u64_to_string};

#[test]
fn substring_search() {
    assert!(str_contains("llama-7b-q4_k_m.gguf", "7b"));
    assert!(str_contains("abc", ""));
    assert!(!str_contains("abc", "abcd"));
    assert!(!str_contains("qwen", "llama"));
    assert!(str_contains("aababa", "aba"));
}

#[test]
fn decimal_rendering() {
    assert_eq!(u64_to_string(0), String::from("0"));
    assert_eq!(u64_to_string(7), String::from("7"));
    assert_eq!(u64_to_string(4096), String::from("4096"));
    assert_eq!(u64_to_string(u64::MAX), String::from("18446744073709551615"));
}
