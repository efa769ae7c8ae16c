use clap_wrapper::hash::{
    bypass_param_hash, bytes_equal, hash_param_id, is_bypass_id, str_equal, str_has_bytes,
    BYPASS_PARAM_ID,
};

#[test]
fn hash_of_known_identifiers() {
    assert_eq!(hash_param_id(""), 0);
    assert_eq!(hash_param_id("a"), 97);
    assert_eq!(hash_param_id("ab"), 97 * 31 + 98);
    assert_eq!(hash_param_id("gain"), 3165055);
    assert_eq!(hash_param_id("mode"), 3357091);
}

#[test]
fn hash_wraps_and_clears_the_top_bit() {
    // Before the top bit is cleared these fold to 0xaf96ebed and 0x8962884e.
    assert_eq!(hash_param_id("cutoff"), 798419949);
    assert_eq!(hash_param_id("resonance"), 157452366);
    assert_eq!(hash_param_id("zzzzzzzzzz"), 566504512);
    for id in ["cutoff", "resonance", "zzzzzzzzzz", "bypass"] {
        assert!(hash_param_id(id) <= 0x7FFF_FFFF);
    }
}

#[test]
fn hash_goes_by_the_bytes_of_the_encoding() {
    // U+00E9 is encoded as 0xC3 0xA9.
    assert_eq!(hash_param_id("\u{e9}"), 0xC3 * 31 + 0xA9);
}

#[test]
fn hashing_twice_gives_the_same_value() {
    for id in ["", "gain", "bypass", "a much longer identifier with spaces"] {
        let owned = String::from(id);
        assert_eq!(hash_param_id(id), hash_param_id(owned.as_str()));
    }
}

#[test]
fn bypass_hash_is_the_hash_of_the_reserved_identifier() {
    assert_eq!(BYPASS_PARAM_ID, "bypass");
    assert_eq!(bypass_param_hash(), 773352680);
    assert_eq!(bypass_param_hash(), hash_param_id("bypass"));
}

#[test]
fn colliding_identifiers_share_a_hash() {
    assert_eq!(hash_param_id("Aa"), hash_param_id("BB"));
    assert_eq!(hash_param_id("cZpass"), bypass_param_hash());
}

#[test]
fn str_equal_compares_characters() {
    assert!(str_equal("", ""));
    assert!(str_equal("Bypassed", "Bypassed"));
    assert!(!str_equal("Bypassed", "bypassed"));
    assert!(!str_equal("Bypassed", "Bypasse"));
    assert!(!str_equal("abc", "abd"));
    assert!(!str_equal("", "x"));
}

#[test]
fn only_the_reserved_identifier_is_the_bypass_id() {
    assert!(is_bypass_id("bypass"));
    assert!(!is_bypass_id("Bypass"));
    assert!(!is_bypass_id("bypass "));
    assert!(!is_bypass_id("cZpass"));
    assert!(!is_bypass_id(""));
}

#[test]
fn bytes_equal_compares_length_and_content() {
    assert!(bytes_equal(&[], &[]));
    assert!(bytes_equal(&[1, 2, 3], &[1, 2, 3]));
    assert!(!bytes_equal(&[1, 2, 3], &[1, 2]));
    assert!(!bytes_equal(&[1, 2, 3], &[1, 2, 4]));
    assert!(!bytes_equal(&[0], &[]));
}

#[test]
fn str_has_bytes_goes_by_the_encoding() {
    assert!(str_has_bytes("clap.params", b"clap.params"));
    assert!(!str_has_bytes("clap.params", b"clap.params\0"));
    assert!(str_has_bytes("\u{e9}", &[0xC3, 0xA9]));
    assert!(!str_has_bytes("\u{e9}", &[0xE9]));
    assert!(str_has_bytes("", &[]));
}
