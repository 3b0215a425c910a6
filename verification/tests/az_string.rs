use azul_gl::{str_to_bytes, AzString};

#[test]
fn bytes_of_an_ascii_string() {
    let s = AzString::from_str("vAttrXY");
    assert_eq!(s.as_bytes(), b"vAttrXY");
    assert_eq!(s.as_str(), "vAttrXY");
}

#[test]
fn bytes_of_a_string_with_wide_characters() {
    let s = AzString::from_str("gr\u{fc}n \u{20ac}");
    assert_eq!(s.as_bytes(), &[0x67, 0x72, 0xc3, 0xbc, 0x6e, 0x20, 0xe2, 0x82, 0xac]);
    assert_eq!(s.into_bytes(), vec![0x67, 0x72, 0xc3, 0xbc, 0x6e, 0x20, 0xe2, 0x82, 0xac]);
}

#[test]
fn into_string_gives_the_characters_back() {
    let s = AzString::from(String::from("iResolution"));
    assert_eq!(s.into_string(), String::from("iResolution"));
}

#[test]
fn conversion_to_a_standard_string_and_back() {
    let s: AzString = String::from("fOutColor").into();
    let t: String = s.clone().into();
    assert_eq!(t, "fOutColor");
    assert_eq!(AzString::from(t), s);
}

#[test]
fn default_string_is_empty() {
    let s = AzString::default();
    assert_eq!(s.as_str(), "");
    assert!(s.as_bytes().is_empty());
    assert!(s.into_bytes().is_empty());
}

#[test]
fn clone_is_equal_and_independent() {
    let s = AzString::from_str("position");
    let t = s.clone();
    assert_eq!(s, t);
    assert_eq!(t.into_string(), "position");
    assert_eq!(s.as_str(), "position");
}

#[test]
fn strings_compare_by_their_characters() {
    assert_eq!(AzString::from_str("a"), AzString::from_str("a"));
    assert_ne!(AzString::from_str("a"), AzString::from_str("b"));
    assert_ne!(AzString::from_str("a"), AzString::from_str("a "));
    assert!(AzString::from_str("a") < AzString::from_str("b"));
    assert!(AzString::from_str("ab") > AzString::from_str("a"));
}

#[test]
fn shader_source_bytes_end_with_a_zero() {
    assert_eq!(str_to_bytes("void"), vec![b'v', b'o', b'i', b'd', 0]);
    assert_eq!(str_to_bytes(""), vec![0]);
    assert_eq!(str_to_bytes("\u{e9}"), vec![0xc3, 0xa9, 0]);
}

#[test]
fn string_vectors_convert_in_order() {
    let strings = vec![String::from("b"), String::new(), String::from("a\u{df}")];
    let owned = azul_gl::string_vec_from_strings(strings.clone());
    assert_eq!(owned.len(), 3);
    assert_eq!(owned[0].as_str(), "b");
    assert_eq!(owned[1].as_str(), "");
    assert_eq!(owned[2].as_str(), "a\u{df}");
    assert_eq!(azul_gl::string_vec_into_strings(owned), strings);
    assert!(azul_gl::string_vec_from_strings(vec![]).is_empty());
    assert!(azul_gl::string_vec_into_strings(vec![]).is_empty());
}
