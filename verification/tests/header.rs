use registry_auth::HeaderError;
use registry_auth::XRegistryAuth;

#[test]
fn concrete_example_encodes() {
    let h = XRegistryAuth::new("hello".to_string());
    assert_eq!(h.to_wire(), "aGVsbG8=");
}

#[test]
fn concrete_example_parses() {
    let raw = vec!["aGVsbG8=".to_string()];
    let h = XRegistryAuth::parse_header(&raw).unwrap();
    assert_eq!(h.body(), "hello");
}

#[test]
fn field_name_is_constant() {
    assert_eq!(XRegistryAuth::header_name(), "X-Registry-Auth");
}

#[test]
fn standard_alphabet_with_padding() {
    // ">>>" and "???" exercise the two alphabet characters that differ from
    // the URL-safe variant, and "hi" exercises padding.
    assert_eq!(XRegistryAuth::new(">>>???".to_string()).to_wire(), "Pj4+Pz8/");
    assert_eq!(XRegistryAuth::new("hi".to_string()).to_wire(), "aGk=");
}

#[test]
fn round_trip_empty() {
    let h = XRegistryAuth::new(String::new());
    let wire = h.to_wire();
    assert_eq!(wire, "");
    let back = XRegistryAuth::parse_header(&vec![wire]).unwrap();
    assert_eq!(back.body(), "");
}

#[test]
fn round_trip_ascii() {
    let h = XRegistryAuth::new("{\"username\":\"u\",\"password\":\"p\"}".to_string());
    let back = XRegistryAuth::parse_header(&vec![h.to_wire()]).unwrap();
    assert_eq!(back.body(), "{\"username\":\"u\",\"password\":\"p\"}");
}

#[test]
fn round_trip_non_ascii() {
    let s = "p\u{e4}ssw\u{f6}rd \u{2014} \u{4e16}\u{754c}";
    let h = XRegistryAuth::new(s.to_string());
    let back = XRegistryAuth::parse_header(&vec![h.to_wire()]).unwrap();
    assert_eq!(back.body(), s);
}

#[test]
fn arity_zero_fails() {
    let raw: Vec<String> = vec![];
    let e = XRegistryAuth::parse_header(&raw).unwrap_err();
    assert_eq!(e, HeaderError::Malformed);
}

#[test]
fn arity_two_fails() {
    let raw = vec!["aGVsbG8=".to_string(), "aGVsbG8=".to_string()];
    let e = XRegistryAuth::parse_header(&raw).unwrap_err();
    assert_eq!(e, HeaderError::Malformed);
}

#[test]
fn malformed_base64_rejected() {
    let raw = vec!["not-valid-@@base64".to_string()];
    let e = XRegistryAuth::parse_header(&raw).unwrap_err();
    assert_eq!(e, HeaderError::Malformed);
}

#[test]
fn lossy_utf8_substitution() {
    // 0xff and 0xfe are never valid in UTF-8; each becomes U+FFFD while the
    // trailing 'a' survives, and parsing still succeeds.
    let wire = base64::encode_config(&[0xff_u8, 0xfe, b'a'], base64::STANDARD);
    let h = XRegistryAuth::parse_header(&vec![wire]).unwrap();
    assert_eq!(h.body(), "\u{fffd}\u{fffd}a");
}

#[test]
fn to_wire_is_deterministic() {
    let a = XRegistryAuth::new("same payload".to_string());
    let b = XRegistryAuth::new("same payload".to_string());
    assert_eq!(a.to_wire(), b.to_wire());
}

#[test]
fn header_line_format() {
    let h = XRegistryAuth::new("hello".to_string());
    assert_eq!(h.header_line(), "X-Registry-Auth: aGVsbG8=");
}
