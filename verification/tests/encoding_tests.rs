use decmp::error::DecmpError;
use decmp::encoding::{
  auto_detect_encoding, common_encoding_names, decode_filename, encode_filename, is_utf8,
  try_decode_utf8,
};

#[test]
fn test_decode_filename_utf8() {
  let raw = "hello.txt".as_bytes();
  assert_eq!(decode_filename(raw, "utf-8").unwrap(), "hello.txt");
}

#[test]
fn test_decode_filename_gbk() {
  let raw = &[0xC4, 0xE3, 0xBA, 0xC3]; // "你好" in GBK
  let result = decode_filename(raw, "gbk").unwrap();
  assert_eq!(result, "你好");
}

#[test]
fn test_decode_filename_shift_jis() {
  let raw = &[0x82, 0xB1, 0x82, 0xF1]; // "こん" in Shift_JIS
  let result = decode_filename(raw, "shift_jis").unwrap();
  assert_eq!(result, "こん");
}

#[test]
fn test_decode_filename_unknown_encoding() {
  let result = decode_filename(b"test", "unknown-encoding");
  assert!(result.is_err());
}

#[test]
fn test_encode_filename_utf8() {
  let encoded = encode_filename("hello.txt", "utf-8").unwrap();
  assert_eq!(encoded, b"hello.txt");
}

#[test]
fn test_encode_filename_gbk() {
  let encoded = encode_filename("你好", "gbk").unwrap();
  assert_eq!(encoded, &[0xC4, 0xE3, 0xBA, 0xC3]);
}

#[test]
fn test_encode_filename_unknown_encoding() {
  let result = encode_filename("test", "unknown-encoding");
  assert!(result.is_err());
}

#[test]
fn test_encode_decode_roundtrip_gbk() {
  let original = "测试文件.txt";
  let encoded = encode_filename(original, "gbk").unwrap();
  let decoded = decode_filename(&encoded, "gbk").unwrap();
  assert_eq!(decoded, original);
}

#[test]
fn test_encode_decode_roundtrip_shift_jis() {
  let original = "テスト.txt";
  let encoded = encode_filename(original, "shift_jis").unwrap();
  let decoded = decode_filename(&encoded, "shift_jis").unwrap();
  assert_eq!(decoded, original);
}

#[test]
fn test_try_decode_utf8_valid() {
  assert_eq!(try_decode_utf8(b"hello"), "hello");
}

#[test]
fn test_try_decode_utf8_invalid() {
  let raw = &[0xFF, 0xFE];
  let result = try_decode_utf8(raw);
  assert!(result.contains('\u{FFFD}'));
}

#[test]
fn test_is_utf8_valid() {
  assert!(is_utf8(b"hello.txt"));
  assert!(is_utf8("你好.txt".as_bytes()));
}

#[test]
fn test_is_utf8_invalid() {
  assert!(!is_utf8(&[0xFF, 0xFE, 0x00]));
}

#[test]
fn test_decode_empty() {
  assert_eq!(decode_filename(b"", "utf-8").unwrap(), "");
}

#[test]
fn test_encode_empty() {
  assert_eq!(encode_filename("", "utf-8").unwrap(), b"");
}

#[test]
fn test_auto_detect_encoding_empty() {
  assert_eq!(auto_detect_encoding(&[]), None);
}

#[test]
fn test_auto_detect_encoding_all_utf8() {
  let names: &[&[u8]] = &[b"hello.txt", b"readme.md"];
  assert_eq!(auto_detect_encoding(names), None);
}

#[test]
fn test_auto_detect_encoding_gbk() {
  // "你好" in GBK
  let names: &[&[u8]] = &[&[0xC4, 0xE3, 0xBA, 0xC3]];
  let detected = auto_detect_encoding(names);
  assert!(detected.is_some());
}

#[test]
fn test_auto_detect_encoding_shift_jis() {
  // "こん" in Shift_JIS — these bytes are also valid GBK,
  // so either may be detected; we just verify detection succeeds.
  let names: &[&[u8]] = &[&[0x82, 0xB1, 0x82, 0xF1]];
  let detected = auto_detect_encoding(names);
  assert!(detected.is_some());
}

#[test]
fn test_auto_detect_encoding_mixed_utf8_and_gbk() {
  let names: &[&[u8]] = &[
    b"README.txt",
    &[0xC4, 0xE3, 0xBA, 0xC3, 0x2E, 0x74, 0x78, 0x74], // "你好.txt" in GBK
  ];
  // Not all are valid UTF-8, so should detect an encoding
  let detected = auto_detect_encoding(names);
  assert!(detected.is_some());
}

#[test]
fn test_auto_detect_encoding_unrecognizable() {
  // These bytes are invalid in all common CJK encodings
  let names: &[&[u8]] = &[&[0xC0, 0xC1, 0xF5, 0xF6, 0xFE, 0xFF]];
  assert_eq!(auto_detect_encoding(names), None);
}

#[test]
fn test_common_encoding_names() {
  let names = common_encoding_names();
  assert!(names.contains(&"gbk"));
  assert!(names.contains(&"shift_jis"));
}

// Further cases of this library.

#[test]
fn decode_errors_carry_messages() {

  match decode_filename(b"x", "nope") {
    Err(DecmpError::EncodingError(m)) => assert_eq!(m, "unknown encoding: nope"),
    other => panic!("unexpected {other:?}"),
  }
  match decode_filename(&[0xFF], "utf-8") {
    Err(DecmpError::EncodingError(m)) => assert_eq!(m, "failed to decode with utf-8"),
    other => panic!("unexpected {other:?}"),
  }
  match encode_filename("你", "iso-8859-1") {
    Err(DecmpError::EncodingError(m)) => assert_eq!(m, "failed to encode with iso-8859-1"),
    other => panic!("unexpected {other:?}"),
  }
}

#[test]
fn utf8_encode_then_decode_gives_back_the_name() {
  for name in ["plain.txt", "你好.txt", "テスト", "ünïcödé/path", ""] {
    let bytes = encode_filename(name, "utf-8").unwrap();
    assert_eq!(bytes, name.as_bytes());
    assert_eq!(decode_filename(&bytes, "utf-8").unwrap(), name);
  }
}

#[test]
fn auto_detect_needs_a_majority() {
  let gbk: &[&[u8]] = &[&[0xC4, 0xE3, 0xBA, 0xC3]];
  assert_eq!(auto_detect_encoding(gbk), Some("gbk"));
}

#[test]
fn lossy_decoding_keeps_valid_text() {
  assert_eq!(try_decode_utf8("ok é".as_bytes()), "ok é");
  assert_eq!(try_decode_utf8(&[b'a', 0xFF, b'b']), "a\u{FFFD}b");
}
