use fnsd::hash::{
    binary_content_hash, file_content_hash, file_content_hash_parts, finish_hash, path_hash,
    setting_content_hash, text_content_hash, text_hash_value, FILE_HASH_SLICE_SIZE,
    FILE_HASH_THRESHOLD,
};
use fnsd::{ContentHash, CoreError, PathHash};

#[test]
fn text_hash_matches_plugin_values() {
    assert_eq!(text_hash_value("abc"), "96354");
    assert_eq!(text_hash_value(""), "0");
    assert_eq!(text_hash_value("hello world"), "1794106052");
    assert_eq!(
        text_hash_value("The quick brown fox jumps over the lazy dog"),
        "-609428141"
    );
}

#[test]
fn text_hash_uses_utf16_code_units() {
    assert_eq!(text_hash_value("notes/日记.md"), "-558292");
    // A character outside the basic plane counts as two surrogate units.
    assert_eq!(text_hash_value("😀"), "1772899");
    assert_eq!(text_content_hash("😀").as_str(), "1772899");
}

#[test]
fn binary_hash_of_bytes() {
    assert_eq!(binary_content_hash(b"abc").as_str(), "96354");
    assert_eq!(binary_content_hash("😀".as_bytes()).as_str(), "7307479");
    assert_eq!(binary_content_hash(b"").as_str(), "0");
}

#[test]
fn ascii_text_and_bytes_hash_agree() {
    let s = "a/b/c.md";
    assert_eq!(text_content_hash(s), binary_content_hash(s.as_bytes()));
    assert_eq!(text_hash_value(s), "-1131030019");
}

#[test]
fn setting_hash_is_binary_hash() {
    assert_eq!(setting_content_hash(b"{\"a\":1}"), binary_content_hash(b"{\"a\":1}"));
}

#[test]
fn finish_hash_prints_decimal() {
    assert_eq!(finish_hash(0), "0");
    assert_eq!(finish_hash(-7), "-7");
    assert_eq!(finish_hash(i32::MIN), "-2147483648");
    assert_eq!(finish_hash(i32::MAX), "2147483647");
}

#[test]
fn small_file_is_hashed_whole() {
    let data: Vec<u8> = (0..FILE_HASH_THRESHOLD).map(|i| (i % 251) as u8).collect();
    assert_eq!(file_content_hash(&data).as_str(), "230363640");
    assert_eq!(file_content_hash(&data), binary_content_hash(&data));
}

#[test]
fn large_file_is_hashed_by_head_and_tail() {
    let data: Vec<u8> = (0..FILE_HASH_THRESHOLD + 1).map(|i| (i % 251) as u8).collect();
    assert_eq!(file_content_hash(&data).as_str(), "-2044469384");
    let head = &data[..FILE_HASH_SLICE_SIZE];
    let tail = &data[data.len() - FILE_HASH_SLICE_SIZE..];
    assert_eq!(file_content_hash(&data), file_content_hash_parts(head, tail));
}

#[test]
fn file_hash_parts_pad_short_slices() {
    assert_eq!(file_content_hash_parts(b"hello", b"world").as_str(), "1180146972");
    assert_eq!(file_content_hash_parts(b"", b"").as_str(), "0");
}

#[test]
fn path_hash_normalizes_first() {
    assert_eq!(path_hash("a\\b/./c.md").unwrap().as_str(), "-1131030019");
    assert_eq!(path_hash("a/b/c.md"), path_hash("a/b//c.md"));
    assert_eq!(path_hash("../x"), Err(CoreError::ParentTraversal));
    assert_eq!(path_hash(""), Err(CoreError::EmptyPath));
}

#[test]
fn hash_values_must_not_be_empty() {
    assert_eq!(ContentHash::new(String::new()), Err(CoreError::InvalidHash));
    assert_eq!(PathHash::new(String::new()), Err(CoreError::InvalidHash));
    assert_eq!(ContentHash::new("12".to_string()).unwrap().into_string(), "12");
    assert_eq!(PathHash::new("-3".to_string()).unwrap().as_str(), "-3");
}

