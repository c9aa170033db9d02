use phasorsyncrs::web::{escape_json_string, wav_filename_is_valid};

#[test]
fn test_escape_json_string() {
    assert_eq!(escape_json_string("plain name.wav"), "plain name.wav");
    assert_eq!(escape_json_string("a\\b"), "a\\\\b");
    assert_eq!(escape_json_string("say \"hi\""), "say \\\"hi\\\"");
    assert_eq!(escape_json_string("line\nbreak"), "line\\nbreak");
    assert_eq!(escape_json_string("carriage\rreturn"), "carriage\\rreturn");
    assert_eq!(escape_json_string(""), "");
}

#[test]
fn test_escape_json_string_all_escapes_together() {
    assert_eq!(escape_json_string("\\\"\n\r"), "\\\\\\\"\\n\\r");
}

#[test]
fn test_wav_filename_validation() {
    assert!(wav_filename_is_valid("take_20240101_pair1.wav"));
    assert!(wav_filename_is_valid("sample.wav"));

    // Empty names, path separators and parent-directory steps are refused.
    assert!(!wav_filename_is_valid(""));
    assert!(!wav_filename_is_valid("dir/file.wav"));
    assert!(!wav_filename_is_valid("dir\\file.wav"));
    assert!(!wav_filename_is_valid("../secret.wav"));
    assert!(!wav_filename_is_valid("a..b.wav"));
    assert!(!wav_filename_is_valid(".."));

    // A single dot is fine.
    assert!(wav_filename_is_valid("a.b.wav"));
}
