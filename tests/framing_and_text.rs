use jellyfin_audio::framing::{frame_count, quartile_bounds, window_count};
use jellyfin_audio::text::{contains_str, first_word_bounds, parse_i32_prefix, range_equals};
use jellyfin_audio::version;

#[test]
fn spectral_frames_of_one_second() {
    assert_eq!(frame_count(44100, 2048, 1024), 41);
    assert_eq!(frame_count(2048, 2048, 1024), 0);
    assert_eq!(frame_count(100, 2048, 1024), 0);
    assert_eq!(frame_count(3072, 2048, 1024), 1);
}

#[test]
fn chroma_windows_step_through_the_buffer() {
    assert_eq!(window_count(88200, 4096, 2048), 42);
    assert_eq!(window_count(4096, 4096, 2048), 0);
    assert_eq!(window_count(4097, 4096, 2048), 1);
    assert_eq!(window_count(8192, 4096, 2048), 2);
    assert_eq!(window_count(8193, 4096, 2048), 3);
}

#[test]
fn quartiles() {
    assert_eq!(quartile_bounds(10), Some((2, 7)));
    assert_eq!(quartile_bounds(4), Some((1, 3)));
    assert_eq!(quartile_bounds(3), None);
    assert_eq!(quartile_bounds(0), None);
}

#[test]
fn integer_prefixes() {
    assert_eq!(parse_i32_prefix("12B", 2), Some(12));
    assert_eq!(parse_i32_prefix("-7A", 2), Some(-7));
    assert_eq!(parse_i32_prefix("+3", 2), Some(3));
    assert_eq!(parse_i32_prefix("+", 1), None);
    assert_eq!(parse_i32_prefix("", 0), None);
    assert_eq!(parse_i32_prefix("1x", 2), None);
    assert_eq!(parse_i32_prefix("2147483647", 10), Some(i32::MAX));
    assert_eq!(parse_i32_prefix("2147483648", 10), None);
    assert_eq!(parse_i32_prefix("-2147483648", 11), Some(i32::MIN));
    assert_eq!(parse_i32_prefix("99999999999999", 14), None);
}

#[test]
fn words_and_searches() {
    assert_eq!(first_word_bounds("  G# Minor"), (2, 4));
    assert_eq!(first_word_bounds("   "), (3, 3));
    assert!(contains_str("A Minor", "Minor"));
    assert!(!contains_str("A Major", "Minor"));
    assert!(contains_str("abc", ""));
    assert!(range_equals("xC#y", 1, 3, "C#"));
    assert!(!range_equals("xC#y", 1, 3, "C"));
}

#[test]
fn library_version() {
    assert_eq!(version(), "jellyfin-audio-wasm v0.2.0 - TimeStretch with DJ transitions");
}
