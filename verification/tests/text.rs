use youtube_audio_pipeline::text::{ends_with, is_white_space, trim};

#[test]
fn test_white_space_is_that_of_unicode() {
    for c in '\0'..=char::MAX {
        assert_eq!(is_white_space(c), c.is_whitespace(), "{:?}", c);
    }
}

#[test]
fn test_trim() {
    for s in [
        "", " ", "\n", "abc", " abc", "abc\n", "\t a b \r\n", "\u{3000}x\u{a0}", "x\u{200b} ", "é ü",
    ] {
        assert_eq!(trim(s), s.trim());
        assert_eq!(trim(&trim(s)), trim(s));
    }
}

#[test]
fn test_ends_with() {
    assert!(ends_with("song.mp3", ".mp3"));
    assert!(ends_with(".mp3", ".mp3"));
    assert!(ends_with("é.mp3", ".mp3"));
    assert!(ends_with("abc", ""));
    assert!(!ends_with("song.MP3", ".mp3"));
    assert!(!ends_with("song.mp3.txt", ".mp3"));
    assert!(!ends_with("mp3", ".mp3"));
    assert!(!ends_with("", ".mp3"));
}
