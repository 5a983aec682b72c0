use yt_downloader::text::{eq_ignore_ascii_case, is_whitespace, replace_backslashes, split_lines, trim};

#[test]
fn trims_unicode_white_space() {
    assert_eq!(trim("  a b \n"), "a b");
    assert_eq!(trim("\u{3000}\u{2003}x\u{a0}\u{85}"), "x");
    assert_eq!(trim(" \t\r\n "), "");
    assert_eq!(trim(""), "");
    assert_eq!(trim("\u{200b}x"), "\u{200b}x");
}

#[test]
fn whitespace_matches_std() {
    for n in 0u32..0x3100 {
        if let Some(c) = char::from_u32(n) {
            assert_eq!(is_whitespace(c), c.is_whitespace(), "{:x}", n);
        }
    }
}

#[test]
fn trim_matches_std() {
    for s in ["", " ", "a", " a", "a ", "\u{2028}ab c\u{2029}", "\r\nx\r\n", "x\u{feff}"] {
        assert_eq!(trim(s), s.trim());
    }
}

#[test]
fn splits_lines_like_std() {
    for s in ["", "a", "a\n", "a\r\nb", "a\n\nb\n", "\n", "a\r", "a\r\r\n", "\r\n\r\n", "x\ny\rz"] {
        let expected: Vec<String> = s.lines().map(|l| l.to_string()).collect();
        assert_eq!(split_lines(s), expected, "{:?}", s);
    }
}

#[test]
fn ignores_ascii_case_only() {
    assert!(eq_ignore_ascii_case("FFMPEG.EXE", "ffmpeg.exe"));
    assert!(eq_ignore_ascii_case("FfMpEg.exe", "ffmpeg.EXE"));
    assert!(!eq_ignore_ascii_case("ffmpeg.exe", "ffmpeg.ex"));
    assert!(!eq_ignore_ascii_case("ÄB", "äb"));
    assert!(eq_ignore_ascii_case("", ""));
}

#[test]
fn replaces_every_backslash() {
    assert_eq!(replace_backslashes("C:\\a\\b\\"), "C:/a/b/");
    assert_eq!(replace_backslashes("/x/y"), "/x/y");
}
