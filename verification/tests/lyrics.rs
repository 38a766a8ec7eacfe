use euphonica::lyrics::{parse_synced_line, split_lrclib_lines, Lyrics, LyricsParseError};

#[test]
fn plain_lyrics_roundtrip() {
    let text = "first line\n\nthird line\n";
    let lyrics = Lyrics::try_from_plain_lrclib_str(text).unwrap();
    assert_eq!(lyrics.n_lines(), 4);
    assert!(!lyrics.synced);
    assert_eq!(lyrics.to_plain_lines(), vec!["first line", "", "third line", ""]);
    assert_eq!(lyrics.to_plain_string(), text);
}

#[test]
fn split_rows() {
    assert_eq!(split_lrclib_lines("a\nb"), vec!["a", "b"]);
    assert_eq!(split_lrclib_lines(""), vec![""]);
}

#[test]
fn synced_row_parts() {
    let row = parse_synced_line("[01:02.50]Hello there").unwrap();
    assert_eq!(row.minutes, "01");
    assert_eq!(row.seconds, "02.50");
    assert_eq!(row.text, "Hello there");
    let empty = parse_synced_line("[00:10.00]").unwrap();
    assert_eq!(empty.text, "");
}

#[test]
fn synced_row_errors() {
    assert_eq!(
        parse_synced_line("no stamp").err(),
        Some(LyricsParseError::TimestampNotFoundError)
    );
    assert_eq!(
        parse_synced_line("[1:2:3]x").err(),
        Some(LyricsParseError::TimestampFormatError)
    );
    assert_eq!(
        parse_synced_line("[12.5]x").err(),
        Some(LyricsParseError::TimestampFormatError)
    );
}
