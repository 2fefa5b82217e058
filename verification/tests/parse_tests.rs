use youwee::parse::{
    extract_title, parse_metadata_line, parse_playlist_marker, parse_progress,
    MetadataLine,
};

#[test]
fn progress_line_full() {
    let r = parse_progress("[download]  42.0% of 10MiB at 1.2MiB/s ETA 00:05");
    let (p, sp, et, idx, cnt) = r.expect("progress update expected");
    assert_eq!(p, 4200);
    assert_eq!(sp, "1.2MiB/s");
    assert_eq!(et, "00:05");
    assert_eq!(idx, None);
    assert_eq!(cnt, None);
}

#[test]
fn progress_line_without_speed_or_eta() {
    let r = parse_progress("[download] 100%");
    let (p, sp, et, _, _) = r.expect("progress update expected");
    assert_eq!(p, 10000);
    assert_eq!(sp, "");
    assert_eq!(et, "");
}

#[test]
fn progress_integer_percent() {
    let (p, _, _, _, _) = parse_progress("[download] 7% of 1MiB").unwrap();
    assert_eq!(p, 700);
}

#[test]
fn progress_caps_at_one_hundred() {
    let (p, _, _, _, _) = parse_progress("[download] 250% of 1MiB").unwrap();
    assert_eq!(p, 10000);
}

#[test]
fn unrelated_lines_yield_no_update() {
    assert!(parse_progress("[youtube] extracting URL").is_none());
    assert!(parse_progress("warning: something 42 of note").is_none());
    assert!(parse_progress("").is_none());
    // A percent sign without the progress tag is not a progress line.
    assert!(parse_progress("done 42.0% of it").is_none());
    // The progress tag without a percentage token is not a progress line.
    assert!(parse_progress("[download] Destination: /tmp/a.mp4").is_none());
    assert!(parse_playlist_marker("no marker here").is_none());
    assert!(extract_title("no marker here").is_none());
}

#[test]
fn playlist_marker_basic() {
    let r = parse_playlist_marker("[download] Downloading item 3 of 10");
    assert_eq!(r, Some((Some(3), Some(10))));
}

#[test]
fn playlist_marker_requires_both_numbers() {
    assert!(parse_playlist_marker("Downloading item 3 of ").is_none());
    assert!(parse_playlist_marker("Downloading item  of 10").is_none());
}

#[test]
fn playlist_marker_overflowing_number() {
    // A number too large to represent leaves that side unreported.
    let r = parse_playlist_marker("Downloading item 99999999999 of 10");
    assert_eq!(r, Some((None, Some(10))));
}

#[test]
fn progress_line_with_marker_carries_it() {
    let r = parse_progress("[download] Downloading item 2 of 5, 10.5% at 1MiB/s ETA 00:09");
    let (p, sp, et, idx, cnt) = r.expect("progress update expected");
    assert_eq!(p, 1050);
    assert_eq!(sp, "1MiB/s");
    assert_eq!(et, "00:09");
    assert_eq!(idx, Some(2));
    assert_eq!(cnt, Some(5));
}

#[test]
fn title_from_destination_line() {
    let r = extract_title("[download] Destination: /home/u/Videos/My Clip.mp4");
    assert_eq!(r.as_deref(), Some("My Clip"));
}

#[test]
fn title_from_audio_extraction_line() {
    let r = extract_title("[ExtractAudio] Destination: /tmp/song.mp3");
    assert_eq!(r.as_deref(), Some("song"));
}

#[test]
fn title_needs_separator_and_extension() {
    // Without any path separator there is no title.
    assert!(extract_title("[download] Destination: noseparator.mp4").is_none());
    // Without an extension in the last segment there is no title.
    assert!(extract_title("[download] Destination: /tmp/noext").is_none());
}

#[test]
fn metadata_line_structured() {
    let r = parse_metadata_line("My Video|||https://img.example/t.jpg|||213.0");
    match r {
        MetadataLine::Structured { title, thumbnail, duration } => {
            assert_eq!(title, "My Video");
            assert_eq!(thumbnail.as_deref(), Some("https://img.example/t.jpg"));
            assert_eq!(duration, Some(213));
        }
        _ => panic!("structured line expected"),
    }
}

#[test]
fn metadata_line_missing_fields() {
    let r = parse_metadata_line("T|||NA|||NA");
    match r {
        MetadataLine::Structured { title, thumbnail, duration } => {
            assert_eq!(title, "T");
            assert_eq!(thumbnail, None);
            assert_eq!(duration, None);
        }
        _ => panic!("structured line expected"),
    }
}

#[test]
fn metadata_line_plain_title() {
    match parse_metadata_line("Some Title") {
        MetadataLine::Plain { title } => assert_eq!(title, "Some Title"),
        _ => panic!("plain title expected"),
    }
}

#[test]
fn metadata_line_tool_message_ignored() {
    assert!(matches!(
        parse_metadata_line("[youtube] extracting info"),
        MetadataLine::NoInfo
    ));
    assert!(matches!(parse_metadata_line(""), MetadataLine::NoInfo));
    // One separator is not a full structured print.
    assert!(matches!(parse_metadata_line("a|||b"), MetadataLine::NoInfo));
}

#[test]
fn metadata_duration_integer() {
    match parse_metadata_line("T|||NA|||90") {
        MetadataLine::Structured { duration, .. } => assert_eq!(duration, Some(90)),
        _ => panic!("structured line expected"),
    }
}
