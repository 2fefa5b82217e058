use youwee::formats::{build_format_string, format_size, quality_height};

#[test]
fn audio_mp3_chain() {
    assert_eq!(build_format_string("audio", "mp3", "auto"), "bestaudio/best");
}

#[test]
fn audio_m4a_chain() {
    assert_eq!(
        build_format_string("720", "m4a", "auto"),
        "bestaudio[ext=m4a]/bestaudio/best"
    );
}

#[test]
fn audio_opus_chain() {
    assert_eq!(
        build_format_string("audio", "opus", "h264"),
        "bestaudio[ext=webm]/bestaudio/best"
    );
}

#[test]
fn audio_quality_unknown_container_chain() {
    assert_eq!(
        build_format_string("audio", "mp4", "auto"),
        "bestaudio[ext=m4a]/bestaudio/best"
    );
}

#[test]
fn mp4_no_codec_chain() {
    assert_eq!(
        build_format_string("720", "mp4", "auto"),
        "bestvideo[height<=720][ext=mp4]+bestaudio[ext=m4a]/bestvideo[height<=720]+bestaudio/best[height<=720]/best"
    );
}

#[test]
fn mp4_h264_chain() {
    assert_eq!(
        build_format_string("720", "mp4", "h264"),
        "bestvideo[height<=720][vcodec^=avc][ext=mp4]+bestaudio[ext=m4a]/bestvideo[height<=720][vcodec^=avc]+bestaudio/bestvideo[height<=720][ext=mp4]+bestaudio[ext=m4a]/bestvideo[height<=720]+bestaudio/best[height<=720]/best"
    );
}

#[test]
fn high_res_forces_vp9() {
    assert_eq!(
        build_format_string("4k", "mp4", "av1"),
        "bestvideo[height<=2160][vcodec^=vp9]+bestaudio/bestvideo[height<=2160]+bestaudio/best[height<=2160]/best"
    );
}

#[test]
fn webm_vp9_chain() {
    assert_eq!(
        build_format_string("1080", "webm", "vp9"),
        "bestvideo[height<=1080][vcodec^=vp9]+bestaudio/bestvideo[height<=1080]+bestaudio/best[height<=1080]/best"
    );
}

#[test]
fn non_mp4_no_codec_chain() {
    assert_eq!(
        build_format_string("480", "webm", "auto"),
        "bestvideo[height<=480]+bestaudio/best[height<=480]/best"
    );
}

#[test]
fn unknown_quality_no_ceiling() {
    assert_eq!(
        build_format_string("best", "mkv", "auto"),
        "bestvideo[vcodec^=vp9]+bestaudio/bestvideo+bestaudio/best"
    );
}

#[test]
fn unknown_quality_mp4_no_ceiling() {
    assert_eq!(
        build_format_string("best", "mp4", "auto"),
        "bestvideo[vcodec^=vp9]+bestaudio/bestvideo+bestaudio/best"
    );
}

#[test]
fn chains_are_nonempty_for_odd_inputs() {
    // The planner is total: even nonsense inputs get a non-empty chain
    // ending in an unconstrained alternative.
    for q in ["", "foo", "2k", "8k", "360"] {
        for f in ["", "mp4", "mp3", "mov"] {
            for c in ["", "auto", "vp9", "h264", "av1"] {
                let s = build_format_string(q, f, c);
                assert!(!s.is_empty());
                assert!(s.ends_with("/best") || s == "best");
            }
        }
    }
}

#[test]
fn quality_heights() {
    assert_eq!(quality_height("8k"), Some(4320));
    assert_eq!(quality_height("4k"), Some(2160));
    assert_eq!(quality_height("2k"), Some(1440));
    assert_eq!(quality_height("1080"), Some(1080));
    assert_eq!(quality_height("720"), Some(720));
    assert_eq!(quality_height("480"), Some(480));
    assert_eq!(quality_height("360"), Some(360));
    assert_eq!(quality_height("144"), None);
}

#[test]
fn format_size_bytes() {
    assert_eq!(format_size(0), "0 B");
    assert_eq!(format_size(512), "512 B");
    assert_eq!(format_size(1023), "1023 B");
}

#[test]
fn format_size_kilobytes() {
    assert_eq!(format_size(1024), "1.00 KB");
    assert_eq!(format_size(1536), "1.50 KB");
    assert_eq!(format_size(1045), "1.02 KB");
}

#[test]
fn format_size_megabytes() {
    assert_eq!(format_size(1048576), "1.00 MB");
    assert_eq!(format_size(3670016), "3.50 MB");
}

#[test]
fn format_size_gigabytes() {
    assert_eq!(format_size(1073741824), "1.00 GB");
    assert_eq!(format_size(1610612736), "1.50 GB");
}
