use youwee::args::{
    build_download_args, build_metadata_args, extended_search_path, kill_patterns,
    metadata_detail,
};

#[test]
fn download_args_mp4() {
    let args = build_download_args(
        "https://example.test/v",
        "/out",
        "720",
        "mp4",
        "auto",
        false,
    );
    assert_eq!(
        args,
        vec![
            "--newline",
            "-f",
            "bestvideo[height<=720][ext=mp4]+bestaudio[ext=m4a]/bestvideo[height<=720]+bestaudio/best[height<=720]/best",
            "-o",
            "/out/%(title)s.%(ext)s",
            "--no-playlist",
            "--merge-output-format",
            "mp4",
            "https://example.test/v",
        ]
    );
}

#[test]
fn download_args_mp3_playlist() {
    let args = build_download_args(
        "https://example.test/v",
        "/music",
        "audio",
        "mp3",
        "auto",
        true,
    );
    assert_eq!(
        args,
        vec![
            "--newline",
            "-f",
            "bestaudio/best",
            "-o",
            "/music/%(title)s.%(ext)s",
            "-x",
            "--audio-format",
            "mp3",
            "https://example.test/v",
        ]
    );
}

#[test]
fn metadata_args_everything() {
    let args = build_metadata_args("https://example.test/v", "/meta", true, true, true, true);
    assert_eq!(
        args,
        vec![
            "--skip-download",
            "--no-warnings",
            "--no-simulate",
            "-o",
            "/meta/%(title)s",
            "-o",
            "description:/meta/%(title)s.description.txt",
            "--write-info-json",
            "--no-clean-info-json",
            "--write-description",
            "--write-comments",
            "--write-thumbnail",
            "--convert-thumbnails",
            "jpg",
            "--print",
            "%(title)s|||%(thumbnail)s|||%(duration)s",
            "https://example.test/v",
        ]
    );
}

#[test]
fn metadata_args_minimal() {
    let args = build_metadata_args("u", "/m", false, false, false, false);
    assert_eq!(
        args,
        vec![
            "--skip-download",
            "--no-warnings",
            "--no-simulate",
            "-o",
            "/m/%(title)s",
            "--print",
            "%(title)s|||%(thumbnail)s|||%(duration)s",
            "u",
        ]
    );
}

#[test]
fn comments_force_info_json() {
    let args = build_metadata_args("u", "/m", false, false, true, false);
    assert!(args.contains(&"--write-info-json".to_string()));
    assert!(args.contains(&"--write-comments".to_string()));
}

#[test]
fn metadata_detail_joins_kinds() {
    assert_eq!(metadata_detail(true, true, false, true), "info.json, description.txt, thumbnail.jpg");
    assert_eq!(metadata_detail(false, false, true, false), "info.json");
    assert_eq!(metadata_detail(false, true, false, false), "description.txt");
    assert_eq!(metadata_detail(false, false, false, true), "thumbnail.jpg");
    assert_eq!(metadata_detail(false, false, false, false), "");
}

#[test]
fn extended_path_orders_helper_directories_first() {
    assert_eq!(
        extended_search_path("/home/u", "/usr/bin:/bin"),
        "/home/u/.deno/bin:/home/u/.bun/bin:/opt/homebrew/bin:/usr/local/bin:/usr/bin:/bin"
    );
}

#[test]
fn kill_patterns_name_the_tool_family() {
    assert_eq!(kill_patterns(), vec!["yt-dlp", "ffmpeg"]);
}
