use youwee::services::{
    bun_status_from_probe, ffmpeg_status_from_probe, get_bun_download_url,
    get_ffmpeg_download_info, parse_ffmpeg_version, resolve_tool_path, trim, Arch, Os,
};

#[test]
fn tool_path_prefers_managed_install() {
    assert_eq!(
        resolve_tool_path(Some("/data/bin/yt-dlp".to_string()), Some("/usr/bin/yt-dlp".to_string())),
        Some("/data/bin/yt-dlp".to_string())
    );
    assert_eq!(
        resolve_tool_path(None, Some("/usr/bin/yt-dlp".to_string())),
        Some("/usr/bin/yt-dlp".to_string())
    );
    assert_eq!(resolve_tool_path(None, None), None);
}

#[test]
fn ffmpeg_version_from_banner() {
    let out = "ffmpeg version 6.1.1 Copyright (c) 2000-2023\nbuilt with gcc";
    assert_eq!(parse_ffmpeg_version(out), "6.1.1");
}

#[test]
fn ffmpeg_version_single_line() {
    assert_eq!(parse_ffmpeg_version("ffmpeg version 4.4"), "4.4");
}

#[test]
fn ffmpeg_version_unknown_shapes() {
    assert_eq!(parse_ffmpeg_version(""), "unknown");
    assert_eq!(parse_ffmpeg_version("not ffmpeg output"), "unknown");
    assert_eq!(parse_ffmpeg_version("ffmpeg version "), "unknown");
    // The version is read from the first line alone.
    assert_eq!(parse_ffmpeg_version("garbage\nffmpeg version 9.9"), "unknown");
}

#[test]
fn trim_strips_both_ends() {
    assert_eq!(trim("  1.2.19\n"), "1.2.19");
    assert_eq!(trim("x"), "x");
    assert_eq!(trim("   "), "");
    assert_eq!(trim(""), "");
}

#[test]
fn bun_status_prefers_managed_install() {
    let r = bun_status_from_probe(
        Some("1.2.19\n".to_string()),
        Some("/data/bin/bun".to_string()),
        Some("1.0.0".to_string()),
        Some("/usr/local/bin/bun".to_string()),
    );
    assert!(r.installed);
    assert!(!r.is_system);
    assert_eq!(r.version.as_deref(), Some("1.2.19"));
    assert_eq!(r.binary_path.as_deref(), Some("/data/bin/bun"));
}

#[test]
fn bun_status_falls_back_to_system() {
    let r = bun_status_from_probe(
        None,
        None,
        Some("1.0.0\n".to_string()),
        Some("/usr/local/bin/bun".to_string()),
    );
    assert!(r.installed);
    assert!(r.is_system);
    assert_eq!(r.version.as_deref(), Some("1.0.0"));
    assert_eq!(r.binary_path.as_deref(), Some("/usr/local/bin/bun"));
}

#[test]
fn bun_status_not_installed() {
    let r = bun_status_from_probe(None, None, None, None);
    assert!(!r.installed);
    assert_eq!(r.version, None);
    assert_eq!(r.binary_path, None);
    assert!(!r.is_system);
}

#[test]
fn ffmpeg_status_reads_banner() {
    let r = ffmpeg_status_from_probe(
        Some("ffmpeg version 6.0 Copyright".to_string()),
        Some("/data/bin/ffmpeg".to_string()),
        None,
        None,
    );
    assert!(r.installed);
    assert!(!r.is_system);
    assert_eq!(r.version.as_deref(), Some("6.0"));
    assert_eq!(r.binary_path.as_deref(), Some("/data/bin/ffmpeg"));
}

#[test]
fn ffmpeg_status_not_installed() {
    let r = ffmpeg_status_from_probe(None, None, None, None);
    assert!(!r.installed);
    assert_eq!(r.version, None);
}

#[test]
fn bun_urls_per_platform() {
    assert_eq!(
        get_bun_download_url(Os::MacOs, Arch::Aarch64),
        "https://github.com/oven-sh/bun/releases/latest/download/bun-darwin-aarch64.zip"
    );
    assert_eq!(
        get_bun_download_url(Os::MacOs, Arch::X86_64),
        "https://github.com/oven-sh/bun/releases/latest/download/bun-darwin-x64.zip"
    );
    assert_eq!(
        get_bun_download_url(Os::Windows, Arch::X86_64),
        "https://github.com/oven-sh/bun/releases/latest/download/bun-windows-x64.zip"
    );
    assert_eq!(
        get_bun_download_url(Os::Linux, Arch::Aarch64),
        "https://github.com/oven-sh/bun/releases/latest/download/bun-linux-aarch64.zip"
    );
    assert_eq!(
        get_bun_download_url(Os::Linux, Arch::X86_64),
        "https://github.com/oven-sh/bun/releases/latest/download/bun-linux-x64.zip"
    );
    assert_eq!(get_bun_download_url(Os::Other, Arch::Other), "");
}

#[test]
fn ffmpeg_download_info_per_platform() {
    let (url, kind) = get_ffmpeg_download_info(Os::MacOs, Arch::Aarch64);
    assert!(url.ends_with("ffmpeg-macos-arm64.tar.gz"));
    assert_eq!(kind, "tar.gz");
    let (url, kind) = get_ffmpeg_download_info(Os::Windows, Arch::X86_64);
    assert_eq!(url, "https://www.gyan.dev/ffmpeg/builds/ffmpeg-release-essentials.zip");
    assert_eq!(kind, "zip");
    let (url, kind) = get_ffmpeg_download_info(Os::Linux, Arch::X86_64);
    assert_eq!(
        url,
        "https://johnvansickle.com/ffmpeg/releases/ffmpeg-release-amd64-static.tar.xz"
    );
    assert_eq!(kind, "tar.xz");
}
