//! Argument assembly for the external tool: the exact argument vectors of a
//! download and of a metadata fetch, the extended search path for helper
//! tools, and the process names the cancellation sweep kills.

use vstd::prelude::*;
use crate::formats::{build_format_string, spec_format_expr};
use crate::strutil::str_eq;

verus! {

/// Views of the owned strings of a vector.
pub open spec fn strs_view(v: Seq<String>) -> Seq<Seq<char>> {
    v.map_values(|s: String| s@)
}

/// The argument vector of a download: newline-buffered progress, the format
/// expression, the title-templated output path, the playlist switch, the
/// container post-processing flags, and the source address last.
pub open spec fn spec_download_args(
    url: Seq<char>,
    dir: Seq<char>,
    quality: Seq<char>,
    format: Seq<char>,
    codec: Seq<char>,
    playlist: bool,
) -> Seq<Seq<char>> {
    let base = seq![
        "--newline"@,
        "-f"@,
        spec_format_expr(quality, format, codec),
        "-o"@,
        dir + "/%(title)s.%(ext)s"@,
    ];
    let a1 = if !playlist {
        base.push("--no-playlist"@)
    } else {
        base
    };
    let a2 = if format != "mp3"@ {
        a1 + seq!["--merge-output-format"@, format]
    } else {
        a1
    };
    let a3 = if format == "mp3"@ {
        a2 + seq!["-x"@, "--audio-format"@, "mp3"@]
    } else {
        a2
    };
    a3.push(url)
}

/// Builds the argument vector of a download.
pub fn build_download_args(
    url: &str,
    output_path: &str,
    quality: &str,
    format: &str,
    video_codec: &str,
    download_playlist: bool,
) -> (r: Vec<String>)
    ensures
        strs_view(r@) == spec_download_args(
            url@,
            output_path@,
            quality@,
            format@,
            video_codec@,
            download_playlist,
        ),
{
    let mut args: Vec<String> = Vec::new();
    args.push(String::from_str("--newline"));
    args.push(String::from_str("-f"));
    args.push(build_format_string(quality, format, video_codec));
    args.push(String::from_str("-o"));
    let mut template = String::from_str(output_path);
    template.append("/%(title)s.%(ext)s");
    args.push(template);
    if !download_playlist {
        args.push(String::from_str("--no-playlist"));
    }
    let is_mp3 = str_eq(format, "mp3");
    if !is_mp3 {
        args.push(String::from_str("--merge-output-format"));
        args.push(String::from_str(format));
    }
    if is_mp3 {
        args.push(String::from_str("-x"));
        args.push(String::from_str("--audio-format"));
        args.push(String::from_str("mp3"));
    }
    args.push(String::from_str(url));
    proof {
        assert(strs_view(args@) =~~= spec_download_args(
            url@,
            output_path@,
            quality@,
            format@,
            video_codec@,
            download_playlist,
        ));
    }
    args
}

/// The argument vector of a metadata fetch: skip the download but write the
/// requested artifacts, print the delimited title, thumbnail and duration,
/// and the source address last. Requested comments force the info file.
pub open spec fn spec_metadata_args(
    url: Seq<char>,
    dir: Seq<char>,
    write_info_json: bool,
    write_description: bool,
    write_comments: bool,
    write_thumbnail: bool,
) -> Seq<Seq<char>> {
    let base = seq![
        "--skip-download"@,
        "--no-warnings"@,
        "--no-simulate"@,
        "-o"@,
        dir + "/%(title)s"@,
    ];
    let a1 = if write_description {
        base + seq!["-o"@, "description:"@ + dir + "/%(title)s.description.txt"@]
    } else {
        base
    };
    let a2 = if write_info_json || write_comments {
        a1 + seq!["--write-info-json"@, "--no-clean-info-json"@]
    } else {
        a1
    };
    let a3 = if write_description {
        a2.push("--write-description"@)
    } else {
        a2
    };
    let a4 = if write_comments {
        a3.push("--write-comments"@)
    } else {
        a3
    };
    let a5 = if write_thumbnail {
        a4 + seq!["--write-thumbnail"@, "--convert-thumbnails"@, "jpg"@]
    } else {
        a4
    };
    a5 + seq!["--print"@, "%(title)s|||%(thumbnail)s|||%(duration)s"@, url]
}

/// Builds the argument vector of a metadata fetch.
pub fn build_metadata_args(
    url: &str,
    output_path: &str,
    write_info_json: bool,
    write_description: bool,
    write_comments: bool,
    write_thumbnail: bool,
) -> (r: Vec<String>)
    ensures
        strs_view(r@) == spec_metadata_args(
            url@,
            output_path@,
            write_info_json,
            write_description,
            write_comments,
            write_thumbnail,
        ),
{
    let mut args: Vec<String> = Vec::new();
    args.push(String::from_str("--skip-download"));
    args.push(String::from_str("--no-warnings"));
    args.push(String::from_str("--no-simulate"));
    args.push(String::from_str("-o"));
    let mut template = String::from_str(output_path);
    template.append("/%(title)s");
    args.push(template);
    if write_description {
        args.push(String::from_str("-o"));
        let mut d = String::from_str("description:");
        d.append(output_path);
        d.append("/%(title)s.description.txt");
        args.push(d);
    }
    if write_info_json || write_comments {
        args.push(String::from_str("--write-info-json"));
        args.push(String::from_str("--no-clean-info-json"));
    }
    if write_description {
        args.push(String::from_str("--write-description"));
    }
    if write_comments {
        args.push(String::from_str("--write-comments"));
    }
    if write_thumbnail {
        args.push(String::from_str("--write-thumbnail"));
        args.push(String::from_str("--convert-thumbnails"));
        args.push(String::from_str("jpg"));
    }
    args.push(String::from_str("--print"));
    args.push(String::from_str("%(title)s|||%(thumbnail)s|||%(duration)s"));
    args.push(String::from_str(url));
    proof {
        assert(strs_view(args@) =~~= spec_metadata_args(
            url@,
            output_path@,
            write_info_json,
            write_description,
            write_comments,
            write_thumbnail,
        ));
    }
    args
}

/// The artifact kinds a metadata fetch saves, joined for the history record.
pub open spec fn spec_metadata_detail(
    write_info_json: bool,
    write_description: bool,
    write_comments: bool,
    write_thumbnail: bool,
) -> Seq<char> {
    let s1: Seq<char> = if write_info_json || write_comments {
        "info.json"@
    } else {
        Seq::empty()
    };
    let s2: Seq<char> = if write_description {
        if s1.len() > 0 {
            s1 + ", "@ + "description.txt"@
        } else {
            "description.txt"@
        }
    } else {
        s1
    };
    if write_thumbnail {
        if s2.len() > 0 {
            s2 + ", "@ + "thumbnail.jpg"@
        } else {
            "thumbnail.jpg"@
        }
    } else {
        s2
    }
}

/// Names the artifact kinds a metadata fetch saves.
pub fn metadata_detail(
    write_info_json: bool,
    write_description: bool,
    write_comments: bool,
    write_thumbnail: bool,
) -> (r: String)
    ensures
        r@ == spec_metadata_detail(
            write_info_json,
            write_description,
            write_comments,
            write_thumbnail,
        ),
{
    proof {
        reveal_strlit("info.json");
        reveal_strlit("description.txt");
        reveal_strlit("thumbnail.jpg");
    }
    let mut s = String::new();
    let mut nonempty = false;
    if write_info_json || write_comments {
        s.append("info.json");
        nonempty = true;
    }
    if write_description {
        if nonempty {
            s.append(", ");
        }
        s.append("description.txt");
        nonempty = true;
    }
    if write_thumbnail {
        if nonempty {
            s.append(", ");
        }
        s.append("thumbnail.jpg");
    }
    s
}

/// The search path handed to the spawned tool: the known helper install
/// directories under the home directory and the system, ahead of the
/// caller's own path.
pub open spec fn spec_extended_path(home: Seq<char>, current: Seq<char>) -> Seq<char> {
    home + "/.deno/bin:"@ + home + "/.bun/bin:/opt/homebrew/bin:/usr/local/bin:"@
        + current
}

/// Builds the extended search path for the spawned tool's environment.
pub fn extended_search_path(home: &str, current: &str) -> (r: String)
    ensures
        r@ == spec_extended_path(home@, current@),
{
    let mut s = String::from_str(home);
    s.append("/.deno/bin:");
    s.append(home);
    s.append("/.bun/bin:/opt/homebrew/bin:/usr/local/bin:");
    s.append(current);
    s
}

/// The process names the cancellation sweep kills: the download tool and the
/// transcoder it spawns.
pub fn kill_patterns() -> (r: Vec<String>)
    ensures
        strs_view(r@) == seq!["yt-dlp"@, "ffmpeg"@],
{
    let mut v: Vec<String> = Vec::new();
    v.push(String::from_str("yt-dlp"));
    v.push(String::from_str("ffmpeg"));
    proof {
        assert(strs_view(v@) =~~= seq!["yt-dlp"@, "ffmpeg"@]);
    }
    v
}

} // verus!
