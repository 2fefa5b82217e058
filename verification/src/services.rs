//! Status decisions for the helper tools: how probe results become a tool
//! status, how the transcoder's version banner is read, and where each
//! platform downloads the helpers from.

use vstd::prelude::*;
use crate::parse::{
    ffind_char, is_ws, nonws_run_end, scan_nonws, scan_ws, spec_first_char, ws_run_end,
};
use crate::session::ov;
use crate::strutil::{matches_at, occurs_at};

verus! {

/// First position of `s` past the leading whitespace.
pub open spec fn spec_trim_start(s: Seq<char>) -> int {
    ws_run_end(s, 0)
}

/// One past the last non-whitespace character of `s[..n]`.
pub open spec fn trim_end_from(s: Seq<char>, n: int) -> int
    decreases n when 0 <= n <= s.len()
{
    if n <= 0 {
        0
    } else if is_ws(s[n - 1]) {
        trim_end_from(s, n - 1)
    } else {
        n
    }
}

/// `s` without leading and trailing whitespace.
pub open spec fn spec_trim(s: Seq<char>) -> Seq<char> {
    let a = spec_trim_start(s);
    let b = trim_end_from(s, s.len() as int);
    if a <= b {
        s.subrange(a, b)
    } else {
        Seq::empty()
    }
}

/// A whitespace run from `b` to `k` with a non-whitespace (or the start)
/// just before `b` pins `trim_end_from` down to `b`.
proof fn lemma_trim_end_pin(s: Seq<char>, b: int, k: int)
    requires
        0 <= b <= k <= s.len(),
        forall|m: int| b <= m < k ==> is_ws(#[trigger] s[m]),
        b == 0 || !is_ws(s[b - 1]),
    ensures
        trim_end_from(s, k) == b,
    decreases k - b,
{
    if b < k {
        lemma_trim_end_pin(s, b, k - 1);
    }
}

/// Strips leading and trailing whitespace.
pub fn trim(s: &str) -> (r: String)
    ensures
        r@ == spec_trim(s@),
{
    let slen = s.unicode_len();
    let a = scan_ws(s, slen, 0);
    let mut b: usize = slen;
    loop
        invariant
            slen == s@.len(),
            b <= slen,
            forall|m: int| b <= m < slen ==> is_ws(#[trigger] s@[m]),
        ensures
            b <= slen,
            forall|m: int| b <= m < slen ==> is_ws(#[trigger] s@[m]),
            b == 0 || !is_ws(s@[b - 1]),
        decreases b,
    {
        if b == 0 {
            break;
        }
        if !crate::parse::ws(s.get_char(b - 1)) {
            break;
        }
        b -= 1;
    }
    proof {
        lemma_trim_end_pin(s@, b as int, slen as int);
    }
    if a >= b {
        proof {
            if spec_trim_start(s@) <= trim_end_from(s@, slen as int) {
                assert(s@.subrange(a as int, b as int) =~= Seq::<char>::empty());
            }
        }
        String::new()
    } else {
        String::from_str(s.substring_char(a, b))
    }
}

/// The version token of the transcoder's banner line: the word after the
/// version prefix, or a placeholder when the line has no such shape.
pub open spec fn version_of_line(line: Seq<char>) -> Seq<char> {
    if occurs_at(line, "ffmpeg version "@, 0) {
        let w = ws_run_end(line, 15);
        if w < line.len() {
            line.subrange(w, nonws_run_end(line, w))
        } else {
            "unknown"@
        }
    } else {
        "unknown"@
    }
}

/// The version the transcoder's whole output reports: read from its first
/// line alone.
pub open spec fn spec_ffmpeg_version(s: Seq<char>) -> Seq<char> {
    let nl = match spec_first_char(s, '\n') {
        Some(j) => j,
        None => s.len() as int,
    };
    version_of_line(s.subrange(0, nl))
}

/// Reads the transcoder version from its banner output.
pub fn parse_ffmpeg_version(output: &str) -> (r: String)
    ensures
        r@ == spec_ffmpeg_version(output@),
{
    let slen = output.unicode_len();
    let nl = match ffind_char(output, slen, '\n') {
        Some(j) => j,
        None => slen,
    };
    proof {
        crate::parse::lemma_first_char(output@, '\n');
    }
    let line = output.substring_char(0, nl);
    let llen = line.unicode_len();
    proof {
        reveal_strlit("ffmpeg version ");
    }
    if matches_at(line, llen, "ffmpeg version ", 0) {
        let w = scan_ws(line, llen, 15);
        if w < llen {
            let e = scan_nonws(line, llen, w);
            String::from_str(line.substring_char(w, e))
        } else {
            String::from_str("unknown")
        }
    } else {
        String::from_str("unknown")
    }
}

/// Availability of the script runtime on this machine.
#[derive(Clone, Debug)]
pub struct BunStatus {
    pub installed: bool,
    pub version: Option<String>,
    pub binary_path: Option<String>,
    pub is_system: bool,
}

/// Availability of the transcoder on this machine.
#[derive(Clone, Debug)]
pub struct FfmpegStatus {
    pub installed: bool,
    pub version: Option<String>,
    pub binary_path: Option<String>,
    pub is_system: bool,
}

/// Decides the script runtime's status from the probe results: a working
/// managed install wins over a working system install; neither means not
/// installed. The version is the probe's output, trimmed.
pub fn bun_status_from_probe(
    app_version: Option<String>,
    app_path: Option<String>,
    sys_version: Option<String>,
    sys_path: Option<String>,
) -> (r: BunStatus)
    ensures
        match app_version {
            Some(v) => r.installed && ov(r.version) == Some(spec_trim(v@)) && ov(
                r.binary_path,
            ) == ov(app_path) && !r.is_system,
            None => match sys_version {
                Some(v) => r.installed && ov(r.version) == Some(spec_trim(v@)) && ov(
                    r.binary_path,
                ) == ov(sys_path) && r.is_system,
                None => !r.installed && r.version is None && r.binary_path is None
                    && !r.is_system,
            },
        },
{
    match app_version {
        Some(v) => BunStatus {
            installed: true,
            version: Some(trim(v.as_str())),
            binary_path: app_path,
            is_system: false,
        },
        None => match sys_version {
            Some(v) => BunStatus {
                installed: true,
                version: Some(trim(v.as_str())),
                binary_path: sys_path,
                is_system: true,
            },
            None => BunStatus {
                installed: false,
                version: None,
                binary_path: None,
                is_system: false,
            },
        },
    }
}

/// Decides the transcoder's status from the probe results: a managed install
/// that answered wins over a working system install; neither means not
/// installed. The version is read from the probe's banner output.
pub fn ffmpeg_status_from_probe(
    app_output: Option<String>,
    app_path: Option<String>,
    sys_output: Option<String>,
    sys_path: Option<String>,
) -> (r: FfmpegStatus)
    ensures
        match app_output {
            Some(out) => r.installed && ov(r.version) == Some(spec_ffmpeg_version(out@))
                && ov(r.binary_path) == ov(app_path) && !r.is_system,
            None => match sys_output {
                Some(out) => r.installed && ov(r.version) == Some(
                    spec_ffmpeg_version(out@),
                ) && ov(r.binary_path) == ov(sys_path) && r.is_system,
                None => !r.installed && r.version is None && r.binary_path is None
                    && !r.is_system,
            },
        },
{
    match app_output {
        Some(out) => FfmpegStatus {
            installed: true,
            version: Some(parse_ffmpeg_version(out.as_str())),
            binary_path: app_path,
            is_system: false,
        },
        None => match sys_output {
            Some(out) => FfmpegStatus {
                installed: true,
                version: Some(parse_ffmpeg_version(out.as_str())),
                binary_path: sys_path,
                is_system: true,
            },
            None => FfmpegStatus {
                installed: false,
                version: None,
                binary_path: None,
                is_system: false,
            },
        },
    }
}

/// Picks the tool binary to run: a managed install under the data directory
/// wins over one found on the system search path; neither means the tool is
/// unavailable.
pub fn resolve_tool_path(app_path: Option<String>, system_path: Option<String>) -> (r: Option<
    String,
>)
    ensures
        match app_path {
            Some(p) => ov(r) == Some(p@),
            None => ov(r) == ov(system_path),
        },
{
    match app_path {
        Some(p) => Some(p),
        None => system_path,
    }
}

/// Operating system a helper download targets.
#[derive(Clone, Copy, PartialEq, Eq, Structural, Debug)]
pub enum Os {
    MacOs,
    Windows,
    Linux,
    Other,
}

/// Processor family a helper download targets.
#[derive(Clone, Copy, PartialEq, Eq, Structural, Debug)]
pub enum Arch {
    Aarch64,
    X86_64,
    Other,
}

/// Download address of the script runtime for a platform.
pub open spec fn spec_bun_url(os: Os, arch: Arch) -> Seq<char> {
    match os {
        Os::MacOs => if arch == Arch::X86_64 {
            "https://github.com/oven-sh/bun/releases/latest/download/bun-darwin-x64.zip"@
        } else {
            "https://github.com/oven-sh/bun/releases/latest/download/bun-darwin-aarch64.zip"@
        },
        Os::Windows => "https://github.com/oven-sh/bun/releases/latest/download/bun-windows-x64.zip"@,
        Os::Linux => if arch == Arch::Aarch64 {
            "https://github.com/oven-sh/bun/releases/latest/download/bun-linux-aarch64.zip"@
        } else {
            "https://github.com/oven-sh/bun/releases/latest/download/bun-linux-x64.zip"@
        },
        Os::Other => Seq::empty(),
    }
}

/// Where to download the script runtime for a platform.
pub fn get_bun_download_url(os: Os, arch: Arch) -> (r: String)
    ensures
        r@ == spec_bun_url(os, arch),
{
    match os {
        Os::MacOs => if arch == Arch::X86_64 {
            String::from_str(
                "https://github.com/oven-sh/bun/releases/latest/download/bun-darwin-x64.zip",
            )
        } else {
            String::from_str(
                "https://github.com/oven-sh/bun/releases/latest/download/bun-darwin-aarch64.zip",
            )
        },
        Os::Windows => String::from_str(
            "https://github.com/oven-sh/bun/releases/latest/download/bun-windows-x64.zip",
        ),
        Os::Linux => if arch == Arch::Aarch64 {
            String::from_str(
                "https://github.com/oven-sh/bun/releases/latest/download/bun-linux-aarch64.zip",
            )
        } else {
            String::from_str(
                "https://github.com/oven-sh/bun/releases/latest/download/bun-linux-x64.zip",
            )
        },
        Os::Other => String::new(),
    }
}

/// Download address and archive kind of the transcoder for a platform.
pub open spec fn spec_ffmpeg_download_info(os: Os, arch: Arch) -> (Seq<char>, Seq<char>) {
    match os {
        Os::MacOs => if arch == Arch::X86_64 {
            (
                "https://github.com/vanloctech/youwee/releases/download/ffmpeg-v1.0.0/ffmpeg-macos-x64.tar.gz"@,
                "tar.gz"@,
            )
        } else {
            (
                "https://github.com/vanloctech/youwee/releases/download/ffmpeg-v1.0.0/ffmpeg-macos-arm64.tar.gz"@,
                "tar.gz"@,
            )
        },
        Os::Windows => (
            "https://www.gyan.dev/ffmpeg/builds/ffmpeg-release-essentials.zip"@,
            "zip"@,
        ),
        Os::Linux => (
            "https://johnvansickle.com/ffmpeg/releases/ffmpeg-release-amd64-static.tar.xz"@,
            "tar.xz"@,
        ),
        Os::Other => (Seq::empty(), Seq::empty()),
    }
}

/// Where to download the transcoder for a platform, and the archive kind the
/// address serves.
pub fn get_ffmpeg_download_info(os: Os, arch: Arch) -> (r: (String, String))
    ensures
        r.0@ == spec_ffmpeg_download_info(os, arch).0,
        r.1@ == spec_ffmpeg_download_info(os, arch).1,
{
    match os {
        Os::MacOs => if arch == Arch::X86_64 {
            (
                String::from_str(
                    "https://github.com/vanloctech/youwee/releases/download/ffmpeg-v1.0.0/ffmpeg-macos-x64.tar.gz",
                ),
                String::from_str("tar.gz"),
            )
        } else {
            (
                String::from_str(
                    "https://github.com/vanloctech/youwee/releases/download/ffmpeg-v1.0.0/ffmpeg-macos-arm64.tar.gz",
                ),
                String::from_str("tar.gz"),
            )
        },
        Os::Windows => (
            String::from_str(
                "https://www.gyan.dev/ffmpeg/builds/ffmpeg-release-essentials.zip",
            ),
            String::from_str("zip"),
        ),
        Os::Linux => (
            String::from_str(
                "https://johnvansickle.com/ffmpeg/releases/ffmpeg-release-amd64-static.tar.xz",
            ),
            String::from_str("tar.xz"),
        ),
        Os::Other => (String::new(), String::new()),
    }
}

} // verus!
