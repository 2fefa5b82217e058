//! Format planning: maps a requested quality tier, container and codec
//! preference to the external tool's format-selection expression, a
//! fallback chain ordered from most to least restrictive. Also renders
//! byte counts in human-readable form.

use vstd::prelude::*;
use crate::strutil::{dec_rep, digit_char, str_eq, u64_to_string};

verus! {

/// Container tag constraining the audio stream of an alternative.
#[derive(Clone, Copy, PartialEq, Eq, Structural, Debug)]
pub enum AudioTag {
    M4a,
    Webm,
}

/// Source codec tag constraining the video stream of an alternative.
#[derive(Clone, Copy, PartialEq, Eq, Structural, Debug)]
pub enum CodecTag {
    Avc,
    Vp9,
    Av01,
}

/// One alternative of a fallback chain.
#[derive(Clone, Copy, PartialEq, Eq, Structural, Debug)]
pub enum Alt {
    /// A bare best-audio selection, optionally pinned to a container.
    AudioOnly { ext: Option<AudioTag> },
    /// The best combined stream, optionally under a height ceiling.
    Best { height: Option<u32> },
    /// A merged best-video plus best-audio selection.
    Merge {
        height: Option<u32>,
        codec: Option<CodecTag>,
        video_mp4: bool,
        audio_m4a: bool,
    },
}

/// The alternative constrains the video height.
pub open spec fn alt_has_height(a: Alt) -> bool {
    match a {
        Alt::AudioOnly { .. } => false,
        Alt::Best { height } => height is Some,
        Alt::Merge { height, .. } => height is Some,
    }
}

/// The alternative constrains the video codec.
pub open spec fn alt_has_codec(a: Alt) -> bool {
    match a {
        Alt::Merge { codec, .. } => codec is Some,
        _ => false,
    }
}

/// The alternative constrains the video container.
pub open spec fn alt_has_video_ext(a: Alt) -> bool {
    match a {
        Alt::Merge { video_mp4, .. } => video_mp4,
        _ => false,
    }
}

/// The alternative constrains the audio container.
pub open spec fn alt_has_audio_ext(a: Alt) -> bool {
    match a {
        Alt::AudioOnly { ext } => ext is Some,
        Alt::Merge { audio_m4a, .. } => audio_m4a,
        _ => false,
    }
}

/// Every constraint kind that `b` imposes, `a` imposes too.
pub open spec fn covers(a: Alt, b: Alt) -> bool {
    &&& alt_has_height(b) ==> alt_has_height(a)
    &&& alt_has_codec(b) ==> alt_has_codec(a)
    &&& alt_has_video_ext(b) ==> alt_has_video_ext(a)
    &&& alt_has_audio_ext(b) ==> alt_has_audio_ext(a)
}

/// The alternative imposes no constraint at all.
pub open spec fn constraint_free(a: Alt) -> bool {
    !alt_has_height(a) && !alt_has_codec(a) && !alt_has_video_ext(a)
        && !alt_has_audio_ext(a)
}

/// Rendered height ceiling clause.
pub open spec fn spec_height_part(h: Option<u32>) -> Seq<char> {
    match h {
        Some(v) => "[height<="@ + dec_rep(v as nat) + "]"@,
        None => Seq::empty(),
    }
}

/// Rendered video codec clause.
pub open spec fn spec_codec_part(c: Option<CodecTag>) -> Seq<char> {
    match c {
        Some(CodecTag::Avc) => "[vcodec^=avc]"@,
        Some(CodecTag::Vp9) => "[vcodec^=vp9]"@,
        Some(CodecTag::Av01) => "[vcodec^=av01]"@,
        None => Seq::empty(),
    }
}

/// Rendered audio container clause.
pub open spec fn spec_audio_part(e: Option<AudioTag>) -> Seq<char> {
    match e {
        Some(AudioTag::M4a) => "[ext=m4a]"@,
        Some(AudioTag::Webm) => "[ext=webm]"@,
        None => Seq::empty(),
    }
}

/// Rendering of one alternative.
pub open spec fn spec_render_alt(a: Alt) -> Seq<char> {
    match a {
        Alt::AudioOnly { ext } => "bestaudio"@ + spec_audio_part(ext),
        Alt::Best { height } => "best"@ + spec_height_part(height),
        Alt::Merge { height, codec, video_mp4, audio_m4a } => "bestvideo"@
            + spec_height_part(height) + spec_codec_part(codec)
            + (if video_mp4 { "[ext=mp4]"@ } else { Seq::<char>::empty() })
            + "+bestaudio"@
            + (if audio_m4a { "[ext=m4a]"@ } else { Seq::<char>::empty() }),
    }
}

/// Rendering of a whole chain, alternatives joined by a slash.
pub open spec fn spec_render_chain(s: Seq<Alt>) -> Seq<char>
    decreases s.len(),
{
    if s.len() == 0 {
        Seq::empty()
    } else if s.len() == 1 {
        spec_render_alt(s[0])
    } else {
        spec_render_alt(s[0]) + "/"@ + spec_render_chain(s.drop_first())
    }
}

/// Height ceiling the planner associates with a quality tier.
pub open spec fn spec_quality_height(q: Seq<char>) -> Option<u32> {
    if q == "8k"@ {
        Some(4320u32)
    } else if q == "4k"@ {
        Some(2160u32)
    } else if q == "2k"@ {
        Some(1440u32)
    } else if q == "1080"@ {
        Some(1080u32)
    } else if q == "720"@ {
        Some(720u32)
    } else if q == "480"@ {
        Some(480u32)
    } else if q == "360"@ {
        Some(360u32)
    } else {
        None
    }
}

/// The tier forces the VP9-preferring filter regardless of caller preference.
pub open spec fn spec_high_res(q: Seq<char>) -> bool {
    q == "8k"@ || q == "4k"@ || q == "2k"@
}

/// Audio-only requests bypass the video planning entirely.
pub open spec fn spec_audio_only(q: Seq<char>, f: Seq<char>) -> bool {
    q == "audio"@ || f == "mp3"@ || f == "m4a"@ || f == "opus"@
}

/// Codec tag selected for a request: high-resolution tiers force VP9,
/// otherwise the caller's preference decides.
pub open spec fn spec_codec_choice(q: Seq<char>, c: Seq<char>) -> Option<CodecTag> {
    if spec_high_res(q) {
        Some(CodecTag::Vp9)
    } else if c == "h264"@ {
        Some(CodecTag::Avc)
    } else if c == "vp9"@ {
        Some(CodecTag::Vp9)
    } else if c == "av1"@ {
        Some(CodecTag::Av01)
    } else {
        None
    }
}

/// The fallback chain planned for a request, most restrictive first.
pub open spec fn spec_plan(q: Seq<char>, f: Seq<char>, c: Seq<char>) -> Seq<Alt> {
    if spec_audio_only(q, f) {
        if f == "mp3"@ {
            seq![
                Alt::AudioOnly { ext: None },
                Alt::Best { height: None },
            ]
        } else if f == "opus"@ {
            seq![
                Alt::AudioOnly { ext: Some(AudioTag::Webm) },
                Alt::AudioOnly { ext: None },
                Alt::Best { height: None },
            ]
        } else {
            seq![
                Alt::AudioOnly { ext: Some(AudioTag::M4a) },
                Alt::AudioOnly { ext: None },
                Alt::Best { height: None },
            ]
        }
    } else {
        let h = spec_quality_height(q);
        let high = spec_high_res(q);
        let codec = spec_codec_choice(q, c);
        if f == "mp4"@ {
            match h {
                Some(hv) => {
                    if high {
                        seq![
                            Alt::Merge { height: Some(hv), codec: Some(CodecTag::Vp9), video_mp4: false, audio_m4a: false },
                            Alt::Merge { height: Some(hv), codec: None, video_mp4: false, audio_m4a: false },
                            Alt::Best { height: Some(hv) },
                            Alt::Best { height: None },
                        ]
                    } else if codec is Some {
                        seq![
                            Alt::Merge { height: Some(hv), codec: codec, video_mp4: true, audio_m4a: true },
                            Alt::Merge { height: Some(hv), codec: codec, video_mp4: false, audio_m4a: false },
                            Alt::Merge { height: Some(hv), codec: None, video_mp4: true, audio_m4a: true },
                            Alt::Merge { height: Some(hv), codec: None, video_mp4: false, audio_m4a: false },
                            Alt::Best { height: Some(hv) },
                            Alt::Best { height: None },
                        ]
                    } else {
                        seq![
                            Alt::Merge { height: Some(hv), codec: None, video_mp4: true, audio_m4a: true },
                            Alt::Merge { height: Some(hv), codec: None, video_mp4: false, audio_m4a: false },
                            Alt::Best { height: Some(hv) },
                            Alt::Best { height: None },
                        ]
                    }
                },
                None => seq![
                    Alt::Merge { height: None, codec: Some(CodecTag::Vp9), video_mp4: false, audio_m4a: false },
                    Alt::Merge { height: None, codec: None, video_mp4: false, audio_m4a: false },
                    Alt::Best { height: None },
                ],
            }
        } else {
            match h {
                Some(hv) => {
                    if high {
                        seq![
                            Alt::Merge { height: Some(hv), codec: Some(CodecTag::Vp9), video_mp4: false, audio_m4a: false },
                            Alt::Merge { height: Some(hv), codec: None, video_mp4: false, audio_m4a: false },
                            Alt::Best { height: Some(hv) },
                            Alt::Best { height: None },
                        ]
                    } else if codec is Some {
                        seq![
                            Alt::Merge { height: Some(hv), codec: codec, video_mp4: false, audio_m4a: false },
                            Alt::Merge { height: Some(hv), codec: None, video_mp4: false, audio_m4a: false },
                            Alt::Best { height: Some(hv) },
                            Alt::Best { height: None },
                        ]
                    } else {
                        seq![
                            Alt::Merge { height: Some(hv), codec: None, video_mp4: false, audio_m4a: false },
                            Alt::Best { height: Some(hv) },
                            Alt::Best { height: None },
                        ]
                    }
                },
                None => seq![
                    Alt::Merge { height: None, codec: Some(CodecTag::Vp9), video_mp4: false, audio_m4a: false },
                    Alt::Merge { height: None, codec: None, video_mp4: false, audio_m4a: false },
                    Alt::Best { height: None },
                ],
            }
        }
    }
}

/// The format-selection expression planned for a request.
pub open spec fn spec_format_expr(q: Seq<char>, f: Seq<char>, c: Seq<char>) -> Seq<char> {
    spec_render_chain(spec_plan(q, f, c))
}

/// Resolution ceiling for a named quality tier; unrecognized tiers impose none.
pub fn quality_height(quality: &str) -> (r: Option<u32>)
    ensures
        r == spec_quality_height(quality@),
{
    if str_eq(quality, "8k") {
        Some(4320)
    } else if str_eq(quality, "4k") {
        Some(2160)
    } else if str_eq(quality, "2k") {
        Some(1440)
    } else if str_eq(quality, "1080") {
        Some(1080)
    } else if str_eq(quality, "720") {
        Some(720)
    } else if str_eq(quality, "480") {
        Some(480)
    } else if str_eq(quality, "360") {
        Some(360)
    } else {
        None
    }
}

/// Plans the fallback chain for a request.
pub fn plan_chain(quality: &str, format: &str, video_codec: &str) -> (r: Vec<Alt>)
    ensures
        r@ == spec_plan(quality@, format@, video_codec@),
{
    let audio_only = str_eq(quality, "audio") || str_eq(format, "mp3")
        || str_eq(format, "m4a") || str_eq(format, "opus");
    if audio_only {
        let r: Vec<Alt> = if str_eq(format, "mp3") {
            vec![
                Alt::AudioOnly { ext: None },
                Alt::Best { height: None },
            ]
        } else if str_eq(format, "opus") {
            vec![
                Alt::AudioOnly { ext: Some(AudioTag::Webm) },
                Alt::AudioOnly { ext: None },
                Alt::Best { height: None },
            ]
        } else {
            vec![
                Alt::AudioOnly { ext: Some(AudioTag::M4a) },
                Alt::AudioOnly { ext: None },
                Alt::Best { height: None },
            ]
        };
        proof {
            assert(r@ =~= spec_plan(quality@, format@, video_codec@));
        }
        return r;
    }
    let h = quality_height(quality);
    let high = str_eq(quality, "8k") || str_eq(quality, "4k") || str_eq(quality, "2k");
    let codec: Option<CodecTag> = if high {
        Some(CodecTag::Vp9)
    } else if str_eq(video_codec, "h264") {
        Some(CodecTag::Avc)
    } else if str_eq(video_codec, "vp9") {
        Some(CodecTag::Vp9)
    } else if str_eq(video_codec, "av1") {
        Some(CodecTag::Av01)
    } else {
        None
    };
    let r: Vec<Alt> = if str_eq(format, "mp4") {
        match h {
            Some(hv) => {
                if high {
                    vec![
                        Alt::Merge { height: Some(hv), codec: Some(CodecTag::Vp9), video_mp4: false, audio_m4a: false },
                        Alt::Merge { height: Some(hv), codec: None, video_mp4: false, audio_m4a: false },
                        Alt::Best { height: Some(hv) },
                        Alt::Best { height: None },
                    ]
                } else if codec.is_some() {
                    vec![
                        Alt::Merge { height: Some(hv), codec: codec, video_mp4: true, audio_m4a: true },
                        Alt::Merge { height: Some(hv), codec: codec, video_mp4: false, audio_m4a: false },
                        Alt::Merge { height: Some(hv), codec: None, video_mp4: true, audio_m4a: true },
                        Alt::Merge { height: Some(hv), codec: None, video_mp4: false, audio_m4a: false },
                        Alt::Best { height: Some(hv) },
                        Alt::Best { height: None },
                    ]
                } else {
                    vec![
                        Alt::Merge { height: Some(hv), codec: None, video_mp4: true, audio_m4a: true },
                        Alt::Merge { height: Some(hv), codec: None, video_mp4: false, audio_m4a: false },
                        Alt::Best { height: Some(hv) },
                        Alt::Best { height: None },
                    ]
                }
            },
            None => vec![
                Alt::Merge { height: None, codec: Some(CodecTag::Vp9), video_mp4: false, audio_m4a: false },
                Alt::Merge { height: None, codec: None, video_mp4: false, audio_m4a: false },
                Alt::Best { height: None },
            ],
        }
    } else {
        match h {
            Some(hv) => {
                if high {
                    vec![
                        Alt::Merge { height: Some(hv), codec: Some(CodecTag::Vp9), video_mp4: false, audio_m4a: false },
                        Alt::Merge { height: Some(hv), codec: None, video_mp4: false, audio_m4a: false },
                        Alt::Best { height: Some(hv) },
                        Alt::Best { height: None },
                    ]
                } else if codec.is_some() {
                    vec![
                        Alt::Merge { height: Some(hv), codec: codec, video_mp4: false, audio_m4a: false },
                        Alt::Merge { height: Some(hv), codec: None, video_mp4: false, audio_m4a: false },
                        Alt::Best { height: Some(hv) },
                        Alt::Best { height: None },
                    ]
                } else {
                    vec![
                        Alt::Merge { height: Some(hv), codec: None, video_mp4: false, audio_m4a: false },
                        Alt::Best { height: Some(hv) },
                        Alt::Best { height: None },
                    ]
                }
            },
            None => vec![
                Alt::Merge { height: None, codec: Some(CodecTag::Vp9), video_mp4: false, audio_m4a: false },
                Alt::Merge { height: None, codec: None, video_mp4: false, audio_m4a: false },
                Alt::Best { height: None },
            ],
        }
    };
    proof {
        assert(r@ =~= spec_plan(quality@, format@, video_codec@));
    }
    r
}

/// Renders the height ceiling clause of an alternative.
fn render_height(h: &Option<u32>) -> (r: String)
    ensures
        r@ == spec_height_part(*h),
{
    match h {
        Some(v) => {
            let mut s = String::from_str("[height<=");
            let digits = u64_to_string(*v as u64);
            s.append(digits.as_str());
            s.append("]");
            s
        },
        None => String::new(),
    }
}

/// Renders one alternative.
fn render_alt(a: &Alt) -> (r: String)
    ensures
        r@ == spec_render_alt(*a),
{
    match a {
        Alt::AudioOnly { ext } => {
            let mut s = String::from_str("bestaudio");
            match ext {
                Some(AudioTag::M4a) => s.append("[ext=m4a]"),
                Some(AudioTag::Webm) => s.append("[ext=webm]"),
                None => (),
            }
            proof {
                assert(s@ =~= spec_render_alt(*a));
            }
            s
        },
        Alt::Best { height } => {
            let mut s = String::from_str("best");
            let hp = render_height(height);
            s.append(hp.as_str());
            s
        },
        Alt::Merge { height, codec, video_mp4, audio_m4a } => {
            let mut s = String::from_str("bestvideo");
            let hp = render_height(height);
            s.append(hp.as_str());
            match codec {
                Some(CodecTag::Avc) => s.append("[vcodec^=avc]"),
                Some(CodecTag::Vp9) => s.append("[vcodec^=vp9]"),
                Some(CodecTag::Av01) => s.append("[vcodec^=av01]"),
                None => (),
            }
            if *video_mp4 {
                s.append("[ext=mp4]");
            }
            s.append("+bestaudio");
            if *audio_m4a {
                s.append("[ext=m4a]");
            }
            proof {
                assert(s@ =~= spec_render_alt(*a));
            }
            s
        },
    }
}

/// Renders the suffix of a chain that starts at `i`.
fn render_chain_from(alts: &Vec<Alt>, i: usize) -> (r: String)
    requires
        i <= alts@.len(),
    ensures
        r@ == spec_render_chain(alts@.subrange(i as int, alts@.len() as int)),
    decreases alts@.len() - i,
{
    let n = alts.len();
    if i == n {
        proof {
            assert(alts@.subrange(i as int, alts@.len() as int) =~= Seq::<Alt>::empty());
        }
        String::new()
    } else if i + 1 == n {
        let r = render_alt(&alts[i]);
        proof {
            let sub = alts@.subrange(i as int, alts@.len() as int);
            assert(sub.len() == 1);
            assert(sub[0] == alts@[i as int]);
        }
        r
    } else {
        let mut s = render_alt(&alts[i]);
        s.append("/");
        let rest = render_chain_from(alts, i + 1);
        s.append(rest.as_str());
        proof {
            let sub = alts@.subrange(i as int, alts@.len() as int);
            assert(sub.len() >= 2);
            assert(sub[0] == alts@[i as int]);
            assert(sub.drop_first() =~= alts@.subrange(i + 1, alts@.len() as int));
        }
        s
    }
}

/// Builds the format-selection expression for a request: a fallback chain
/// that the external tool evaluates left to right, most restrictive first.
pub fn build_format_string(quality: &str, format: &str, video_codec: &str) -> (r: String)
    ensures
        r@ == spec_format_expr(quality@, format@, video_codec@),
{
    let chain = plan_chain(quality, format, video_codec);
    proof {
        assert(chain@.subrange(0, chain@.len() as int) =~= chain@);
    }
    render_chain_from(&chain, 0)
}

/// Every alternative of a rendered chain begins with a best-stream selector,
/// so its rendering is never empty.
proof fn lemma_render_alt_nonempty(a: Alt)
    ensures
        spec_render_alt(a).len() > 0,
{
    reveal_strlit("bestaudio");
    reveal_strlit("best");
    reveal_strlit("bestvideo");
}

/// The planned chain always exists, starts with the alternative that carries
/// every constraint the chain uses, ends unconstrained, and renders to a
/// non-empty expression.
pub proof fn lemma_plan_shape(q: Seq<char>, f: Seq<char>, c: Seq<char>)
    ensures
        spec_plan(q, f, c).len() >= 1,
        forall|i: int| 0 <= i < spec_plan(q, f, c).len() ==> covers(
            spec_plan(q, f, c)[0],
            #[trigger] spec_plan(q, f, c)[i],
        ),
        constraint_free(spec_plan(q, f, c).last()),
        spec_format_expr(q, f, c).len() > 0,
{
    let plan = spec_plan(q, f, c);
    assert(plan.len() >= 1);
    assert forall|i: int| 0 <= i < plan.len() implies covers(plan[0], #[trigger] plan[i]) by {}
    assert(constraint_free(plan.last()));
    lemma_render_alt_nonempty(plan[0]);
    if plan.len() == 1 {
        assert(spec_render_chain(plan) == spec_render_alt(plan[0]));
    } else {
        assert(spec_render_chain(plan).len() >= spec_render_alt(plan[0]).len());
    }
}

/// Two zero-padded digits for a value below one hundred.
pub open spec fn two_digits(h: nat) -> Seq<char> {
    seq![digit_char(h / 10), digit_char(h % 10)]
}

/// `whole` units and a correctly rounded two-digit fraction of `bytes / unit`,
/// rounding half up, carrying into the unit place.
pub open spec fn spec_scaled(bytes: u64, unit: u64) -> Seq<char>
    recommends
        unit > 0,
{
    let whole = bytes as nat / unit as nat;
    let frac = bytes as nat % unit as nat;
    let hund = (frac * 100 + unit as nat / 2) / unit as nat;
    if hund == 100 {
        dec_rep(whole + 1) + "."@ + two_digits(0)
    } else {
        dec_rep(whole) + "."@ + two_digits(hund)
    }
}

/// Human-readable rendering of a byte count, scaled to the largest binary
/// unit it reaches.
pub open spec fn spec_format_size(bytes: u64) -> Seq<char> {
    if bytes >= 1073741824 {
        spec_scaled(bytes, 1073741824) + " GB"@
    } else if bytes >= 1048576 {
        spec_scaled(bytes, 1048576) + " MB"@
    } else if bytes >= 1024 {
        spec_scaled(bytes, 1024) + " KB"@
    } else {
        dec_rep(bytes as nat) + " B"@
    }
}

/// Renders `bytes / unit` with two rounded fraction digits.
fn render_scaled(bytes: u64, unit: u64) -> (r: String)
    requires
        1 < unit <= 1073741824,
    ensures
        r@ == spec_scaled(bytes, unit),
{
    let whole = bytes / unit;
    let frac = bytes % unit;
    let hund = (frac * 100 + unit / 2) / unit;
    proof {
        let f = frac as int;
        let u = unit as int;
        assert(f * 100 + u / 2 < u * 101) by (nonlinear_arith)
            requires
                f < u,
                u > 1,
        ;
        assert((f * 100 + u / 2) / u < 101) by (nonlinear_arith)
            requires
                f * 100 + u / 2 < u * 101,
                u > 1,
        ;
    }
    let (w, h) = if hund == 100 {
        proof {
            assert(bytes as int / unit as int <= bytes as int / 2) by (nonlinear_arith)
                requires
                    unit >= 2,
                    bytes >= 0,
            ;
        }
        (whole + 1, 0u64)
    } else {
        (whole, hund)
    };
    let mut s = u64_to_string(w);
    s.append(".");
    let tens = digit_str_pair(h);
    s.append(tens.as_str());
    s
}

/// Two zero-padded decimal digits.
fn digit_str_pair(h: u64) -> (r: String)
    requires
        h < 100,
    ensures
        r@ == two_digits(h as nat),
{
    let mut s = u64_to_string(h / 10);
    let low = u64_to_string(h % 10);
    s.append(low.as_str());
    s
}

/// Formats a byte count for humans: the largest reached binary unit with two
/// rounded fraction digits, or a plain byte count below one kibibyte.
pub fn format_size(bytes: u64) -> (r: String)
    ensures
        r@ == spec_format_size(bytes),
{
    if bytes >= 1073741824 {
        let mut s = render_scaled(bytes, 1073741824);
        s.append(" GB");
        s
    } else if bytes >= 1048576 {
        let mut s = render_scaled(bytes, 1048576);
        s.append(" MB");
        s
    } else if bytes >= 1024 {
        let mut s = render_scaled(bytes, 1024);
        s.append(" KB");
        s
    } else {
        let mut s = u64_to_string(bytes);
        s.append(" B");
        s
    }
}

} // verus!
