//! Building the process invocations of a job from the options the user picked.

use vstd::prelude::*;
use vstd::string::StringExecFns;
use crate::job::{Invocation, JobSpec, ProgressStyle};

verus! {

/// A quality level, best first.
#[derive(Clone, Copy, Debug, PartialEq, Eq, Structural, Default)]
pub enum Quality {
    #[default]
    Original,
    Good,
    Medium,
    Bad,
    Poop,
}

/// What the front end is asked to do.
#[derive(Clone, Copy, Debug, PartialEq, Eq, Structural, Default)]
pub enum AppMode {
    #[default]
    Audio,
    Video,
    Download,
    Advanced,
}

/// The extension an output file gets when none was given: audio and video
/// conversions have one, other modes none.
pub open spec fn mode_extension(mode: AppMode) -> Option<Seq<char>> {
    match mode {
        AppMode::Audio => Some("mp3"@),
        AppMode::Video => Some("mp4"@),
        _ => None,
    }
}

impl AppMode {
    /// The extension an output file gets when none was given.
    pub fn default_extension(self) -> (r: Option<&'static str>)
        ensures
            r matches Some(e) ==> mode_extension(self) == Some(e@),
            r is None ==> mode_extension(self) is None,
    {
        match self {
            AppMode::Audio => Some("mp3"),
            AppMode::Video => Some("mp4"),
            _ => None,
        }
    }
}

/// The quality level with the given index, best first.
pub open spec fn quality_at(num: int) -> Quality {
    if num == 0 {
        Quality::Original
    } else if num == 1 {
        Quality::Good
    } else if num == 2 {
        Quality::Medium
    } else if num == 3 {
        Quality::Bad
    } else {
        Quality::Poop
    }
}

impl Quality {
    /// The quality level with index `num`, best first.
    pub fn from_usize(num: usize) -> (r: Quality)
        requires
            num < 5,
        ensures
            r == quality_at(num as int),
    {
        match num {
            0 => Quality::Original,
            1 => Quality::Good,
            2 => Quality::Medium,
            3 => Quality::Bad,
            _ => Quality::Poop,
        }
    }
}

/// The views of a list of strings.
pub open spec fn views(v: Seq<String>) -> Seq<Seq<char>> {
    v.map_values(|s: String| s@)
}

/// Audio bitrate and sample rate for a quality level in a video conversion; none
/// for `Original`.
pub open spec fn audio_quality_args(q: Quality) -> Seq<Seq<char>> {
    match q {
        Quality::Original => seq![],
        Quality::Good => seq!["-b:a"@, "64K"@, "-ar"@, "32K"@],
        Quality::Medium => seq!["-b:a"@, "32K"@, "-ar"@, "24K"@],
        Quality::Bad => seq!["-b:a"@, "16K"@, "-ar"@, "16K"@],
        Quality::Poop => seq!["-b:a"@, "8K"@, "-ar"@, "8K"@],
    }
}

/// Audio bitrate and sample rate for a quality level in an audio-only conversion;
/// none for `Original`.
pub open spec fn audio_only_quality_args(q: Quality) -> Seq<Seq<char>> {
    match q {
        Quality::Original => seq![],
        Quality::Good => seq!["-ab"@, "64K"@, "-ar"@, "32K"@],
        Quality::Medium => seq!["-ab"@, "32K"@, "-ar"@, "24K"@],
        Quality::Bad => seq!["-ab"@, "16K"@, "-ar"@, "16K"@],
        Quality::Poop => seq!["-ab"@, "8K"@, "-ar"@, "8K"@],
    }
}

/// Video bitrate for a quality level; none for `Original`.
pub open spec fn video_quality_args(q: Quality) -> Seq<Seq<char>> {
    match q {
        Quality::Original => seq![],
        Quality::Good => seq!["-b:v"@, "1024K"@],
        Quality::Medium => seq!["-b:v"@, "512K"@],
        Quality::Bad => seq!["-b:v"@, "256K"@],
        Quality::Poop => seq!["-b:v"@, "128K"@],
    }
}

/// Appends the audio arguments of a quality level.
pub fn push_audio_quality(args: &mut Vec<String>, q: Quality)
    ensures
        views(final(args)@) == views(old(args)@) + audio_quality_args(q),
{
    let (rate, sample) = match q {
        Quality::Original => {
            assert(views(args@) =~= views(args@) + audio_quality_args(q));
            return;
        },
        Quality::Good => ("64K", "32K"),
        Quality::Medium => ("32K", "24K"),
        Quality::Bad => ("16K", "16K"),
        Quality::Poop => ("8K", "8K"),
    };
    let ghost before = args@;
    args.push("-b:a".to_owned());
    args.push(rate.to_owned());
    args.push("-ar".to_owned());
    args.push(sample.to_owned());
    assert(views(args@) =~= views(before) + audio_quality_args(q));
}

/// Appends the audio arguments of a quality level for an audio-only conversion.
pub fn push_audio_only_quality(args: &mut Vec<String>, q: Quality)
    ensures
        views(final(args)@) == views(old(args)@) + audio_only_quality_args(q),
{
    let (rate, sample) = match q {
        Quality::Original => {
            assert(views(args@) =~= views(args@) + audio_only_quality_args(q));
            return;
        },
        Quality::Good => ("64K", "32K"),
        Quality::Medium => ("32K", "24K"),
        Quality::Bad => ("16K", "16K"),
        Quality::Poop => ("8K", "8K"),
    };
    let ghost before = args@;
    args.push("-ab".to_owned());
    args.push(rate.to_owned());
    args.push("-ar".to_owned());
    args.push(sample.to_owned());
    assert(views(args@) =~= views(before) + audio_only_quality_args(q));
}

/// Appends the video arguments of a quality level.
pub fn push_video_quality(args: &mut Vec<String>, q: Quality)
    ensures
        views(final(args)@) == views(old(args)@) + video_quality_args(q),
{
    let rate = match q {
        Quality::Original => {
            assert(views(args@) =~= views(args@) + video_quality_args(q));
            return;
        },
        Quality::Good => "1024K",
        Quality::Medium => "512K",
        Quality::Bad => "256K",
        Quality::Poop => "128K",
    };
    let ghost before = args@;
    args.push("-b:v".to_owned());
    args.push(rate.to_owned());
    assert(views(args@) =~= views(before) + video_quality_args(q));
}

/// The encoder preset with index `i`, slowest first.
pub open spec fn preset_name(i: int) -> Seq<char> {
    if i == 0 {
        "veryslow"@
    } else if i == 1 {
        "slow"@
    } else if i == 2 {
        "medium"@
    } else if i == 3 {
        "fast"@
    } else {
        "ultrafast"@
    }
}

/// The scaling filter for the output height with index `i`, tallest first.
pub open spec fn scale_filter(i: int) -> Seq<char> {
    if i == 0 {
        "scale=-1:1080"@
    } else if i == 1 {
        "scale=-1:720"@
    } else if i == 2 {
        "scale=-1:480"@
    } else if i == 3 {
        "scale=-1:360"@
    } else {
        "scale=-1:144"@
    }
}

/// The decimal digits of `n`, without leading zeros.
pub open spec fn decimal(n: nat) -> Seq<char>
    decreases n,
{
    if n < 10 {
        seq![(n + 48) as char]
    } else {
        decimal(n / 10) + seq![((n % 10) + 48) as char]
    }
}

/// A bitrate argument in kilobits per second, such as `2600K`.
pub open spec fn kbps_arg(n: nat) -> Seq<char> {
    decimal(n) + seq!['K']
}

/// The arguments every conversion starts with: progress to standard output, the
/// input, and permission to overwrite.
pub open spec fn conversion_prefix(input: Seq<char>) -> Seq<Seq<char>> {
    seq!["-progress"@, "pipe:1"@, "-i"@, input, "-y"@]
}

/// The scaling arguments, where an output height was picked.
pub open spec fn scale_args(resolution: Option<usize>) -> Seq<Seq<char>> {
    match resolution {
        Some(i) => seq!["-vf"@, scale_filter(i as int)],
        None => seq![],
    }
}

/// The arguments every video conversion starts with.
pub open spec fn video_prefix(input: Seq<char>, resolution: Option<usize>, preset: int) -> Seq<
    Seq<char>,
> {
    conversion_prefix(input) + scale_args(resolution) + seq!["-preset"@, preset_name(preset)]
}

/// `ffmpeg -progress` writes the elapsed output time, in microseconds, after this.
pub open spec fn elapsed_marker() -> Seq<u8> {
    seq![111u8, 117u8, 116u8, 95u8, 116u8, 105u8, 109u8, 101u8, 95u8, 109u8, 115u8, 61u8]
}

/// `yt-dlp --progress` writes the percentage done after this.
pub open spec fn download_marker() -> Seq<u8> {
    seq![91u8, 100u8, 111u8, 119u8, 110u8, 108u8, 111u8, 97u8, 100u8, 93u8]
}

/// The decimal digit `d` as text.
fn digit_str(d: u64) -> (r: &'static str)
    requires
        d < 10,
    ensures
        r@ == seq![(d + 48) as char],
{
    proof {
        reveal_strlit("0");
        reveal_strlit("1");
        reveal_strlit("2");
        reveal_strlit("3");
        reveal_strlit("4");
        reveal_strlit("5");
        reveal_strlit("6");
        reveal_strlit("7");
        reveal_strlit("8");
        reveal_strlit("9");
    }
    match d {
        0 => "0",
        1 => "1",
        2 => "2",
        3 => "3",
        4 => "4",
        5 => "5",
        6 => "6",
        7 => "7",
        8 => "8",
        _ => "9",
    }
}

/// `n` in decimal, without leading zeros.
fn decimal_string(n: u64) -> (r: String)
    ensures
        r@ == decimal(n as nat),
    decreases n,
{
    if n < 10 {
        digit_str(n).to_owned()
    } else {
        let mut s = decimal_string(n / 10);
        s.append(digit_str(n % 10));
        s
    }
}

/// A bitrate argument in kilobits per second, such as `2600K`.
fn kbps(n: u64) -> (r: String)
    ensures
        r@ == kbps_arg(n as nat),
{
    proof {
        reveal_strlit("K");
    }
    let mut s = decimal_string(n);
    s.append("K");
    s
}

fn preset_str(i: usize) -> (r: &'static str)
    requires
        i < 5,
    ensures
        r@ == preset_name(i as int),
{
    match i {
        0 => "veryslow",
        1 => "slow",
        2 => "medium",
        3 => "fast",
        _ => "ultrafast",
    }
}

fn scale_str(i: usize) -> (r: &'static str)
    requires
        i < 5,
    ensures
        r@ == scale_filter(i as int),
{
    match i {
        0 => "scale=-1:1080",
        1 => "scale=-1:720",
        2 => "scale=-1:480",
        3 => "scale=-1:360",
        _ => "scale=-1:144",
    }
}

fn conversion_args(input: &str) -> (r: Vec<String>)
    ensures
        views(r@) == conversion_prefix(input@),
{
    let args = vec![
        "-progress".to_owned(),
        "pipe:1".to_owned(),
        "-i".to_owned(),
        input.to_owned(),
        "-y".to_owned(),
    ];
    assert(views(args@) =~= conversion_prefix(input@));
    args
}

fn video_args(input: &str, resolution: Option<usize>, preset: usize) -> (r: Vec<String>)
    requires
        resolution matches Some(i) ==> i < 5,
        preset < 5,
    ensures
        views(r@) == video_prefix(input@, resolution, preset as int),
{
    let mut args = conversion_args(input);
    let ghost before = args@;
    if let Some(i) = resolution {
        args.push("-vf".to_owned());
        args.push(scale_str(i).to_owned());
    }
    args.push("-preset".to_owned());
    args.push(preset_str(preset).to_owned());
    assert(views(args@) =~= video_prefix(input@, resolution, preset as int));
    args
}

/// An audio conversion at a quality level.
pub fn audio_invocation(ffmpeg: &str, input: &str, output: &str, quality: Quality) -> (r:
    Invocation)
    ensures
        r.program@ == ffmpeg@,
        views(r.args@) == conversion_prefix(input@) + audio_only_quality_args(quality) + seq![
            output@,
        ],
        r.wants_progress,
{
    let mut args = conversion_args(input);
    push_audio_only_quality(&mut args, quality);
    let ghost before = args@;
    args.push(output.to_owned());
    assert(views(args@) =~= views(before) + seq![output@]);
    Invocation { program: ffmpeg.to_owned(), args, wants_progress: true }
}

/// An audio conversion at a bitrate in kilobits per second.
pub fn sized_audio_invocation(ffmpeg: &str, input: &str, output: &str, audio_kbps: u64) -> (r:
    Invocation)
    ensures
        r.program@ == ffmpeg@,
        views(r.args@) == conversion_prefix(input@) + seq!["-ab"@, kbps_arg(audio_kbps as nat), output@],
        r.wants_progress,
{
    let mut args = conversion_args(input);
    let ghost before = args@;
    args.push("-ab".to_owned());
    args.push(kbps(audio_kbps));
    args.push(output.to_owned());
    assert(views(args@) =~= views(before) + seq!["-ab"@, kbps_arg(audio_kbps as nat), output@]);
    Invocation { program: ffmpeg.to_owned(), args, wants_progress: true }
}

/// A video conversion at audio and video quality levels, with an optional output
/// height and an encoder preset.
pub fn video_invocation(
    ffmpeg: &str,
    input: &str,
    output: &str,
    audio: Quality,
    video: Quality,
    resolution: Option<usize>,
    preset: usize,
) -> (r: Invocation)
    requires
        resolution matches Some(i) ==> i < 5,
        preset < 5,
    ensures
        r.program@ == ffmpeg@,
        views(r.args@) == video_prefix(input@, resolution, preset as int) + audio_quality_args(audio)
            + video_quality_args(video) + seq![output@],
        r.wants_progress,
{
    let mut args = video_args(input, resolution, preset);
    push_audio_quality(&mut args, audio);
    push_video_quality(&mut args, video);
    let ghost before = args@;
    args.push(output.to_owned());
    assert(views(args@) =~= views(before) + seq![output@]);
    Invocation { program: ffmpeg.to_owned(), args, wants_progress: true }
}

/// The arguments of the first pass of a two-pass encode after the video prefix: it
/// only analyses the video and writes nothing.
pub open spec fn first_pass_args(video_kbps: nat) -> Seq<Seq<char>> {
    seq![
        "-c:v"@,
        "libx264"@,
        "-b:v"@,
        kbps_arg(video_kbps),
        "-pass"@,
        "1"@,
        "-an"@,
        "-f"@,
        "null"@,
        "/dev/null"@,
    ]
}

/// The arguments of the second pass of a two-pass encode after the video prefix.
pub open spec fn second_pass_args(video_kbps: nat, audio_kbps: nat, output: Seq<char>) -> Seq<
    Seq<char>,
> {
    seq![
        "-c:v"@,
        "libx264"@,
        "-b:v"@,
        kbps_arg(video_kbps),
        "-b:a"@,
        kbps_arg(audio_kbps),
        "-pass"@,
        "2"@,
        output,
    ]
}

/// The two passes of a video encode that aims at the given bitrates.
pub fn two_pass_invocations(
    ffmpeg: &str,
    input: &str,
    output: &str,
    resolution: Option<usize>,
    preset: usize,
    video_kbps: u64,
    audio_kbps: u64,
) -> (r: Vec<Invocation>)
    requires
        resolution matches Some(i) ==> i < 5,
        preset < 5,
    ensures
        r@.len() == 2,
        r@[0].program@ == ffmpeg@,
        r@[1].program@ == ffmpeg@,
        views(r@[0].args@) == video_prefix(input@, resolution, preset as int) + first_pass_args(
            video_kbps as nat,
        ),
        views(r@[1].args@) == video_prefix(input@, resolution, preset as int) + second_pass_args(
            video_kbps as nat,
            audio_kbps as nat,
            output@,
        ),
        r@[0].wants_progress && r@[1].wants_progress,
{
    let mut first = video_args(input, resolution, preset);
    let ghost prefix = first@;
    first.push("-c:v".to_owned());
    first.push("libx264".to_owned());
    first.push("-b:v".to_owned());
    first.push(kbps(video_kbps));
    first.push("-pass".to_owned());
    first.push("1".to_owned());
    first.push("-an".to_owned());
    first.push("-f".to_owned());
    first.push("null".to_owned());
    first.push("/dev/null".to_owned());
    assert(views(first@) =~= views(prefix) + first_pass_args(video_kbps as nat));
    let mut second = video_args(input, resolution, preset);
    let ghost prefix2 = second@;
    second.push("-c:v".to_owned());
    second.push("libx264".to_owned());
    second.push("-b:v".to_owned());
    second.push(kbps(video_kbps));
    second.push("-b:a".to_owned());
    second.push(kbps(audio_kbps));
    second.push("-pass".to_owned());
    second.push("2".to_owned());
    second.push(output.to_owned());
    assert(views(second@) =~= views(prefix2) + second_pass_args(
        video_kbps as nat,
        audio_kbps as nat,
        output@,
    ));
    vec![
        Invocation { program: ffmpeg.to_owned(), args: first, wants_progress: true },
        Invocation { program: ffmpeg.to_owned(), args: second, wants_progress: true },
    ]
}

/// A download of `url`, into `output` unless it is empty.
pub fn download_invocation(ytdlp: &str, url: &str, output: &str) -> (r: Invocation)
    ensures
        r.program@ == ytdlp@,
        views(r.args@) == seq!["--progress"@, "--quiet"@, "--newline"@] + (if output@.len() == 0 {
            seq![]
        } else {
            seq!["-o"@, output@]
        }) + seq![url@],
        r.wants_progress,
{
    let mut args = vec!["--progress".to_owned(), "--quiet".to_owned(), "--newline".to_owned()];
    let ghost start = args@;
    if !output.is_empty() {
        args.push("-o".to_owned());
        args.push(output.to_owned());
    }
    args.push(url.to_owned());
    assert(views(args@) =~= seq!["--progress"@, "--quiet"@, "--newline"@] + (if output@.len() == 0 {
        seq![]
    } else {
        seq!["-o"@, output@]
    }) + seq![url@]);
    Invocation { program: ytdlp.to_owned(), args, wants_progress: true }
}

/// A conversion job: its stages report elapsed output time under `out_time_ms=`,
/// normalized by the media duration (probed first where not given).
///
/// Despite its name, ffmpeg writes that value in microseconds (`out_time_us=` carries
/// the same number). So the job reads it as `ElapsedMicros`: the value is divided
/// once, by the duration counted in microseconds (milliseconds times 1000). Dividing
/// it by the duration in milliseconds alone would overshoot a thousandfold, and every
/// reading past the first thousandth of the media would be dropped as out of range.
pub fn conversion_job(stages: Vec<Invocation>, duration_ms: Option<u64>) -> (r: JobSpec)
    ensures
        r.stages == stages,
        r.style == ProgressStyle::ElapsedMicros,
        r.marker@ == elapsed_marker(),
        r.duration_ms == duration_ms,
{
    let marker: Vec<u8> = vec![111u8, 117u8, 116u8, 95u8, 116u8, 105u8, 109u8, 101u8, 95u8, 109u8, 115u8, 61u8];
    assert(marker@ == elapsed_marker());
    JobSpec { stages, style: ProgressStyle::ElapsedMicros, marker, duration_ms }
}

/// A download job of one stage, reporting percentages after `[download]`.
pub fn download_job(stage: Invocation) -> (r: JobSpec)
    ensures
        r.stages@ == seq![stage],
        r.style == ProgressStyle::Percentage,
        r.marker@ == download_marker(),
        r.duration_ms is None,
{
    let marker: Vec<u8> = vec![91u8, 100u8, 111u8, 119u8, 110u8, 108u8, 111u8, 97u8, 100u8, 93u8];
    assert(marker@ == download_marker());
    let stages = vec![stage];
    JobSpec { stages, style: ProgressStyle::Percentage, marker, duration_ms: None }
}

} // verus!
