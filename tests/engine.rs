use compressor::command::{
    audio_invocation, conversion_job, download_invocation, download_job, sized_audio_invocation,
    two_pass_invocations, video_invocation, AppMode, Quality,
};
use compressor::deps_download::DependencyDownloader;
use compressor::job::{
    duration_for_size_target, rebase_fraction, read_stage_fraction, Action, Event, FailureReason, Invocation, Job, JobSpec,
    Outcome, Phase, ProgressStyle, StageState,
};
use compressor::popup::{deliver, outcome_log, LogKind, MessageLog, Severity};
use compressor::probe::{duration_from_bytes, extract_media_duration};
use compressor::progress::{parse_elapsed, parse_percentage};
use compressor::scan::find_marker;

fn stage(name: &str, wants_progress: bool) -> Invocation {
    Invocation { program: name.to_string(), args: vec![], wants_progress }
}

fn millis_job(stages: usize, duration_ms: Option<u64>) -> Job {
    let spec = JobSpec {
        stages: (0..stages).map(|i| stage(&format!("pass{}", i), true)).collect(),
        style: ProgressStyle::ElapsedMillis,
        marker: b"out_time_ms=".to_vec(),
        duration_ms,
    };
    Job::new(spec).unwrap()
}

fn output(text: &str) -> Event {
    Event::Output(text.as_bytes().to_vec())
}

fn strings(args: &[String]) -> Vec<&str> {
    args.iter().map(|s| s.as_str()).collect()
}

#[test]
fn extraction_test() {
    let info = "Input #0, mp3, from 'suckmynuts.mp3':\n  Duration: 00:03:25.71, start: 0.025057, bitrate: 128 kb/s\n";
    let duration = extract_media_duration(info);
    assert_eq!(duration, Some(205_710));
}

#[test]
fn duration_from_probe_text() {
    assert_eq!(extract_media_duration("  Duration: 01:02:03.45, start: 0.0"), Some(3_723_450));
    assert_eq!(extract_media_duration("Duration: 00:00:00.07"), Some(70));
    assert_eq!(extract_media_duration("Duration: 99:59:59.99"), Some(359_999_990));
}

#[test]
fn duration_missing_or_malformed() {
    assert_eq!(extract_media_duration("Input #0, no length here"), None);
    assert_eq!(extract_media_duration(""), None);
    assert_eq!(extract_media_duration("Duration: N/A, start: 0"), None);
    assert_eq!(extract_media_duration("Duration:  01:02:03.45"), None);
    assert_eq!(extract_media_duration("Duration: 01:02:03"), None);
    assert_eq!(extract_media_duration("Duration: 01-02-03.45"), None);
    assert_eq!(duration_from_bytes(b"Duration: 1:02:03.45"), None);
}

#[test]
fn duration_uses_first_label() {
    assert_eq!(extract_media_duration("Duration: bad Duration: 00:00:01.00"), None);
    assert_eq!(extract_media_duration("Duration: 00:00:01.00 Duration: 00:00:02.00"), Some(1000));
}

#[test]
fn marker_search() {
    assert_eq!(find_marker(b"abcabc", b"ca"), Some(2));
    assert_eq!(find_marker(b"abc", b"abcd"), None);
    assert_eq!(find_marker(b"abc", b"x"), None);
    assert_eq!(find_marker(b"abc", b""), Some(0));
}

#[test]
fn elapsed_values() {
    let m = b"out_time_ms=";
    assert_eq!(parse_elapsed(b"frame=1\nout_time_ms=2500\nspeed=1x\n", m), Some(2500));
    assert_eq!(parse_elapsed(b"out_time_ms=42\r\n", m), Some(42));
    assert_eq!(parse_elapsed(b"out_time_ms=18446744073709551615\n", m), Some(u64::MAX));
}

#[test]
fn elapsed_misses() {
    let m = b"out_time_ms=";
    assert_eq!(parse_elapsed(b"out_time_ms=2500", m), None);
    assert_eq!(parse_elapsed(b"out_time_ms=\n", m), None);
    assert_eq!(parse_elapsed(b"out_time_ms=N/A\n", m), None);
    assert_eq!(parse_elapsed(b"out_time_ms=12x\n", m), None);
    assert_eq!(parse_elapsed(b"out_time_ms=18446744073709551616\n", m), None);
    assert_eq!(parse_elapsed(b"progress=continue\n", m), None);
}

#[test]
fn same_chunk_parses_the_same() {
    let m = b"out_time_ms=";
    let chunk = b"out_time_ms=777\nprogress=continue\n";
    let first = parse_elapsed(chunk, m);
    let second = parse_elapsed(chunk, m);
    assert_eq!(first, Some(777));
    assert_eq!(first, second);
    let mut job = millis_job(1, Some(1000));
    job.step(&Event::Start);
    assert_eq!(job.step(&output("out_time_ms=777\n")), Action::Report { ppm: 777_000 });
    let state = job.state();
    assert_eq!(job.step(&output("out_time_ms=777\n")), Action::Report { ppm: 777_000 });
    assert_eq!(job.state(), state);
}

#[test]
fn percentage_values() {
    let m = b"[download]";
    assert_eq!(parse_percentage(b"[download]  42.5% of ~10.00MiB at 1MiB/s\n", m), Some(425_000));
    assert_eq!(parse_percentage(b"[download] 100% of 10.00MiB in 00:01\n", m), Some(1_000_000));
    assert_eq!(parse_percentage(b"[download]   0.0% of 10MiB\n", m), Some(0));
    assert_eq!(parse_percentage(b"[download]  12.34567%", m), Some(123_456));
    assert_eq!(parse_percentage(b"[download] 100.0%", m), Some(1_000_000));
}

#[test]
fn percentage_misses() {
    let m = b"[download]";
    assert_eq!(parse_percentage(b"[download] Destination: a.mp4\n", m), None);
    assert_eq!(parse_percentage(b"[download] 100.5% of 1MiB\n", m), None);
    assert_eq!(parse_percentage(b"[download] 250% of 1MiB\n", m), None);
    assert_eq!(parse_percentage(b"[download]  42.", m), None);
    assert_eq!(parse_percentage(b"[download]  42.%", m), None);
    assert_eq!(parse_percentage(b"[download]  42", m), None);
    assert_eq!(parse_percentage(b"no marker 42%", m), None);
}

#[test]
fn stage_fractions() {
    let m = b"out_time_ms=";
    assert_eq!(read_stage_fraction(ProgressStyle::ElapsedMillis, 10_000, b"out_time_ms=2500\n", m), Some(250_000));
    assert_eq!(read_stage_fraction(ProgressStyle::ElapsedMicros, 10_000, b"out_time_ms=5000000\n", m), Some(500_000));
    assert_eq!(read_stage_fraction(ProgressStyle::ElapsedMillis, 10_000, b"out_time_ms=10001\n", m), None);
    assert_eq!(read_stage_fraction(ProgressStyle::ElapsedMillis, 0, b"out_time_ms=0\n", m), None);
    assert_eq!(read_stage_fraction(ProgressStyle::Percentage, 0, b"[download] 50%", b"[download]"), Some(500_000));
}

#[test]
fn rebasing_two_passes() {
    assert_eq!(rebase_fraction(0, 2, 400_000), 200_000);
    assert_eq!(rebase_fraction(1, 2, 600_000), 800_000);
    assert_eq!(rebase_fraction(0, 1, 400_000), 400_000);
    assert_eq!(rebase_fraction(1, 2, 1_000_000), 1_000_000);
}

#[test]
fn two_pass_progress_is_rebased() {
    let mut job = millis_job(2, Some(10_000));
    assert_eq!(job.step(&Event::Start), Action::Spawn { stage: 0 });
    assert_eq!(job.step(&output("out_time_ms=4000\n")), Action::Report { ppm: 200_000 });
    assert_eq!(job.step(&Event::Exited { success: true }), Action::Spawn { stage: 1 });
    assert_eq!(job.step(&output("out_time_ms=6000\n")), Action::Report { ppm: 800_000 });
    assert_eq!(job.step(&Event::Exited { success: true }), Action::Finish { outcome: Outcome::Success, kill: false });
    let s = job.state();
    assert_eq!(s.first, StageState::Completed);
    assert_eq!(s.second, StageState::Completed);
    assert_eq!(s.spawned, 2);
}

#[test]
fn single_stage_end_to_end() {
    let mut job = millis_job(1, Some(10_000));
    let mut seen = vec![job.step(&Event::Start)];
    for ms in [2500, 5000, 10000] {
        seen.push(job.step(&output(&format!("out_time_ms={}\n", ms))));
    }
    seen.push(job.step(&Event::Exited { success: true }));
    assert_eq!(
        seen,
        vec![
            Action::Spawn { stage: 0 },
            Action::Report { ppm: 250_000 },
            Action::Report { ppm: 500_000 },
            Action::Report { ppm: 1_000_000 },
            Action::Finish { outcome: Outcome::Success, kill: false },
        ]
    );
    let as_fractions: Vec<f64> = seen
        .iter()
        .filter_map(|a| match a {
            Action::Report { ppm } => Some(*ppm as f64 / 1_000_000.0),
            _ => None,
        })
        .collect();
    assert_eq!(as_fractions, vec![0.25, 0.5, 1.0]);
}

#[test]
fn success_is_the_only_outcome() {
    let mut job = millis_job(1, Some(1000));
    job.step(&Event::Start);
    assert_eq!(job.step(&Event::Exited { success: true }), Action::Finish { outcome: Outcome::Success, kill: false });
    assert_eq!(job.step(&Event::CancelRequested), Action::Continue);
    assert_eq!(job.step(&Event::Exited { success: false }), Action::Continue);
    assert_eq!(job.step(&Event::WaitFailed), Action::Continue);
    assert_eq!(job.state().phase, Phase::Finished { outcome: Outcome::Success });
}

#[test]
fn cancel_kills_running_stage() {
    let mut job = millis_job(2, Some(1000));
    job.step(&Event::Start);
    job.step(&Event::Exited { success: true });
    assert_eq!(job.step(&Event::CancelRequested), Action::Finish { outcome: Outcome::Cancelled, kill: true });
    assert_eq!(job.step(&Event::Exited { success: true }), Action::Continue);
    let s = job.state();
    assert_eq!(s.second, StageState::Killed);
    assert_eq!(s.spawned, 2);
}

#[test]
fn cancel_before_spawn_kills_nothing() {
    let mut job = millis_job(1, None);
    assert_eq!(job.step(&Event::Start), Action::Probe);
    assert_eq!(job.step(&Event::CancelRequested), Action::Finish { outcome: Outcome::Cancelled, kill: false });
    assert_eq!(job.state().spawned, 0);
}

#[test]
fn failed_first_pass_never_spawns_second() {
    for (event, reason) in [
        (Event::Exited { success: false }, FailureReason::RuntimeFailure { stage: 0 }),
        (Event::SpawnFailed, FailureReason::SpawnFailure { stage: 0 }),
    ] {
        let mut job = millis_job(2, Some(1000));
        assert_eq!(job.step(&Event::Start), Action::Spawn { stage: 0 });
        assert_eq!(job.step(&event), Action::Finish { outcome: Outcome::Failure(reason), kill: false });
        assert_eq!(job.step(&Event::Exited { success: true }), Action::Continue);
        let s = job.state();
        assert_eq!(s.spawned, 1);
        assert_eq!(s.second, StageState::Pending);
    }
}

#[test]
fn lost_process_is_killed() {
    let mut job = millis_job(1, Some(1000));
    job.step(&Event::Start);
    assert_eq!(
        job.step(&Event::WaitFailed),
        Action::Finish { outcome: Outcome::Failure(FailureReason::LostProcess { stage: 0 }), kill: true }
    );
    assert_eq!(job.state().first, StageState::Killed);
}

#[test]
fn probe_without_label_spawns_nothing() {
    let mut job = millis_job(1, None);
    assert_eq!(job.step(&Event::Start), Action::Probe);
    assert_eq!(
        job.step(&Event::Probed(b"Input #0, mp3, from 'a.mp3':\n".to_vec())),
        Action::Finish { outcome: Outcome::Failure(FailureReason::ProbeFailure), kill: false }
    );
    assert_eq!(job.step(&Event::Start), Action::Continue);
    assert_eq!(job.state().spawned, 0);
}

#[test]
fn probe_failure_and_probe_success() {
    let mut job = millis_job(1, None);
    job.step(&Event::Start);
    assert_eq!(job.step(&Event::ProbeFailed), Action::Finish { outcome: Outcome::Failure(FailureReason::ProbeFailure), kill: false });
    let mut job = millis_job(1, None);
    job.step(&Event::Start);
    assert_eq!(job.step(&Event::Probed(b"  Duration: 00:00:10.00, start".to_vec())), Action::Spawn { stage: 0 });
    assert_eq!(job.state().total_ms, 10_000);
    assert_eq!(job.step(&output("out_time_ms=2500\n")), Action::Report { ppm: 250_000 });
}

#[test]
fn decreasing_and_unwanted_progress_is_dropped() {
    let mut job = millis_job(1, Some(10_000));
    job.step(&Event::Start);
    assert_eq!(job.step(&output("out_time_ms=5000\n")), Action::Report { ppm: 500_000 });
    assert_eq!(job.step(&output("out_time_ms=2500\n")), Action::Continue);
    assert_eq!(job.step(&output("out_time_ms=20000\n")), Action::Continue);
    assert_eq!(job.step(&output("out_time_ms=25")), Action::Continue);
    assert_eq!(job.state().last_ppm, 500_000);
    let spec = JobSpec {
        stages: vec![stage("quiet", false)],
        style: ProgressStyle::ElapsedMillis,
        marker: b"out_time_ms=".to_vec(),
        duration_ms: Some(10_000),
    };
    let mut quiet = Job::new(spec).unwrap();
    quiet.step(&Event::Start);
    assert_eq!(quiet.step(&output("out_time_ms=5000\n")), Action::Continue);
}

#[test]
fn stage_count_is_one_or_two() {
    let spec = |n: usize| JobSpec {
        stages: (0..n).map(|_| stage("x", true)).collect(),
        style: ProgressStyle::Percentage,
        marker: b"[download]".to_vec(),
        duration_ms: None,
    };
    assert!(Job::new(spec(0)).is_none());
    assert!(Job::new(spec(1)).is_some());
    assert!(Job::new(spec(2)).is_some());
    assert!(Job::new(spec(3)).is_none());
}

#[test]
fn download_job_runs_without_probe() {
    let inv = download_invocation("yt-dlp", "https://example.com/v", "");
    let mut job = Job::new(download_job(inv)).unwrap();
    assert_eq!(job.step(&Event::Start), Action::Spawn { stage: 0 });
    assert_eq!(job.step(&output("[download]  50.0% of 2MiB\n")), Action::Report { ppm: 500_000 });
    assert_eq!(job.step(&Event::Exited { success: true }), Action::Finish { outcome: Outcome::Success, kill: false });
    assert_eq!(job.stage(0).program, "yt-dlp");
}

#[test]
fn conversion_job_reads_microseconds() {
    let inv = audio_invocation("ffmpeg", "in.wav", "out.mp3", Quality::Original);
    let mut job = Job::new(conversion_job(vec![inv], Some(10_000))).unwrap();
    assert_eq!(job.spec().marker, b"out_time_ms=".to_vec());
    assert_eq!(job.step(&Event::Start), Action::Spawn { stage: 0 });
    assert_eq!(job.step(&output("out_time_ms=2500000\n")), Action::Report { ppm: 250_000 });
}

#[test]
fn quality_from_index() {
    assert_eq!(Quality::from_usize(0), Quality::Original);
    assert_eq!(Quality::from_usize(1), Quality::Good);
    assert_eq!(Quality::from_usize(2), Quality::Medium);
    assert_eq!(Quality::from_usize(3), Quality::Bad);
    assert_eq!(Quality::from_usize(4), Quality::Poop);
    assert_eq!(Quality::default(), Quality::Original);
}

#[test]
fn mode_extensions() {
    assert_eq!(AppMode::Audio.default_extension(), Some("mp3"));
    assert_eq!(AppMode::Video.default_extension(), Some("mp4"));
    assert_eq!(AppMode::Download.default_extension(), None);
    assert_eq!(AppMode::Advanced.default_extension(), None);
}

#[test]
fn audio_arguments() {
    let inv = audio_invocation("ffmpeg", "in.wav", "out.mp3", Quality::Medium);
    assert_eq!(inv.program, "ffmpeg");
    assert!(inv.wants_progress);
    assert_eq!(
        strings(&inv.args),
        vec!["-progress", "pipe:1", "-i", "in.wav", "-y", "-ab", "32K", "-ar", "24K", "out.mp3"]
    );
    let sized = sized_audio_invocation("ffmpeg", "in.wav", "out.mp3", 96);
    assert_eq!(strings(&sized.args), vec!["-progress", "pipe:1", "-i", "in.wav", "-y", "-ab", "96K", "out.mp3"]);
}

#[test]
fn video_arguments() {
    let inv = video_invocation("ffmpeg", "in.mkv", "out.mp4", Quality::Good, Quality::Poop, Some(1), 3);
    assert_eq!(
        strings(&inv.args),
        vec![
            "-progress", "pipe:1", "-i", "in.mkv", "-y", "-vf", "scale=-1:720", "-preset", "fast",
            "-b:a", "64K", "-ar", "32K", "-b:v", "128K", "out.mp4"
        ]
    );
    let plain = video_invocation("ffmpeg", "in.mkv", "out.mp4", Quality::Original, Quality::Original, None, 2);
    assert_eq!(strings(&plain.args), vec!["-progress", "pipe:1", "-i", "in.mkv", "-y", "-preset", "medium", "out.mp4"]);
}

#[test]
fn two_pass_arguments() {
    let passes = two_pass_invocations("ffmpeg", "in.mkv", "out.mp4", None, 0, 2600, 128);
    assert_eq!(passes.len(), 2);
    assert_eq!(
        strings(&passes[0].args),
        vec![
            "-progress", "pipe:1", "-i", "in.mkv", "-y", "-preset", "veryslow", "-c:v", "libx264",
            "-b:v", "2600K", "-pass", "1", "-an", "-f", "null", "/dev/null"
        ]
    );
    assert_eq!(
        strings(&passes[1].args),
        vec![
            "-progress", "pipe:1", "-i", "in.mkv", "-y", "-preset", "veryslow", "-c:v", "libx264",
            "-b:v", "2600K", "-b:a", "128K", "-pass", "2", "out.mp4"
        ]
    );
}

#[test]
fn download_arguments() {
    let inv = download_invocation("yt-dlp", "https://example.com/v", "clip.mp4");
    assert_eq!(strings(&inv.args), vec!["--progress", "--quiet", "--newline", "-o", "clip.mp4", "https://example.com/v"]);
    let bare = download_invocation("yt-dlp", "https://example.com/v", "");
    assert_eq!(strings(&bare.args), vec!["--progress", "--quiet", "--newline", "https://example.com/v"]);
}

#[test]
fn outcome_logs() {
    assert_eq!(outcome_log(Outcome::Success, false, false), MessageLog { text: "Conversion finished successfully", kind: Severity::Success });
    assert_eq!(outcome_log(Outcome::Success, true, false), MessageLog { text: "Download successful", kind: Severity::Success });
    assert_eq!(outcome_log(Outcome::Cancelled, false, false).kind, Severity::Info);
    assert_eq!(outcome_log(Outcome::Failure(FailureReason::ProbeFailure), false, false).kind, Severity::Error);
    assert_eq!(
        outcome_log(Outcome::Failure(FailureReason::SpawnFailure { stage: 1 }), true, false).text,
        "Failed to start the downloading"
    );
    assert_eq!(
        outcome_log(Outcome::Failure(FailureReason::RuntimeFailure { stage: 0 }), false, false).text,
        "Conversion process failed"
    );
}

#[test]
fn log_receiver_collects_in_order() {
    let mut log: Vec<MessageLog> = Vec::new();
    deliver(&mut log, outcome_log(Outcome::Cancelled, true, false));
    log.warning("careful");
    deliver(&mut log, MessageLog { text: "boom", kind: Severity::Error });
    assert_eq!(
        log,
        vec![
            MessageLog { text: "Downloading process was canceled", kind: Severity::Info },
            MessageLog { text: "careful", kind: Severity::Warning },
            MessageLog { text: "boom", kind: Severity::Error },
        ]
    );
}

#[test]
fn dependency_flags() {
    let mut deps = DependencyDownloader::new(true, true);
    assert!(!deps.all_present());
    deps.ffmpeg_fetched();
    assert!(!deps.ffmpeg_missing && deps.ytdlp_missing);
    deps.ytdlp_fetched();
    assert!(deps.all_present());
}

#[test]
fn audio_only_quality_table() {
    let expected = [
        (Quality::Original, vec![]),
        (Quality::Good, vec!["-ab", "64K", "-ar", "32K"]),
        (Quality::Medium, vec!["-ab", "32K", "-ar", "24K"]),
        (Quality::Bad, vec!["-ab", "16K", "-ar", "16K"]),
        (Quality::Poop, vec!["-ab", "8K", "-ar", "8K"]),
    ];
    for (quality, tail) in expected {
        let inv = audio_invocation("ffmpeg", "a.wav", "b.mp3", quality);
        let mut want = vec!["-progress", "pipe:1", "-i", "a.wav", "-y"];
        want.extend(tail);
        want.push("b.mp3");
        assert_eq!(strings(&inv.args), want);
    }
}

#[test]
fn bitrate_arguments_in_decimal() {
    for (kbps, text) in [(0u64, "0K"), (7, "7K"), (10, "10K"), (1205, "1205K"), (u64::MAX, "18446744073709551615K")] {
        let inv = sized_audio_invocation("ffmpeg", "a.wav", "b.mp3", kbps);
        assert_eq!(inv.args[6], text);
    }
}

#[test]
fn spawn_failure_names_the_pass() {
    let first = Outcome::Failure(FailureReason::SpawnFailure { stage: 0 });
    let second = Outcome::Failure(FailureReason::SpawnFailure { stage: 1 });
    assert_eq!(outcome_log(first, false, true).text, "Failed to start the first pass of the conversion process.");
    assert_eq!(outcome_log(second, false, true).text, "Failed to start the second pass of the conversion process.");
    assert_eq!(outcome_log(first, false, false).text, "Failed to start the conversion process.");
    assert_eq!(outcome_log(first, false, true).kind, Severity::Error);
}

#[test]
fn size_target_needs_a_duration() {
    let failure = Err(Outcome::Failure(FailureReason::ProbeFailure));
    assert_eq!(duration_for_size_target(None), failure);
    assert_eq!(duration_for_size_target(Some(b"Input #0, mp3, from 'a.mp3':\n")), failure);
    assert_eq!(duration_for_size_target(Some(b"  Duration: 00:01:00.50, start")), Ok(60_500));
    assert_eq!(extract_media_duration("Duration: 99:99:99.99"), Some(362_439_990));
}
