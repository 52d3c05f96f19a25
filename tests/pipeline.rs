use yt_clipper::media::{info_args, Chapter, Rendition, VideoInfo};
use yt_clipper::pipeline::{Event, PipelineError, Session};
use yt_clipper::plan::{plan_steps, Step};

fn chapter(title: &str, start_ms: i64, end_ms: i64) -> Chapter {
    Chapter { title: title.to_string(), start_ms, end_ms }
}

fn info(title: &str, chapters: Option<Vec<Chapter>>) -> VideoInfo {
    VideoInfo { title: title.to_string(), chapters }
}

fn two_chapters() -> Vec<Chapter> {
    vec![chapter("Intro", 0, 10_000), chapter("Main: part 1", 10_000, 25_000)]
}

/// Runs the checks of both programs, then hands in the metadata.
fn session_with(keep_full: bool, formats: bool, meta: VideoInfo) -> Session {
    let mut s = Session::new("https://v.example/watch\\?v\\=1", keep_full, formats);
    s.advance(Event::Succeeded);
    s.advance(Event::Succeeded);
    s.advance(Event::Info(meta));
    s
}

fn args_of(step: &Step) -> Vec<String> {
    match step {
        Step::FetchInfo(a) | Step::Download(a) | Step::Cut(_, a) | Step::Variant(_, _, a) => a.clone(),
        _ => panic!("step has no arguments"),
    }
}

fn has_download(s: &Session) -> bool {
    s.steps.iter().any(|st| matches!(st, Step::Download(_)))
}

#[test]
fn session_starts_with_checks_and_metadata() {
    let s = Session::new("https://v.example/watch\\?v\\=1", false, false);
    assert_eq!(s.url, "https://v.example/watch?v=1");
    assert_eq!(s.steps.len(), 3);
    assert!(matches!(&s.steps[0], Step::CheckTool(n) if n == "yt-dlp"));
    assert!(matches!(&s.steps[1], Step::CheckTool(n) if n == "ffmpeg"));
    assert_eq!(args_of(&s.steps[2]), info_args("https://v.example/watch?v=1"));
    assert_eq!(args_of(&s.steps[2]), vec!["--dump-json", "--no-download", "https://v.example/watch?v=1"]);
}

#[test]
fn missing_tool_stops_the_run() {
    let mut s = Session::new("u", false, false);
    s.advance(Event::Succeeded);
    s.advance(Event::Failed(String::new()));
    assert!(matches!(&s.failure, Some(PipelineError::MissingTool(n)) if n == "ffmpeg"));
    assert!(s.next_step().is_none());
}

#[test]
fn metadata_failure_keeps_what_the_downloader_said() {
    let mut s = Session::new("u", false, false);
    s.advance(Event::Succeeded);
    s.advance(Event::Succeeded);
    s.advance(Event::Failed("ERROR: private video".to_string()));
    assert!(matches!(&s.failure, Some(PipelineError::MetadataFailed(d)) if d == "ERROR: private video"));
}

#[test]
fn metadata_step_needs_metadata() {
    let mut s = Session::new("u", false, false);
    s.advance(Event::Succeeded);
    s.advance(Event::Succeeded);
    s.advance(Event::Succeeded);
    assert!(matches!(&s.failure, Some(PipelineError::MetadataFailed(d)) if d.is_empty()));
}

#[test]
fn absent_chapters_fail_before_download() {
    let s = session_with(false, false, info("T", None));
    assert!(matches!(s.failure, Some(PipelineError::NoChapters)));
    assert!(!has_download(&s));
    assert!(s.next_step().is_none());
}

#[test]
fn empty_chapters_fail_before_download() {
    let s = session_with(false, false, info("T", Some(vec![])));
    assert!(matches!(s.failure, Some(PipelineError::NoChapters)));
    assert!(!has_download(&s));
}

#[test]
fn plan_after_metadata() {
    let s = session_with(false, false, info("My/Video?", Some(two_chapters())));
    assert!(s.failure.is_none());
    assert_eq!(s.dir_name, "MyVideo");
    assert_eq!(s.chapter_names, vec!["Intro", "Main part 1"]);
    assert_eq!(s.pos, 3);
    assert_eq!(s.steps.len(), 3 + 3 + 2 + 1);
    assert!(matches!(&s.steps[3], Step::MakeDir(p) if p == "./MyVideo/clips"));
    assert_eq!(
        args_of(&s.steps[4]),
        vec![
            "-f",
            "bestvideo+bestaudio/best",
            "--merge-output-format",
            "mp4",
            "-o",
            "./MyVideo/full_video.%(ext)s",
            "https://v.example/watch?v=1",
        ]
    );
    assert!(matches!(&s.steps[5], Step::ExpectFile(p) if p == "./MyVideo/full_video.mp4"));
    assert!(matches!(&s.steps[6], Step::Cut(t, _) if t == "Intro"));
    assert!(matches!(&s.steps[7], Step::Cut(t, _) if t == "Main: part 1"));
    assert_eq!(
        args_of(&s.steps[7]),
        vec![
            "-i",
            "./MyVideo/full_video.mp4",
            "-ss",
            "10.000",
            "-t",
            "15.000",
            "-c",
            "copy",
            "-avoid_negative_ts",
            "1",
            "-y",
            "./MyVideo/clips/02_Main part 1.mp4",
        ]
    );
    assert!(matches!(&s.steps[8], Step::RemoveFile(p) if p == "./MyVideo/full_video.mp4"));
}

#[test]
fn clip_files_are_numbered_in_order() {
    let chapters: Vec<Chapter> = (0..12).map(|i| chapter("Same", i * 1000, (i + 1) * 1000)).collect();
    let names: Vec<String> = (0..12).map(|_| "Same".to_string()).collect();
    let steps = plan_steps("u", true, false, "D", &chapters, &names);
    assert_eq!(steps.len(), 3 + 12);
    let outs: Vec<String> = steps[3..].iter().map(|st| args_of(st).last().unwrap().clone()).collect();
    for (i, out) in outs.iter().enumerate() {
        assert_eq!(out, &format!("./D/clips/{:02}_Same.mp4", i + 1));
    }
    assert_eq!(outs[0], "./D/clips/01_Same.mp4");
    assert_eq!(outs[11], "./D/clips/12_Same.mp4");
    for i in 0..outs.len() {
        for j in 0..outs.len() {
            if i != j {
                assert_ne!(outs[i], outs[j]);
            }
        }
    }
}

#[test]
fn variants_follow_the_cuts() {
    let steps = plan_steps("u", true, true, "D", &two_chapters(), &vec!["Intro".to_string(), "Main".to_string()]);
    assert_eq!(steps.len(), 3 + 2 + 4 + 6);
    assert!(matches!(&steps[5], Step::MakeDir(p) if p == "./D/formats"));
    assert!(matches!(&steps[6], Step::MakeDir(p) if p == "./D/formats/vertical"));
    assert!(matches!(&steps[7], Step::MakeDir(p) if p == "./D/formats/audio_only"));
    assert!(matches!(&steps[8], Step::MakeDir(p) if p == "./D/formats/no_audio"));
    let expected = [
        (Rendition::Vertical, "./D/formats/vertical/01_Intro.mp4"),
        (Rendition::AudioOnly, "./D/formats/audio_only/01_Intro.mp3"),
        (Rendition::NoAudio, "./D/formats/no_audio/01_Intro.mp4"),
        (Rendition::Vertical, "./D/formats/vertical/02_Main.mp4"),
        (Rendition::AudioOnly, "./D/formats/audio_only/02_Main.mp3"),
        (Rendition::NoAudio, "./D/formats/no_audio/02_Main.mp4"),
    ];
    for (k, (kind, out)) in expected.iter().enumerate() {
        match &steps[9 + k] {
            Step::Variant(r, _, a) => {
                assert_eq!(r, kind);
                assert_eq!(a[0], "-i");
                assert_eq!(a[1], "./D/full_video.mp4");
                assert_eq!(a.last().unwrap(), out);
            }
            _ => panic!("expected a variant"),
        }
    }
}

#[test]
fn failed_cut_stops_the_run() {
    let mut s = session_with(false, true, info("T", Some(two_chapters())));
    s.advance(Event::Succeeded);
    s.advance(Event::Succeeded);
    s.advance(Event::Succeeded);
    s.advance(Event::Succeeded);
    assert!(matches!(s.next_step(), Some(Step::Cut(t, _)) if t == "Main: part 1"));
    let pos = s.pos;
    s.advance(Event::Failed(String::new()));
    assert!(matches!(&s.failure, Some(PipelineError::SplitFailed(t)) if t == "Main: part 1"));
    assert_eq!(s.pos, pos);
    assert!(s.next_step().is_none());
    s.advance(Event::Succeeded);
    assert_eq!(s.pos, pos);
    assert!(!s.steps.iter().any(|st| matches!(st, Step::RemoveFile(p) if p.contains("clips"))));
}

#[test]
fn failed_variant_does_not_stop_the_run() {
    let mut s = session_with(true, true, info("T", Some(two_chapters())));
    let mut variants_failed = 0;
    while let Some(step) = s.next_step() {
        let ev = match step {
            Step::Variant(_, _, _) => {
                variants_failed += 1;
                Event::Failed(String::new())
            }
            _ => Event::Succeeded,
        };
        s.advance(ev);
    }
    assert_eq!(variants_failed, 6);
    assert!(s.failure.is_none());
    assert!(s.is_done());
}

#[test]
fn full_video_is_removed_unless_kept() {
    let mut s = session_with(false, false, info("T", Some(two_chapters())));
    let mut removed = Vec::new();
    while let Some(step) = s.next_step() {
        if let Step::RemoveFile(p) = step {
            removed.push(p.clone());
        }
        s.advance(Event::Succeeded);
    }
    assert!(s.is_done());
    assert_eq!(removed, vec!["./T/full_video.mp4".to_string()]);

    let mut k = session_with(true, false, info("T", Some(two_chapters())));
    while k.next_step().is_some() {
        assert!(!matches!(k.next_step(), Some(Step::RemoveFile(_))));
        k.advance(Event::Succeeded);
    }
    assert!(k.is_done());
}

#[test]
fn other_failures_stop_the_run() {
    let fail_at = |n: usize| {
        let mut s = session_with(false, false, info("T", Some(two_chapters())));
        for _ in 0..n {
            s.advance(Event::Succeeded);
        }
        s.advance(Event::Failed(String::new()));
        s
    };
    assert!(matches!(&fail_at(0).failure, Some(PipelineError::DirectoryFailed(p)) if p == "./T/clips"));
    assert!(matches!(&fail_at(1).failure, Some(PipelineError::DownloadFailed)));
    assert!(matches!(&fail_at(2).failure, Some(PipelineError::DownloadMissing)));
    assert!(matches!(&fail_at(5).failure, Some(PipelineError::RemoveFailed(p)) if p == "./T/full_video.mp4"));
}

#[test]
fn plain_titles_keep_their_names() {
    let s = session_with(false, false, info("Holiday 2024", Some(vec![chapter("Intro", 0, 1_000), chapter("a<b>c", 1_000, 2_000)])));
    assert_eq!(s.dir_name, "Holiday 2024");
    assert_eq!(s.chapter_names, vec!["Intro", "abc"]);
}
