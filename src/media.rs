//! Chapters and the argument lists handed to the downloader and the
//! transcoder.
use vstd::prelude::*;
use vstd::string::StringExecFns;
use crate::text::{format_seconds, seconds_text};

verus! {

/// The downloader's program name.
pub const DOWNLOADER: &'static str = "yt-dlp";

/// The transcoder's program name.
pub const TRANSCODER: &'static str = "ffmpeg";

/// A named time range of the video, in milliseconds from its start.
pub struct Chapter {
    pub title: String,
    pub start_ms: i64,
    pub end_ms: i64,
}

/// What a chapter is, for contracts.
pub struct ChapterView {
    pub title: Seq<char>,
    pub start_ms: int,
    pub end_ms: int,
}

impl View for Chapter {
    type V = ChapterView;

    open spec fn view(&self) -> ChapterView {
        ChapterView { title: self.title@, start_ms: self.start_ms as int, end_ms: self.end_ms as int }
    }
}

impl Chapter {
    /// The chapter's length in milliseconds; not positive when the metadata
    /// has its end before its start.
    pub fn duration_ms(&self) -> (r: i128)
        ensures
            r == self@.end_ms - self@.start_ms,
    {
        self.end_ms as i128 - self.start_ms as i128
    }
}

/// What the downloader reports of a video.
pub struct VideoInfo {
    pub title: String,
    pub chapters: Option<Vec<Chapter>>,
}

/// The texts of a list of strings.
pub open spec fn texts(v: Seq<String>) -> Seq<Seq<char>> {
    v.map_values(|s: String| s@)
}

/// The chapters of a list, as views.
pub open spec fn chapter_views(v: Seq<Chapter>) -> Seq<ChapterView> {
    v.map_values(|c: Chapter| c@)
}

/// The renditions made of each chapter.
#[derive(Clone, Copy, PartialEq, Eq, Structural, Debug)]
pub enum Rendition {
    /// A lossless cut of both streams.
    Clip,
    /// The picture cropped to 9:16, the sound copied.
    Vertical,
    /// The sound alone, as MP3.
    AudioOnly,
    /// The picture alone.
    NoAudio,
}

/// The transcoder options that make a rendition, between the time range
/// and the output.
pub open spec fn rendition_options(kind: Rendition) -> Seq<Seq<char>> {
    match kind {
        Rendition::Clip => seq!["-c"@, "copy"@, "-avoid_negative_ts"@, "1"@],
        Rendition::Vertical => seq![
            "-vf"@,
            "crop=ih*9/16:ih"@,
            "-c:a"@,
            "copy"@,
            "-avoid_negative_ts"@,
            "1"@,
        ],
        Rendition::AudioOnly => seq!["-vn"@, "-acodec"@, "libmp3lame"@, "-q:a"@, "2"@],
        Rendition::NoAudio => seq!["-an"@, "-c:v"@, "copy"@, "-avoid_negative_ts"@, "1"@],
    }
}

/// The transcoder's arguments: read `video`, seek to the chapter's start,
/// keep its length, apply the rendition's options, overwrite `out`.
pub open spec fn transcode_args_of(
    kind: Rendition,
    video: Seq<char>,
    c: ChapterView,
    out: Seq<char>,
) -> Seq<Seq<char>> {
    seq!["-i"@, video, "-ss"@, seconds_text(c.start_ms), "-t"@, seconds_text(c.end_ms - c.start_ms)]
        + rendition_options(kind) + seq!["-y"@, out]
}

/// The downloader's arguments that print the video's metadata as JSON.
pub open spec fn info_args_of(url: Seq<char>) -> Seq<Seq<char>> {
    seq!["--dump-json"@, "--no-download"@, url]
}

/// The downloader's arguments that fetch the best video and sound, merged
/// into MP4, to the output template.
pub open spec fn download_args_of(url: Seq<char>, template: Seq<char>) -> Seq<Seq<char>> {
    seq!["-f"@, "bestvideo+bestaudio/best"@, "--merge-output-format"@, "mp4"@, "-o"@, template, url]
}

fn push_arg(v: &mut Vec<String>, s: &str)
    ensures
        texts(final(v)@) == texts(old(v)@).push(s@),
{
    v.push(String::from_str(s));
    assert(texts(final(v)@) =~= texts(old(v)@).push(s@));
}

fn push_owned(v: &mut Vec<String>, s: String)
    ensures
        texts(final(v)@) == texts(old(v)@).push(s@),
{
    let ghost t = s@;
    v.push(s);
    assert(texts(final(v)@) =~= texts(old(v)@).push(t));
}

/// The transcoder's arguments that make one rendition of a chapter.
pub fn transcode_args(kind: Rendition, video: &str, chapter: &Chapter, out: &str) -> (r: Vec<
    String,
>)
    ensures
        texts(r@) == transcode_args_of(kind, video@, chapter@, out@),
{
    let mut v: Vec<String> = Vec::new();
    push_arg(&mut v, "-i");
    push_arg(&mut v, video);
    push_arg(&mut v, "-ss");
    push_owned(&mut v, format_seconds(chapter.start_ms as i128));
    assert(texts(v@) =~= seq!["-i"@, video@, "-ss"@, seconds_text(chapter@.start_ms)]);
    push_arg(&mut v, "-t");
    push_owned(&mut v, format_seconds(chapter.duration_ms()));
    let ghost head = seq![
        "-i"@,
        video@,
        "-ss"@,
        seconds_text(chapter@.start_ms),
        "-t"@,
        seconds_text(chapter@.end_ms - chapter@.start_ms),
    ];
    assert(texts(v@) =~= head);
    match kind {
        Rendition::Clip => {
            push_arg(&mut v, "-c");
            push_arg(&mut v, "copy");
            push_arg(&mut v, "-avoid_negative_ts");
            push_arg(&mut v, "1");
        },
        Rendition::Vertical => {
            push_arg(&mut v, "-vf");
            push_arg(&mut v, "crop=ih*9/16:ih");
            push_arg(&mut v, "-c:a");
            push_arg(&mut v, "copy");
            push_arg(&mut v, "-avoid_negative_ts");
            push_arg(&mut v, "1");
        },
        Rendition::AudioOnly => {
            push_arg(&mut v, "-vn");
            push_arg(&mut v, "-acodec");
            push_arg(&mut v, "libmp3lame");
            push_arg(&mut v, "-q:a");
            push_arg(&mut v, "2");
        },
        Rendition::NoAudio => {
            push_arg(&mut v, "-an");
            push_arg(&mut v, "-c:v");
            push_arg(&mut v, "copy");
            push_arg(&mut v, "-avoid_negative_ts");
            push_arg(&mut v, "1");
        },
    }
    assert(texts(v@) =~= head + rendition_options(kind));
    push_arg(&mut v, "-y");
    push_arg(&mut v, out);
    assert(texts(v@) =~= transcode_args_of(kind, video@, chapter@, out@));
    v
}

/// The downloader's arguments that print the metadata of the video at `url`.
pub fn info_args(url: &str) -> (r: Vec<String>)
    ensures
        texts(r@) == info_args_of(url@),
{
    let mut v: Vec<String> = Vec::new();
    push_arg(&mut v, "--dump-json");
    push_arg(&mut v, "--no-download");
    push_arg(&mut v, url);
    assert(texts(v@) =~= info_args_of(url@));
    v
}

/// The downloader's arguments that fetch the video at `url` to `template`.
pub fn download_args(url: &str, template: &str) -> (r: Vec<String>)
    ensures
        texts(r@) == download_args_of(url@, template@),
{
    let mut v: Vec<String> = Vec::new();
    push_arg(&mut v, "-f");
    push_arg(&mut v, "bestvideo+bestaudio/best");
    push_arg(&mut v, "--merge-output-format");
    push_arg(&mut v, "mp4");
    push_arg(&mut v, "-o");
    push_arg(&mut v, template);
    push_arg(&mut v, url);
    assert(texts(v@) =~= download_args_of(url@, template@));
    v
}

} // verus!
