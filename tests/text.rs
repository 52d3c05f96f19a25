use yt_clipper::media::{transcode_args, Chapter, Rendition};
use yt_clipper::naming::chapter_stem;
use yt_clipper::text::{format_seconds, join_path, sequence_label};
use yt_clipper::url::clean_url;

#[test]
fn clean_url_removes_shell_escapes() {
    assert_eq!(
        clean_url("https://www.youtube.com/watch\\?v\\=abc123\\&t\\=42"),
        "https://www.youtube.com/watch?v=abc123&t=42"
    );
}

#[test]
fn clean_url_leaves_plain_urls_alone() {
    let u = "https://example.com/watch?v=abc&list=x";
    assert_eq!(clean_url(u), u);
    assert_eq!(clean_url(""), "");
    assert_eq!(clean_url("\\"), "\\");
    assert_eq!(clean_url("a\\b"), "a\\b");
}

#[test]
fn clean_url_is_idempotent_on_escaped_url() {
    let once = clean_url("https://youtu.be/x\\?si\\=y");
    assert_eq!(clean_url(&once), once);
}

#[test]
fn clean_url_doubled_backslash_is_fully_cleaned() {
    assert_eq!(clean_url("\\\\?"), "?");
    assert_eq!(clean_url("a\\\\\\=b\\\\&"), "a=b&");
    let once = clean_url("x\\\\?y");
    assert_eq!(once, "x?y");
    assert_eq!(clean_url(&once), once);
}

#[test]
fn seconds_have_three_decimals() {
    assert_eq!(format_seconds(10_000), "10.000");
    assert_eq!(format_seconds(15_000), "15.000");
    assert_eq!(format_seconds(0), "0.000");
    assert_eq!(format_seconds(1_234), "1.234");
    assert_eq!(format_seconds(61_005), "61.005");
    assert_eq!(format_seconds(-500), "-0.500");
    assert_eq!(format_seconds(-12_340), "-12.340");
}

#[test]
fn seconds_of_extreme_values() {
    assert_eq!(format_seconds(i64::MAX as i128), "9223372036854775.807");
    assert_eq!(format_seconds(i128::MIN), "-170141183460469231731687303715884105.728");
}

#[test]
fn labels_have_at_least_two_digits() {
    assert_eq!(sequence_label(0), "00");
    assert_eq!(sequence_label(1), "01");
    assert_eq!(sequence_label(9), "09");
    assert_eq!(sequence_label(10), "10");
    assert_eq!(sequence_label(123), "123");
}

#[test]
fn stems_join_number_and_title() {
    assert_eq!(chapter_stem(1, "Intro"), "01_Intro");
    assert_eq!(chapter_stem(12, ""), "12_");
}

#[test]
fn paths_join_with_slash() {
    assert_eq!(join_path(".", "My Video"), "./My Video");
}

#[test]
fn durations_of_consecutive_chapters() {
    let chapters = vec![
        Chapter { title: "A".to_string(), start_ms: 0, end_ms: 10_000 },
        Chapter { title: "B".to_string(), start_ms: 10_000, end_ms: 25_000 },
    ];
    let a = transcode_args(Rendition::Clip, "v.mp4", &chapters[0], "a.mp4");
    let b = transcode_args(Rendition::Clip, "v.mp4", &chapters[1], "b.mp4");
    assert_eq!(a, vec!["-i", "v.mp4", "-ss", "0.000", "-t", "10.000", "-c", "copy", "-avoid_negative_ts", "1", "-y", "a.mp4"]);
    assert_eq!(b, vec!["-i", "v.mp4", "-ss", "10.000", "-t", "15.000", "-c", "copy", "-avoid_negative_ts", "1", "-y", "b.mp4"]);
}

#[test]
fn negative_duration_is_passed_through() {
    let c = Chapter { title: "X".to_string(), start_ms: 5_000, end_ms: 4_000 };
    assert_eq!(c.duration_ms(), -1_000);
    let a = transcode_args(Rendition::Clip, "v.mp4", &c, "x.mp4");
    assert_eq!(a[5], "-1.000");
}

#[test]
fn variant_arguments() {
    let c = Chapter { title: "X".to_string(), start_ms: 1_500, end_ms: 3_000 };
    assert_eq!(
        transcode_args(Rendition::Vertical, "v", &c, "o"),
        vec!["-i", "v", "-ss", "1.500", "-t", "1.500", "-vf", "crop=ih*9/16:ih", "-c:a", "copy", "-avoid_negative_ts", "1", "-y", "o"]
    );
    assert_eq!(
        transcode_args(Rendition::AudioOnly, "v", &c, "o"),
        vec!["-i", "v", "-ss", "1.500", "-t", "1.500", "-vn", "-acodec", "libmp3lame", "-q:a", "2", "-y", "o"]
    );
    assert_eq!(
        transcode_args(Rendition::NoAudio, "v", &c, "o"),
        vec!["-i", "v", "-ss", "1.500", "-t", "1.500", "-an", "-c:v", "copy", "-avoid_negative_ts", "1", "-y", "o"]
    );
}
