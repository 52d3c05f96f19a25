//! The steps of a run once the video's chapters are known, and where their
//! files go.
use vstd::prelude::*;
use vstd::string::StringExecFns;
use crate::media::{
    download_args, download_args_of, texts, transcode_args, transcode_args_of, Chapter,
    ChapterView, Rendition, chapter_views,
};
use crate::naming::{chapter_stem, lemma_stems_distinct, stem};
use crate::text::{join_path, joined};

verus! {

/// One thing a run does outside the library.
pub enum Step {
    /// Start the named program with `--version`, to see that it is installed.
    CheckTool(String),
    /// Run the downloader with these arguments and read the metadata it prints.
    FetchInfo(Vec<String>),
    /// Create this directory and its parents.
    MakeDir(String),
    /// Run the downloader with these arguments to fetch the video.
    Download(Vec<String>),
    /// See that this file exists.
    ExpectFile(String),
    /// Run the transcoder with these arguments to cut the named chapter.
    Cut(String, Vec<String>),
    /// Run the transcoder with these arguments to make a rendition of the
    /// named chapter.
    Variant(Rendition, String, Vec<String>),
    /// Delete this file.
    RemoveFile(String),
}

/// What a step is, for contracts.
pub enum StepView {
    CheckTool(Seq<char>),
    FetchInfo(Seq<Seq<char>>),
    MakeDir(Seq<char>),
    Download(Seq<Seq<char>>),
    ExpectFile(Seq<char>),
    Cut(Seq<char>, Seq<Seq<char>>),
    Variant(Rendition, Seq<char>, Seq<Seq<char>>),
    RemoveFile(Seq<char>),
}

impl View for Step {
    type V = StepView;

    open spec fn view(&self) -> StepView {
        match self {
            Step::CheckTool(n) => StepView::CheckTool(n@),
            Step::FetchInfo(a) => StepView::FetchInfo(texts(a@)),
            Step::MakeDir(p) => StepView::MakeDir(p@),
            Step::Download(a) => StepView::Download(texts(a@)),
            Step::ExpectFile(p) => StepView::ExpectFile(p@),
            Step::Cut(t, a) => StepView::Cut(t@, texts(a@)),
            Step::Variant(k, t, a) => StepView::Variant(*k, t@, texts(a@)),
            Step::RemoveFile(p) => StepView::RemoveFile(p@),
        }
    }
}

/// The views of a list of steps.
pub open spec fn step_views(v: Seq<Step>) -> Seq<StepView> {
    v.map_values(|s: Step| s@)
}

/// The directory of a run, for a sanitized video title.
pub open spec fn output_dir(dir_name: Seq<char>) -> Seq<char> {
    joined("."@, dir_name)
}

/// Where the chapters' clips go.
pub open spec fn clips_dir(out: Seq<char>) -> Seq<char> {
    joined(out, "clips"@)
}

/// Where the variants' directories go.
pub open spec fn formats_dir(out: Seq<char>) -> Seq<char> {
    joined(out, "formats"@)
}

/// The downloader's output template: a fixed stem and the downloader's own
/// placeholder for the extension.
pub open spec fn video_template(out: Seq<char>) -> Seq<char> {
    joined(out, "full_video.%(ext)s"@)
}

/// Where the merged video is expected after the download.
pub open spec fn video_path(out: Seq<char>) -> Seq<char> {
    joined(out, "full_video.mp4"@)
}

/// The directory name of each rendition.
pub open spec fn rendition_dir_name(kind: Rendition) -> Seq<char> {
    match kind {
        Rendition::Clip => "clips"@,
        Rendition::Vertical => "vertical"@,
        Rendition::AudioOnly => "audio_only"@,
        Rendition::NoAudio => "no_audio"@,
    }
}

/// The file extension of each rendition.
pub open spec fn extension(kind: Rendition) -> Seq<char> {
    match kind {
        Rendition::AudioOnly => ".mp3"@,
        _ => ".mp4"@,
    }
}

/// The directory that holds one rendition of every chapter.
pub open spec fn rendition_dir(out: Seq<char>, kind: Rendition) -> Seq<char> {
    match kind {
        Rendition::Clip => joined(out, rendition_dir_name(kind)),
        _ => joined(formats_dir(out), rendition_dir_name(kind)),
    }
}

/// The file of one rendition of the chapter at `index` (from 0).
pub open spec fn rendition_path(out: Seq<char>, kind: Rendition, index: int, name: Seq<char>) -> Seq<char> {
    joined(rendition_dir(out, kind), stem((index + 1) as nat, name) + extension(kind))
}

/// The step that makes one rendition of the chapter at `index`.
pub open spec fn rendition_step(
    out: Seq<char>,
    kind: Rendition,
    index: int,
    c: ChapterView,
    name: Seq<char>,
) -> StepView {
    let args = transcode_args_of(kind, video_path(out), c, rendition_path(out, kind, index, name));
    match kind {
        Rendition::Clip => StepView::Cut(c.title, args),
        _ => StepView::Variant(kind, c.title, args),
    }
}

/// The variant made at position `k % 3` of each chapter's three.
pub open spec fn variant_kind(k: int) -> Rendition {
    if k % 3 == 0 {
        Rendition::Vertical
    } else if k % 3 == 1 {
        Rendition::AudioOnly
    } else {
        Rendition::NoAudio
    }
}

/// One cut per chapter, in the chapters' order.
pub open spec fn cut_steps(out: Seq<char>, cs: Seq<ChapterView>, names: Seq<Seq<char>>) -> Seq<StepView> {
    Seq::new(cs.len(), |i: int| rendition_step(out, Rendition::Clip, i, cs[i], names[i]))
}

/// Three variants per chapter, in the chapters' order.
pub open spec fn variant_steps(out: Seq<char>, cs: Seq<ChapterView>, names: Seq<Seq<char>>) -> Seq<StepView> {
    Seq::new(
        3 * cs.len(),
        |k: int| rendition_step(out, variant_kind(k), k / 3, cs[k / 3], names[k / 3]),
    )
}

/// The steps that make the variants, with their directories first.
pub open spec fn variant_part(out: Seq<char>, cs: Seq<ChapterView>, names: Seq<Seq<char>>) -> Seq<StepView> {
    seq![
        StepView::MakeDir(formats_dir(out)),
        StepView::MakeDir(rendition_dir(out, Rendition::Vertical)),
        StepView::MakeDir(rendition_dir(out, Rendition::AudioOnly)),
        StepView::MakeDir(rendition_dir(out, Rendition::NoAudio)),
    ] + variant_steps(out, cs, names)
}

/// Everything a run does once the chapters are known: create the clips
/// directory, download, check the download, cut each chapter; then, when
/// asked, make the variants; then, unless the full video is kept, delete it.
pub open spec fn plan(
    url: Seq<char>,
    keep_full: bool,
    formats: bool,
    out: Seq<char>,
    cs: Seq<ChapterView>,
    names: Seq<Seq<char>>,
) -> Seq<StepView> {
    seq![
        StepView::MakeDir(clips_dir(out)),
        StepView::Download(download_args_of(url, video_template(out))),
        StepView::ExpectFile(video_path(out)),
    ] + cut_steps(out, cs, names) + (if formats {
        variant_part(out, cs, names)
    } else {
        Seq::empty()
    }) + (if keep_full {
        Seq::empty()
    } else {
        seq![StepView::RemoveFile(video_path(out))]
    })
}

fn push_step(v: &mut Vec<Step>, s: Step)
    ensures
        step_views(final(v)@) == step_views(old(v)@).push(s@),
{
    let ghost t = s@;
    v.push(s);
    assert(step_views(final(v)@) =~= step_views(old(v)@).push(t));
}

fn dir_of(out: &str, kind: Rendition) -> (r: String)
    ensures
        r@ == rendition_dir(out@, kind),
{
    match kind {
        Rendition::Clip => join_path(out, "clips"),
        Rendition::Vertical => join_path(join_path(out, "formats").as_str(), "vertical"),
        Rendition::AudioOnly => join_path(join_path(out, "formats").as_str(), "audio_only"),
        Rendition::NoAudio => join_path(join_path(out, "formats").as_str(), "no_audio"),
    }
}

/// The step that makes one rendition of the chapter at `index`.
pub fn make_rendition_step(out: &str, kind: Rendition, index: usize, chapter: &Chapter, name: &str) -> (r: Step)
    requires
        index < usize::MAX,
    ensures
        r@ == rendition_step(out@, kind, index as int, chapter@, name@),
{
    let video = join_path(out, "full_video.mp4");
    let mut file = chapter_stem(index + 1, name);
    match kind {
        Rendition::AudioOnly => file.append(".mp3"),
        _ => file.append(".mp4"),
    }
    let path = join_path(dir_of(out, kind).as_str(), file.as_str());
    let args = transcode_args(kind, video.as_str(), chapter, path.as_str());
    let title = String::from_str(chapter.title.as_str());
    match kind {
        Rendition::Clip => Step::Cut(title, args),
        _ => Step::Variant(kind, title, args),
    }
}

/// Builds the steps of a run once the chapters are known, for the sanitized
/// video title `dir_name` and one sanitized title per chapter in `names`.
pub fn plan_steps(
    url: &str,
    keep_full: bool,
    formats: bool,
    dir_name: &str,
    chapters: &Vec<Chapter>,
    names: &Vec<String>,
) -> (r: Vec<Step>)
    requires
        names@.len() == chapters@.len(),
    ensures
        step_views(r@) == plan(
            url@,
            keep_full,
            formats,
            output_dir(dir_name@),
            chapter_views(chapters@),
            texts(names@),
        ),
{
    let out = join_path(".", dir_name);
    let ghost o = out@;
    let ghost cs = chapter_views(chapters@);
    let ghost ns = texts(names@);
    let n = chapters.len();
    let mut v: Vec<Step> = Vec::new();
    push_step(&mut v, Step::MakeDir(dir_of(out.as_str(), Rendition::Clip)));
    let template = join_path(out.as_str(), "full_video.%(ext)s");
    push_step(&mut v, Step::Download(download_args(url, template.as_str())));
    push_step(&mut v, Step::ExpectFile(join_path(out.as_str(), "full_video.mp4")));
    let ghost head = seq![
        StepView::MakeDir(clips_dir(o)),
        StepView::Download(download_args_of(url@, video_template(o))),
        StepView::ExpectFile(video_path(o)),
    ];
    assert(step_views(v@) =~= head);
    let mut i: usize = 0;
    while i < n
        invariant
            n == chapters@.len(),
            names@.len() == n,
            o == out@,
            cs == chapter_views(chapters@),
            ns == texts(names@),
            i <= n,
            step_views(v@) == head + cut_steps(o, cs, ns).take(i as int),
        decreases n - i,
    {
        let s = make_rendition_step(out.as_str(), Rendition::Clip, i, &chapters[i], names[i].as_str());
        push_step(&mut v, s);
        assert(cut_steps(o, cs, ns).take(i + 1) =~= cut_steps(o, cs, ns).take(i as int).push(s@));
        i = i + 1;
    }
    assert(cut_steps(o, cs, ns).take(n as int) =~= cut_steps(o, cs, ns));
    let ghost body = head + cut_steps(o, cs, ns);
    if formats {
        let formats_path = join_path(out.as_str(), "formats");
        push_step(&mut v, Step::MakeDir(formats_path));
        push_step(&mut v, Step::MakeDir(dir_of(out.as_str(), Rendition::Vertical)));
        push_step(&mut v, Step::MakeDir(dir_of(out.as_str(), Rendition::AudioOnly)));
        push_step(&mut v, Step::MakeDir(dir_of(out.as_str(), Rendition::NoAudio)));
        let ghost dirs = variant_part(o, cs, ns).take(4);
        assert(step_views(v@) =~= body + dirs);
        let ghost vs = variant_steps(o, cs, ns);
        let mut j: usize = 0;
        while j < n
            invariant
                n == chapters@.len(),
                names@.len() == n,
                o == out@,
                cs == chapter_views(chapters@),
                ns == texts(names@),
                vs == variant_steps(o, cs, ns),
                j <= n,
                step_views(v@) == body + dirs + vs.take(3 * j),
            decreases n - j,
        {
            let c = &chapters[j];
            let nm = names[j].as_str();
            let a = make_rendition_step(out.as_str(), Rendition::Vertical, j, c, nm);
            let b = make_rendition_step(out.as_str(), Rendition::AudioOnly, j, c, nm);
            let d = make_rendition_step(out.as_str(), Rendition::NoAudio, j, c, nm);
            assert((3 * j) / 3 == j && (3 * j + 1) / 3 == j && (3 * j + 2) / 3 == j);
            assert((3 * j) % 3 == 0 && (3 * j + 1) % 3 == 1 && (3 * j + 2) % 3 == 2);
            assert(vs.take(3 * j + 3) =~= vs.take(3 * j).push(a@).push(b@).push(d@));
            push_step(&mut v, a);
            push_step(&mut v, b);
            push_step(&mut v, d);
            j = j + 1;
        }
        assert(vs.take(3 * n) =~= vs);
        assert(dirs + vs =~= variant_part(o, cs, ns));
    }
    let ghost mid = body + (if formats {
        variant_part(o, cs, ns)
    } else {
        Seq::empty()
    });
    assert(step_views(v@) =~= mid);
    if !keep_full {
        push_step(&mut v, Step::RemoveFile(join_path(out.as_str(), "full_video.mp4")));
    }
    assert(step_views(v@) =~= plan(url@, keep_full, formats, o, cs, ns));
    v
}

proof fn lemma_suffix_cancel(a: Seq<char>, b: Seq<char>, x: Seq<char>)
    requires
        a + x == b + x,
    ensures
        a == b,
{
    assert(a =~= (a + x).subrange(0, a.len() as int));
    assert(b =~= (b + x).subrange(0, b.len() as int));
}

proof fn lemma_prefix_cancel(x: Seq<char>, a: Seq<char>, b: Seq<char>)
    requires
        x + a == x + b,
    ensures
        a == b,
{
    assert(a =~= (x + a).subrange(x.len() as int, (x + a).len() as int));
    assert(b =~= (x + b).subrange(x.len() as int, (x + b).len() as int));
}

/// Each rendition of each chapter goes to its own file: chapters at
/// different positions never share one, whatever their titles.
pub proof fn lemma_rendition_paths_distinct(
    out: Seq<char>,
    kind: Rendition,
    i: int,
    j: int,
    a: Seq<char>,
    b: Seq<char>,
)
    requires
        0 <= i,
        0 <= j,
        i != j,
    ensures
        rendition_path(out, kind, i, a) != rendition_path(out, kind, j, b),
{
    lemma_stems_distinct((i + 1) as nat, (j + 1) as nat, a, b);
    if rendition_path(out, kind, i, a) == rendition_path(out, kind, j, b) {
        let d = rendition_dir(out, kind) + seq!['/'];
        let x = stem((i + 1) as nat, a) + extension(kind);
        let y = stem((j + 1) as nat, b) + extension(kind);
        assert(rendition_dir(out, kind) + seq!['/'] + x =~= d + x);
        assert(rendition_dir(out, kind) + seq!['/'] + y =~= d + y);
        lemma_prefix_cancel(d, x, y);
        lemma_suffix_cancel(stem((i + 1) as nat, a), stem((j + 1) as nat, b), extension(kind));
    }
}

/// The cuts come right after the download, one per chapter in the chapters'
/// order: the chapter at position `i` is cut to a file in the clips
/// directory named by the number `i + 1` with at least two digits, `_`, and
/// its sanitized title; no two chapters share a file.
pub proof fn lemma_cut_order(
    url: Seq<char>,
    keep_full: bool,
    formats: bool,
    out: Seq<char>,
    cs: Seq<ChapterView>,
    names: Seq<Seq<char>>,
)
    requires
        names.len() == cs.len(),
    ensures
        forall|i: int|
            0 <= i < cs.len() ==> #[trigger] plan(url, keep_full, formats, out, cs, names)[3 + i]
                == StepView::Cut(
                cs[i].title,
                transcode_args_of(
                    Rendition::Clip,
                    video_path(out),
                    cs[i],
                    joined(clips_dir(out), stem((i + 1) as nat, names[i]) + ".mp4"@),
                ),
            ),
        forall|i: int, j: int|
            0 <= i < cs.len() && 0 <= j < cs.len() && i != j ==> rendition_path(
                out,
                Rendition::Clip,
                i,
                names[i],
            ) != rendition_path(out, Rendition::Clip, j, names[j]),
{
    let p = plan(url, keep_full, formats, out, cs, names);
    assert forall|i: int| 0 <= i < cs.len() implies #[trigger] p[3 + i] == StepView::Cut(
        cs[i].title,
        transcode_args_of(
            Rendition::Clip,
            video_path(out),
            cs[i],
            joined(clips_dir(out), stem((i + 1) as nat, names[i]) + ".mp4"@),
        ),
    ) by {
        assert(p[3 + i] == cut_steps(out, cs, names)[i]);
    }
    assert forall|i: int, j: int|
        0 <= i < cs.len() && 0 <= j < cs.len() && i != j implies rendition_path(
        out,
        Rendition::Clip,
        i,
        names[i],
    ) != rendition_path(out, Rendition::Clip, j, names[j]) by {
        lemma_rendition_paths_distinct(out, Rendition::Clip, i, j, names[i], names[j]);
    }
}

/// Unless the full video is kept, the last step deletes it; when it is kept,
/// no step deletes anything. No step ever deletes another file, so the
/// chapters' files stay.
pub proof fn lemma_cleanup(
    url: Seq<char>,
    keep_full: bool,
    formats: bool,
    out: Seq<char>,
    cs: Seq<ChapterView>,
    names: Seq<Seq<char>>,
)
    ensures
        !keep_full ==> plan(url, keep_full, formats, out, cs, names).last() == StepView::RemoveFile(
            video_path(out),
        ),
        keep_full ==> forall|i: int|
            0 <= i < plan(url, keep_full, formats, out, cs, names).len() ==> !(#[trigger] plan(
                url,
                keep_full,
                formats,
                out,
                cs,
                names,
            )[i] is RemoveFile),
        forall|i: int|
            0 <= i < plan(url, keep_full, formats, out, cs, names).len() && (#[trigger] plan(
                url,
                keep_full,
                formats,
                out,
                cs,
                names,
            )[i] is RemoveFile) ==> plan(url, keep_full, formats, out, cs, names)[i]
                == StepView::RemoveFile(video_path(out)),
{
    let p = plan(url, keep_full, formats, out, cs, names);
    let head = seq![
        StepView::MakeDir(clips_dir(out)),
        StepView::Download(download_args_of(url, video_template(out))),
        StepView::ExpectFile(video_path(out)),
    ];
    let cuts = cut_steps(out, cs, names);
    let vars = if formats {
        variant_part(out, cs, names)
    } else {
        Seq::empty()
    };
    let tail = if keep_full {
        Seq::empty()
    } else {
        seq![StepView::RemoveFile(video_path(out))]
    };
    let body = head + cuts + vars;
    assert(p == body + tail);
    assert forall|i: int| 0 <= i < body.len() implies !(#[trigger] body[i] is RemoveFile) by {
        if i >= 3 + cuts.len() {
            let k = i - 3 - cuts.len();
            assert(body[i] == vars[k]);
            if k >= 4 {
                assert(vars[k] == variant_steps(out, cs, names)[k - 4]);
            }
        } else if i >= 3 {
            assert(body[i] == cuts[i - 3]);
        }
    }
    assert forall|i: int| 0 <= i < p.len() && (#[trigger] p[i] is RemoveFile) implies p[i]
        == StepView::RemoveFile(video_path(out)) by {
        if i < body.len() {
            assert(p[i] == body[i]);
        }
    }
    if keep_full {
        assert(p =~= body);
    }
}

} // verus!
