//! The run as a state machine: the caller performs the step that the session
//! names and reports how it went; the session decides what comes next.
use vstd::prelude::*;
use vstd::string::StringExecFns;
use crate::media::{
    info_args, info_args_of, texts, Chapter, ChapterView, VideoInfo, chapter_views,
    DOWNLOADER, TRANSCODER,
};
use crate::naming::{sanitize_name, sanitized_from};
use crate::plan::{output_dir, plan, plan_steps, step_views, Step, StepView};
use crate::url::{clean_url, normalized};

verus! {

/// Why a run stopped.
pub enum PipelineError {
    /// The named program could not be started.
    MissingTool(String),
    /// The metadata could not be had; what the downloader reported.
    MetadataFailed(String),
    /// The video has no chapters.
    NoChapters,
    /// This directory could not be created.
    DirectoryFailed(String),
    /// The downloader failed.
    DownloadFailed,
    /// The downloader succeeded, but the merged video is not where expected.
    DownloadMissing,
    /// The transcoder failed on the named chapter.
    SplitFailed(String),
    /// This file could not be deleted.
    RemoveFailed(String),
}

/// Why a run stopped, for contracts.
pub enum ErrorView {
    MissingTool(Seq<char>),
    MetadataFailed(Seq<char>),
    NoChapters,
    DirectoryFailed(Seq<char>),
    DownloadFailed,
    DownloadMissing,
    SplitFailed(Seq<char>),
    RemoveFailed(Seq<char>),
}

impl View for PipelineError {
    type V = ErrorView;

    open spec fn view(&self) -> ErrorView {
        match self {
            PipelineError::MissingTool(s) => ErrorView::MissingTool(s@),
            PipelineError::MetadataFailed(s) => ErrorView::MetadataFailed(s@),
            PipelineError::NoChapters => ErrorView::NoChapters,
            PipelineError::DirectoryFailed(s) => ErrorView::DirectoryFailed(s@),
            PipelineError::DownloadFailed => ErrorView::DownloadFailed,
            PipelineError::DownloadMissing => ErrorView::DownloadMissing,
            PipelineError::SplitFailed(s) => ErrorView::SplitFailed(s@),
            PipelineError::RemoveFailed(s) => ErrorView::RemoveFailed(s@),
        }
    }
}

/// How the step that the session named went.
pub enum Event {
    /// It succeeded.
    Succeeded,
    /// It failed; what the program reported, if anything.
    Failed(String),
    /// The metadata was fetched and read.
    Info(VideoInfo),
}

/// What the downloader reported of a video, for contracts.
pub struct InfoView {
    pub title: Seq<char>,
    pub chapters: Option<Seq<ChapterView>>,
}

impl View for VideoInfo {
    type V = InfoView;

    open spec fn view(&self) -> InfoView {
        InfoView {
            title: self.title@,
            chapters: match self.chapters {
                Some(v) => Some(chapter_views(v@)),
                None => None,
            },
        }
    }
}

/// The state of a run.
pub struct Session {
    /// The URL of the video, cleaned of shell escapes.
    pub url: String,
    pub keep_full: bool,
    pub formats: bool,
    /// The steps planned so far.
    pub steps: Vec<Step>,
    /// The index of the step to perform next.
    pub pos: usize,
    /// Why the run stopped, once it has.
    pub failure: Option<PipelineError>,
    /// The sanitized video title, once the metadata is in.
    pub dir_name: String,
    /// The sanitized chapter titles, once the metadata is in.
    pub chapter_names: Vec<String>,
}

/// The state of a run, for contracts.
pub struct SessionView {
    pub url: Seq<char>,
    pub keep_full: bool,
    pub formats: bool,
    pub steps: Seq<StepView>,
    pub pos: nat,
    pub failure: Option<ErrorView>,
    pub dir_name: Seq<char>,
    pub chapter_names: Seq<Seq<char>>,
}

impl View for Session {
    type V = SessionView;

    open spec fn view(&self) -> SessionView {
        SessionView {
            url: self.url@,
            keep_full: self.keep_full,
            formats: self.formats,
            steps: step_views(self.steps@),
            pos: self.pos as nat,
            failure: match self.failure {
                Some(e) => Some(e@),
                None => None,
            },
            dir_name: self.dir_name@,
            chapter_names: texts(self.chapter_names@),
        }
    }
}

/// A run that has a step left to perform.
pub open spec fn running(s: SessionView) -> bool {
    s.failure is None && s.pos < s.steps.len()
}

/// A run that performed every step it planned.
pub open spec fn succeeded(s: SessionView) -> bool {
    s.failure is None && s.pos >= s.steps.len()
}

/// The run as it starts: check both programs, then fetch the metadata.
pub open spec fn initial(url: Seq<char>, keep_full: bool, formats: bool) -> SessionView {
    SessionView {
        url: normalized(url),
        keep_full,
        formats,
        steps: seq![
            StepView::CheckTool(DOWNLOADER@),
            StepView::CheckTool(TRANSCODER@),
            StepView::FetchInfo(info_args_of(normalized(url))),
        ],
        pos: 0,
        failure: None,
        dir_name: Seq::empty(),
        chapter_names: Seq::empty(),
    }
}

/// What a failed step means for the run: the error that stops it, or
/// `None` when the run goes on (a variant that could not be made).
pub open spec fn failure_of(st: StepView, detail: Seq<char>) -> Option<ErrorView> {
    match st {
        StepView::CheckTool(n) => Some(ErrorView::MissingTool(n)),
        StepView::FetchInfo(_) => Some(ErrorView::MetadataFailed(detail)),
        StepView::MakeDir(p) => Some(ErrorView::DirectoryFailed(p)),
        StepView::Download(_) => Some(ErrorView::DownloadFailed),
        StepView::ExpectFile(_) => Some(ErrorView::DownloadMissing),
        StepView::Cut(t, _) => Some(ErrorView::SplitFailed(t)),
        StepView::Variant(_, _, _) => None,
        StepView::RemoveFile(p) => Some(ErrorView::RemoveFailed(p)),
    }
}

/// The run after its current step succeeded (`ok`) or failed.
pub open spec fn after_step(s: SessionView, ok: bool, detail: Seq<char>) -> SessionView {
    if !running(s) {
        s
    } else if ok {
        SessionView { pos: s.pos + 1, ..s }
    } else {
        match failure_of(s.steps[s.pos as int], detail) {
            None => SessionView { pos: s.pos + 1, ..s },
            Some(e) => SessionView { failure: Some(e), ..s },
        }
    }
}

/// The video has at least one chapter.
pub open spec fn has_chapters(info: InfoView) -> bool {
    info.chapters is Some && info.chapters->0.len() > 0
}

/// The run after the metadata came in, with the sanitized video title
/// `dir_name` and the sanitized chapter titles `names`.
pub open spec fn after_info(
    s: SessionView,
    info: InfoView,
    dir_name: Seq<char>,
    names: Seq<Seq<char>>,
) -> SessionView {
    if !has_chapters(info) {
        SessionView { failure: Some(ErrorView::NoChapters), ..s }
    } else {
        SessionView {
            steps: s.steps + plan(
                s.url,
                s.keep_full,
                s.formats,
                output_dir(dir_name),
                info.chapters->0,
                names,
            ),
            pos: s.pos + 1,
            dir_name,
            chapter_names: names,
            ..s
        }
    }
}

/// The session is waiting for the metadata.
pub open spec fn awaits_info(s: SessionView) -> bool {
    running(s) && s.steps[s.pos as int] is FetchInfo
}

/// Whether an event counts as success of the current step. Metadata counts
/// as success on any step; the fetch step succeeds only with metadata.
pub open spec fn counts_as_success(s: SessionView, e: &Event) -> bool {
    match e {
        Event::Succeeded => !awaits_info(s),
        Event::Failed(_) => false,
        Event::Info(_) => true,
    }
}

/// What a failure event reports; empty for the others.
pub open spec fn detail_of(e: &Event) -> Seq<char> {
    match e {
        Event::Failed(d) => d@,
        _ => Seq::empty(),
    }
}

impl Session {
    /// Starts a run on the URL as pasted, cleaned of shell escapes.
    pub fn new(url: &str, keep_full: bool, formats: bool) -> (r: Session)
        ensures
            r@ == initial(url@, keep_full, formats),
    {
        let u = clean_url(url);
        let mut steps: Vec<Step> = Vec::new();
        steps.push(Step::CheckTool(String::from_str(DOWNLOADER)));
        steps.push(Step::CheckTool(String::from_str(TRANSCODER)));
        steps.push(Step::FetchInfo(info_args(u.as_str())));
        let r = Session {
            url: u,
            keep_full,
            formats,
            steps,
            pos: 0,
            failure: None,
            dir_name: String::new(),
            chapter_names: Vec::new(),
        };
        assert(r@.steps =~= initial(url@, keep_full, formats).steps);
        assert(r@.chapter_names =~= Seq::<Seq<char>>::empty());
        r
    }

    /// The step to perform next, if the run is still going.
    pub fn next_step(&self) -> (r: Option<&Step>)
        ensures
            running(self@) ==> r == Some(&self.steps@[self.pos as int]),
            !running(self@) ==> r is None,
    {
        if self.failure.is_none() && self.pos < self.steps.len() {
            Some(&self.steps[self.pos])
        } else {
            None
        }
    }

    /// Whether every planned step was performed without a fatal failure.
    pub fn is_done(&self) -> (r: bool)
        ensures
            r == succeeded(self@),
    {
        self.failure.is_none() && self.pos >= self.steps.len()
    }

    /// Records how the current step went and decides what comes next.
    pub fn advance(&mut self, event: Event)
        ensures
            awaits_info(old(self)@) && event is Info ==> {
                let info = (event->Info_0)@;
                &&& final(self)@ == after_info(
                    old(self)@,
                    info,
                    final(self)@.dir_name,
                    final(self)@.chapter_names,
                )
                &&& has_chapters(info) ==> {
                    &&& sanitized_from(final(self)@.dir_name, info.title)
                    &&& final(self)@.chapter_names.len() == info.chapters->0.len()
                    &&& forall|i: int|
                        0 <= i < final(self)@.chapter_names.len() ==> sanitized_from(
                            #[trigger] final(self)@.chapter_names[i],
                            info.chapters->0[i].title,
                        )
                }
            },
            !(awaits_info(old(self)@) && event is Info) ==> final(self)@ == after_step(
                old(self)@,
                counts_as_success(old(self)@, &event),
                detail_of(&event),
            ),
    {
        if !(self.failure.is_none() && self.pos < self.steps.len()) {
            return;
        }
        let fetching = match &self.steps[self.pos] {
            Step::FetchInfo(_) => true,
            _ => false,
        };
        match event {
            Event::Info(info) if fetching => {
                self.take_info(info);
            },
            Event::Failed(d) => {
                self.fail_current(d);
            },
            Event::Succeeded if fetching => {
                self.fail_current(String::new());
            },
            _ => {
                self.pos = self.pos + 1;
            },
        }
    }

    fn fail_current(&mut self, detail: String)
        requires
            running(old(self)@),
        ensures
            final(self)@ == after_step(old(self)@, false, detail@),
    {
        let len = self.steps.len();
        assert(self.pos < len);
        let err: Option<PipelineError> = match &self.steps[self.pos] {
            Step::CheckTool(n) => Some(PipelineError::MissingTool(n.clone())),
            Step::FetchInfo(_) => Some(PipelineError::MetadataFailed(detail)),
            Step::MakeDir(p) => Some(PipelineError::DirectoryFailed(p.clone())),
            Step::Download(_) => Some(PipelineError::DownloadFailed),
            Step::ExpectFile(_) => Some(PipelineError::DownloadMissing),
            Step::Cut(t, _) => Some(PipelineError::SplitFailed(t.clone())),
            Step::Variant(_, _, _) => None,
            Step::RemoveFile(p) => Some(PipelineError::RemoveFailed(p.clone())),
        };
        match err {
            None => {
                self.pos = self.pos + 1;
            },
            Some(e) => {
                self.failure = Some(e);
            },
        }
    }

    fn take_info(&mut self, info: VideoInfo)
        requires
            awaits_info(old(self)@),
        ensures
            final(self)@ == after_info(
                old(self)@,
                info@,
                final(self)@.dir_name,
                final(self)@.chapter_names,
            ),
            has_chapters(info@) ==> {
                &&& sanitized_from(final(self)@.dir_name, info@.title)
                &&& final(self)@.chapter_names.len() == info@.chapters->0.len()
                &&& forall|i: int|
                    0 <= i < final(self)@.chapter_names.len() ==> sanitized_from(
                        #[trigger] final(self)@.chapter_names[i],
                        info@.chapters->0[i].title,
                    )
            },
    {
        let len = self.steps.len();
        assert(self.pos < len);
        let ghost iv = info@;
        let VideoInfo { title, chapters } = info;
        let chs: Vec<Chapter> = match chapters {
            Some(c) => c,
            None => {
                self.failure = Some(PipelineError::NoChapters);
                return;
            },
        };
        let n = chs.len();
        if n == 0 {
            self.failure = Some(PipelineError::NoChapters);
            return;
        }
        let dir = sanitize_name(title.as_str());
        let mut names: Vec<String> = Vec::new();
        let mut i: usize = 0;
        while i < n
            invariant
                n == chs@.len(),
                i <= n,
                names@.len() == i,
                forall|k: int| 0 <= k < i ==> sanitized_from(#[trigger] names@[k]@, chs@[k]@.title),
            decreases n - i,
        {
            let nm = sanitize_name(chs[i].title.as_str());
            names.push(nm);
            i = i + 1;
        }
        let mut planned = plan_steps(
            self.url.as_str(),
            self.keep_full,
            self.formats,
            dir.as_str(),
            &chs,
            &names,
        );
        let ghost before = step_views(self.steps@);
        let ghost added = step_views(planned@);
        self.steps.append(&mut planned);
        assert(step_views(self.steps@) =~= before + added);
        self.pos = self.pos + 1;
        self.dir_name = dir;
        self.chapter_names = names;
        assert(iv.chapters->0 == chapter_views(chs@));
    }
}

/// A video without chapters stops the run as soon as its metadata is in,
/// with `NoChapters`: the run has then planned no download, and it does
/// nothing more.
pub proof fn lemma_no_chapters_no_download(
    url: Seq<char>,
    keep_full: bool,
    formats: bool,
    info: InfoView,
    dir_name: Seq<char>,
    names: Seq<Seq<char>>,
)
    requires
        !has_chapters(info),
    ensures
        ({
            let s = after_step(after_step(initial(url, keep_full, formats), true, Seq::empty()), true, Seq::empty());
            let r = after_info(s, info, dir_name, names);
            &&& awaits_info(s)
            &&& r.failure == Some(ErrorView::NoChapters)
            &&& !running(r)
            &&& forall|i: int| 0 <= i < r.steps.len() ==> !(#[trigger] r.steps[i] is Download)
        }),
{
    let s = after_step(after_step(initial(url, keep_full, formats), true, Seq::empty()), true, Seq::empty());
    let r = after_info(s, info, dir_name, names);
    assert(r.steps == s.steps);
    assert(s.pos == 2);
}

/// A run that has stopped does nothing more, whatever is reported to it.
pub proof fn lemma_stopped_stays(s: SessionView, ok: bool, detail: Seq<char>)
    requires
        !running(s),
    ensures
        after_step(s, ok, detail) == s,
        !awaits_info(s),
{
}

/// When the cut of a chapter fails, the run stops at once with an error
/// that names the chapter, and takes no further step: the files of the
/// chapters cut before stay as they are.
pub proof fn lemma_cut_failure_stops(s: SessionView, detail: Seq<char>)
    requires
        running(s),
        s.steps[s.pos as int] is Cut,
    ensures
        ({
            let r = after_step(s, false, detail);
            &&& r.failure == Some(ErrorView::SplitFailed(s.steps[s.pos as int]->Cut_0))
            &&& r.steps == s.steps
            &&& r.pos == s.pos
            &&& !running(r)
        }),
{
}

/// When a variant cannot be made, the run goes on with the next step, just
/// as if it had been made.
pub proof fn lemma_variant_failure_continues(s: SessionView, detail: Seq<char>)
    requires
        running(s),
        s.steps[s.pos as int] is Variant,
    ensures
        after_step(s, false, detail) == after_step(s, true, detail),
        after_step(s, false, detail).failure is None,
        after_step(s, false, detail).pos == s.pos + 1,
{
}

} // verus!
