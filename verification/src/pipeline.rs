//! The run over a whole document.
//!
//! The pages are rendered once for the whole document and then read one
//! after the other, each normalized first where that is asked for. A failure
//! to render or to normalize ends the run; a failure to read a page is
//! recorded for that page and the run goes on.

use crate::config::{Config, ConfigView, RecognitionConfig, RecognitionConfigView};
use crate::error::{OcrError, OcrErrorView};
use crate::pdf::{too_many_pages, MAX_PAGES};
use crate::text::{decimal, push_decimal, texts};
use vstd::prelude::*;
use vstd::string::*;

verus! {

/// What the run has for one page.
#[derive(Debug, Clone, PartialEq, Eq)]
pub enum PageResult {
    /// The text that was read from the page with the given one-based number.
    Text { page_number: u16, text: String },
    /// The page with the given one-based number could not be read.
    Failed { page_number: u16 },
}

/// The mathematical value of a [`PageResult`].
pub enum PageResultView {
    Text { page_number: u16, text: Seq<char> },
    Failed { page_number: u16 },
}

impl View for PageResult {
    type V = PageResultView;

    open spec fn view(&self) -> PageResultView {
        match self {
            PageResult::Text { page_number, text } => PageResultView::Text {
                page_number: *page_number,
                text: text@,
            },
            PageResult::Failed { page_number } => PageResultView::Failed {
                page_number: *page_number,
            },
        }
    }
}

impl PageResultView {
    /// The one-based number of the page.
    pub open spec fn page_number(self) -> u16 {
        match self {
            PageResultView::Text { page_number, .. } => page_number,
            PageResultView::Failed { page_number } => page_number,
        }
    }

    /// The part of the output for the page: a line that names the page and
    /// then its text, or a line that marks the page as failed.
    pub open spec fn section(self) -> Seq<char> {
        match self {
            PageResultView::Text { page_number, text } => "\n--- Page "@ + decimal(
                page_number as nat,
            ) + " ---\n\n"@ + text + "\n"@,
            PageResultView::Failed { page_number } => "\n--- Page "@ + decimal(page_number as nat)
                + ": recognition failed ---\n"@,
        }
    }
}

/// The values of a list of page results.
pub open spec fn results_view(pages: Seq<PageResult>) -> Seq<PageResultView> {
    Seq::new(pages.len(), |i: int| pages[i]@)
}

/// The sections of the pages, one after the other.
pub open spec fn document_text(pages: Seq<PageResultView>) -> Seq<char>
    decreases pages.len(),
{
    if pages.len() == 0 {
        Seq::<char>::empty()
    } else {
        document_text(pages.drop_last()) + pages.last().section()
    }
}

/// The pages are numbered from 1 in the order in which they stand.
pub open spec fn numbered_in_order(pages: Seq<PageResultView>) -> bool {
    forall|i: int| 0 <= i < pages.len() ==> (#[trigger] pages[i]).page_number() == i + 1
}

/// What a run has for a document: one result for each page, in page order.
#[derive(Debug, Clone, PartialEq, Eq)]
pub struct DocumentResult {
    pub pages: Vec<PageResult>,
}

impl View for DocumentResult {
    type V = Seq<PageResultView>;

    open spec fn view(&self) -> Seq<PageResultView> {
        results_view(self.pages@)
    }
}

impl PageResult {
    /// Appends the part of the output for the page to `out`.
    fn push_section(&self, out: &mut String)
        ensures
            final(out)@ == old(out)@ + self@.section(),
    {
        match self {
            PageResult::Text { page_number, text } => {
                out.append("\n--- Page ");
                push_decimal(out, *page_number as u64);
                out.append(" ---\n\n");
                out.append(text.as_str());
                out.append("\n");
                assert(out@ =~= old(out)@ + self@.section());
            },
            PageResult::Failed { page_number } => {
                out.append("\n--- Page ");
                push_decimal(out, *page_number as u64);
                out.append(": recognition failed ---\n");
                assert(out@ =~= old(out)@ + self@.section());
            },
        }
    }
}

impl DocumentResult {
    /// The output for the document: the sections of its pages in page order.
    pub fn to_text(&self) -> (text: String)
        ensures
            text@ == document_text(self@),
    {
        let mut text = String::new();
        let mut done: usize = 0;
        assert(self@.take(0) =~= Seq::empty());
        while done < self.pages.len()
            invariant
                done <= self.pages.len(),
                text@ == document_text(self@.take(done as int)),
            decreases self.pages.len() - done,
        {
            let ghost before = self@.take(done as int);
            let ghost after = self@.take(done + 1);
            self.pages[done].push_section(&mut text);
            assert(after.drop_last() =~= before);
            assert(after.last() == self.pages[done as int]@);
            done = done + 1;
        }
        assert(self@.take(done as int) =~= self@);
        text
    }
}

/// What the caller reports back to the pipeline.
#[derive(Debug, Clone, PartialEq, Eq)]
pub enum PipelineEvent {
    /// Every page was rendered; the payload holds the paths of the images,
    /// in page order.
    Rasterized(Vec<String>),
    /// The document could not be rendered.
    RasterizeFailed(OcrError),
    /// The image that was to be normalized has been normalized in place.
    Normalized,
    /// The image that was to be normalized could not be.
    NormalizeFailed(OcrError),
    /// The text that was read from the image that was to be read.
    Recognized(String),
    /// The image that was to be read could not be.
    RecognizeFailed(OcrError),
}

/// The mathematical value of a [`PipelineEvent`].
pub enum PipelineEventView {
    Rasterized(Seq<Seq<char>>),
    RasterizeFailed(OcrErrorView),
    Normalized,
    NormalizeFailed(OcrErrorView),
    Recognized(Seq<char>),
    RecognizeFailed(OcrErrorView),
}

impl View for PipelineEvent {
    type V = PipelineEventView;

    open spec fn view(&self) -> PipelineEventView {
        match self {
            PipelineEvent::Rasterized(paths) => PipelineEventView::Rasterized(texts(paths@)),
            PipelineEvent::RasterizeFailed(error) => PipelineEventView::RasterizeFailed(error@),
            PipelineEvent::Normalized => PipelineEventView::Normalized,
            PipelineEvent::NormalizeFailed(error) => PipelineEventView::NormalizeFailed(error@),
            PipelineEvent::Recognized(text) => PipelineEventView::Recognized(text@),
            PipelineEvent::RecognizeFailed(error) => PipelineEventView::RecognizeFailed(error@),
        }
    }
}

/// What the pipeline asks of the caller next.
#[derive(Debug, Clone, PartialEq, Eq)]
pub enum PipelineAction {
    /// Render every page of the document at `pdf_path` at `dpi` pixels to the
    /// inch.
    Rasterize { pdf_path: String, dpi: u16 },
    /// Normalize, in place, the image of the page with the given number.
    Normalize { page_number: u16, image_path: String },
    /// Read the text of the image of the page with the given number.
    Recognize { page_number: u16, image_path: String, config: RecognitionConfig },
    /// Every page has its result: take the document with
    /// [`Pipeline::into_document`] and write it out.
    Finish,
    /// The run has failed and there is nothing to write out.
    Abort(OcrError),
}

/// The mathematical value of a [`PipelineAction`].
pub enum PipelineActionView {
    Rasterize { pdf_path: Seq<char>, dpi: u16 },
    Normalize { page_number: u16, image_path: Seq<char> },
    Recognize { page_number: u16, image_path: Seq<char>, config: RecognitionConfigView },
    Finish,
    Abort(OcrErrorView),
}

impl View for PipelineAction {
    type V = PipelineActionView;

    open spec fn view(&self) -> PipelineActionView {
        match self {
            PipelineAction::Rasterize { pdf_path, dpi } => PipelineActionView::Rasterize {
                pdf_path: pdf_path@,
                dpi: *dpi,
            },
            PipelineAction::Normalize { page_number, image_path } => PipelineActionView::Normalize {
                page_number: *page_number,
                image_path: image_path@,
            },
            PipelineAction::Recognize { page_number, image_path, config } => {
                PipelineActionView::Recognize {
                    page_number: *page_number,
                    image_path: image_path@,
                    config: config@,
                }
            },
            PipelineAction::Finish => PipelineActionView::Finish,
            PipelineAction::Abort(error) => PipelineActionView::Abort(error@),
        }
    }
}

/// Where a run stands. While a page is normalized or read, it is the first
/// page that has no result yet.
pub enum PipelineStageView {
    /// The document is being rendered.
    Rasterizing,
    /// The image of a page is being normalized.
    Normalizing,
    /// The image of a page is being read.
    Recognizing,
    /// Every page has its result.
    Finished,
    /// The run has failed with the given failure.
    Failed(OcrErrorView),
}

/// The mathematical value of a [`Pipeline`].
pub struct PipelineView {
    pub config: ConfigView,
    pub stage: PipelineStageView,
    /// The paths of the page images, in page order; empty until the document
    /// is rendered.
    pub image_paths: Seq<Seq<char>>,
    /// The results of the pages processed so far, in page order.
    pub results: Seq<PageResultView>,
}

impl PipelineView {
    /// What holds of every run: there is at most one result for each page,
    /// the results are numbered from 1 in page order, a page waits exactly
    /// while the stage is `Normalizing` or `Recognizing`, nothing is
    /// normalized unless the settings ask for it, and at the end every page
    /// has its result.
    pub open spec fn wf(self) -> bool {
        &&& self.image_paths.len() <= MAX_PAGES
        &&& self.results.len() <= self.image_paths.len()
        &&& numbered_in_order(self.results)
        &&& self.stage is Rasterizing ==> self.image_paths.len() == 0
        &&& self.stage is Normalizing ==> self.config.preprocess && self.results.len()
            < self.image_paths.len()
        &&& self.stage is Recognizing ==> self.results.len() < self.image_paths.len()
        &&& self.stage is Finished ==> self.results.len() == self.image_paths.len()
    }

    /// The run with the given settings before anything has happened.
    pub open spec fn initial(config: ConfigView) -> PipelineView {
        PipelineView {
            config,
            stage: PipelineStageView::Rasterizing,
            image_paths: Seq::empty(),
            results: Seq::empty(),
        }
    }

    /// The one-based number of the first page that has no result yet.
    pub open spec fn page_number(self) -> u16 {
        (self.results.len() + 1) as u16
    }

    /// The path of the image of the first page that has no result yet, as
    /// the rendering gave it.
    pub open spec fn image_path(self) -> Seq<char> {
        self.image_paths[self.results.len() as int]
    }

    /// What is asked of the caller in this state.
    pub open spec fn action(self) -> PipelineActionView {
        match self.stage {
            PipelineStageView::Rasterizing => PipelineActionView::Rasterize {
                pdf_path: self.config.pdf_path,
                dpi: self.config.dpi,
            },
            PipelineStageView::Normalizing => PipelineActionView::Normalize {
                page_number: self.page_number(),
                image_path: self.image_path(),
            },
            PipelineStageView::Recognizing => PipelineActionView::Recognize {
                page_number: self.page_number(),
                image_path: self.image_path(),
                config: self.config.recognition(),
            },
            PipelineStageView::Finished => PipelineActionView::Finish,
            PipelineStageView::Failed(error) => PipelineActionView::Abort(error),
        }
    }

    /// The stage in which the first page that has no result yet is taken up,
    /// or the end where every page has its result.
    pub open spec fn next_page_stage(self) -> PipelineStageView {
        if self.results.len() >= self.image_paths.len() {
            PipelineStageView::Finished
        } else if self.config.preprocess {
            PipelineStageView::Normalizing
        } else {
            PipelineStageView::Recognizing
        }
    }

    /// The state with another stage.
    pub open spec fn at(self, stage: PipelineStageView) -> PipelineView {
        PipelineView { stage, ..self }
    }

    /// The state with one more result, at the stage that follows.
    pub open spec fn with_result(self, result: PageResultView) -> PipelineView {
        let recorded = PipelineView { results: self.results.push(result), ..self };
        recorded.at(recorded.next_page_stage())
    }

    /// The state after an event. A failure to render or to normalize ends
    /// the run. A page that could not be read gets a failure marker in place
    /// of a text, and the run goes on with the next page. An event that does
    /// not answer what was asked leaves the state as it is.
    pub open spec fn advanced(self, event: PipelineEventView) -> PipelineView {
        match (self.stage, event) {
            (PipelineStageView::Rasterizing, PipelineEventView::Rasterized(image_paths)) => {
                if image_paths.len() > MAX_PAGES {
                    self.at(PipelineStageView::Failed(OcrErrorView::PdfLoad(too_many_pages())))
                } else {
                    let rendered = PipelineView { image_paths, ..self };
                    rendered.at(rendered.next_page_stage())
                }
            },
            (PipelineStageView::Rasterizing, PipelineEventView::RasterizeFailed(error)) => self.at(
                PipelineStageView::Failed(error),
            ),
            (PipelineStageView::Normalizing, PipelineEventView::Normalized) => self.at(
                PipelineStageView::Recognizing,
            ),
            (PipelineStageView::Normalizing, PipelineEventView::NormalizeFailed(error)) => self.at(
                PipelineStageView::Failed(error),
            ),
            (PipelineStageView::Recognizing, PipelineEventView::Recognized(text)) => {
                self.with_result(PageResultView::Text { page_number: self.page_number(), text })
            },
            (PipelineStageView::Recognizing, PipelineEventView::RecognizeFailed(_)) => {
                self.with_result(PageResultView::Failed { page_number: self.page_number() })
            },
            _ => self,
        }
    }

    /// The state after a sequence of events, taken one after the other.
    pub open spec fn after(self, events: Seq<PipelineEventView>) -> PipelineView
        decreases events.len(),
    {
        if events.len() == 0 {
            self
        } else {
            self.after(events.drop_last()).advanced(events.last())
        }
    }

    /// The exit code of the process: 0 where the run has finished, 1 where
    /// it has failed, none while it is under way.
    pub open spec fn exit_code(self) -> Option<u8> {
        match self.stage {
            PipelineStageView::Finished => Some(0),
            PipelineStageView::Failed(_) => Some(1),
            _ => None,
        }
    }
}

/// An event keeps what holds of every run.
pub proof fn lemma_advanced_is_wf(state: PipelineView, event: PipelineEventView)
    requires
        state.wf(),
    ensures
        state.advanced(event).wf(),
{
}

/// Whatever is reported, in whatever order, what holds of every run holds:
/// in particular the results are numbered from 1 in page order, and there is
/// never more than one for a page.
pub proof fn lemma_every_run_is_wf(config: ConfigView, events: Seq<PipelineEventView>)
    ensures
        PipelineView::initial(config).after(events).wf(),
    decreases events.len(),
{
    if events.len() > 0 {
        lemma_every_run_is_wf(config, events.drop_last());
        lemma_advanced_is_wf(
            PipelineView::initial(config).after(events.drop_last()),
            events.last(),
        );
    }
}

/// A run that has finished has exactly one result for each page of the
/// document, and the results stand in page order.
pub proof fn lemma_finished_run_has_every_page(config: ConfigView, events: Seq<PipelineEventView>)
    requires
        PipelineView::initial(config).after(events).stage is Finished,
    ensures
        ({
            let end = PipelineView::initial(config).after(events);
            &&& end.results.len() == end.image_paths.len()
            &&& numbered_in_order(end.results)
        }),
{
    lemma_every_run_is_wf(config, events);
}

/// The settings of a run never change.
pub proof fn lemma_settings_are_kept(state: PipelineView, events: Seq<PipelineEventView>)
    ensures
        state.after(events).config == state.config,
    decreases events.len(),
{
    if events.len() > 0 {
        lemma_settings_are_kept(state, events.drop_last());
    }
}

/// Where the settings do not ask for it, no image is ever normalized: what
/// is read is the image as it was rendered.
pub proof fn lemma_nothing_normalized_unless_asked(
    config: ConfigView,
    events: Seq<PipelineEventView>,
)
    requires
        !config.preprocess,
    ensures
        !(PipelineView::initial(config).after(events).action() is Normalize),
        !(PipelineView::initial(config).after(events).stage is Normalizing),
{
    lemma_every_run_is_wf(config, events);
    lemma_settings_are_kept(PipelineView::initial(config), events);
}

/// The image that is read for a page is the one that the rendering gave for
/// that page, and every page is read with the settings of the run.
pub proof fn lemma_read_image_is_rendered_image(state: PipelineView)
    requires
        state.wf(),
        state.stage is Recognizing,
    ensures
        state.action() == (PipelineActionView::Recognize {
            page_number: state.page_number(),
            image_path: state.image_paths[state.page_number() - 1],
            config: state.config.recognition(),
        }),
        1 <= state.page_number() <= state.image_paths.len(),
{
}

/// A page that could not be read gets a failure marker with its number, and
/// the run goes on: with the next page where there is one, to its end where
/// there is none. It does not fail, and the images of the other pages are
/// untouched.
pub proof fn lemma_failed_page_is_marked(state: PipelineView, error: OcrErrorView)
    requires
        state.wf(),
        state.stage is Recognizing,
    ensures
        ({
            let next = state.advanced(PipelineEventView::RecognizeFailed(error));
            &&& next.results == state.results.push(
                PageResultView::Failed { page_number: state.page_number() },
            )
            &&& next.image_paths == state.image_paths
            &&& !(next.stage is Failed)
            &&& next.results.len() < next.image_paths.len() ==> (next.stage is Normalizing
                || next.stage is Recognizing) && next.page_number() == state.page_number() + 1
            &&& next.results.len() == next.image_paths.len() ==> next.stage is Finished
        }),
{
}

/// What a run has recorded for a page stays: an event adds at most one
/// result, behind those that are there.
pub proof fn lemma_results_are_kept(state: PipelineView, event: PipelineEventView)
    requires
        state.wf(),
    ensures
        ({
            let next = state.advanced(event);
            &&& state.results.len() <= next.results.len() <= state.results.len() + 1
            &&& next.results.take(state.results.len() as int) == state.results
        }),
{
    let next = state.advanced(event);
    assert(next.results.take(state.results.len() as int) =~= state.results);
}

/// A run that has failed stays failed: nothing that is reported afterwards
/// changes it, it asks for nothing but to stop, and its exit code is not 0.
pub proof fn lemma_failed_run_stays_failed(state: PipelineView, events: Seq<PipelineEventView>)
    requires
        state.stage is Failed,
    ensures
        state.after(events) == state,
        state.action() == PipelineActionView::Abort(state.stage->Failed_0),
        state.exit_code() == Some(1u8),
    decreases events.len(),
{
    if events.len() > 0 {
        lemma_failed_run_stays_failed(state, events.drop_last());
    }
}

/// A document that cannot be rendered leaves no result: the run fails with
/// the failure of the rendering, whatever is reported afterwards.
pub proof fn lemma_failed_rendering_ends_run(
    config: ConfigView,
    error: OcrErrorView,
    events: Seq<PipelineEventView>,
)
    ensures
        ({
            let failed = PipelineView::initial(config).advanced(
                PipelineEventView::RasterizeFailed(error),
            );
            let end = failed.after(events);
            &&& end.stage == PipelineStageView::Failed(error)
            &&& end.results.len() == 0
            &&& end.action() == PipelineActionView::Abort(error)
            &&& end.exit_code() == Some(1u8)
        }),
{
    let failed = PipelineView::initial(config).advanced(PipelineEventView::RasterizeFailed(error));
    lemma_failed_run_stays_failed(failed, events);
}

/// Where a run stands.
enum PipelineStage {
    Rasterizing,
    Normalizing,
    Recognizing,
    Finished,
    Failed(OcrError),
}

impl View for PipelineStage {
    type V = PipelineStageView;

    closed spec fn view(&self) -> PipelineStageView {
        match self {
            PipelineStage::Rasterizing => PipelineStageView::Rasterizing,
            PipelineStage::Normalizing => PipelineStageView::Normalizing,
            PipelineStage::Recognizing => PipelineStageView::Recognizing,
            PipelineStage::Finished => PipelineStageView::Finished,
            PipelineStage::Failed(error) => PipelineStageView::Failed(error@),
        }
    }
}

/// The run over one document: a state that the caller advances by reporting
/// what the stages did.
pub struct Pipeline {
    config: Config,
    stage: PipelineStage,
    image_paths: Vec<String>,
    results: Vec<PageResult>,
}

impl View for Pipeline {
    type V = PipelineView;

    closed spec fn view(&self) -> PipelineView {
        PipelineView {
            config: self.config@,
            stage: self.stage@,
            image_paths: texts(self.image_paths@),
            results: results_view(self.results@),
        }
    }
}

/// Starts the run with the given settings. The first thing asked of the
/// caller is to render the document.
pub fn process_pdf_sequentially(config: Config) -> (start: (Pipeline, PipelineAction))
    ensures
        start.0@ == PipelineView::initial(config@),
        start.0@.wf(),
        start.1@ == start.0@.action(),
{
    let pipeline = Pipeline {
        config,
        stage: PipelineStage::Rasterizing,
        image_paths: Vec::new(),
        results: Vec::new(),
    };
    assert(texts(pipeline.image_paths@) =~= Seq::empty());
    assert(results_view(pipeline.results@) =~= Seq::empty());
    let action = pipeline.action();
    (pipeline, action)
}

impl Pipeline {
    #[verifier::type_invariant]
    spec fn inv(&self) -> bool {
        self@.wf()
    }

    /// The stage in which the first page that has no result yet is taken up.
    fn next_page_stage(config: &Config, image_paths: &Vec<String>, results: &Vec<PageResult>) -> (stage:
        PipelineStage)
        ensures
            stage@ == (PipelineView {
                config: config@,
                stage: PipelineStageView::Rasterizing,
                image_paths: texts(image_paths@),
                results: results_view(results@),
            }).next_page_stage(),
    {
        if results.len() >= image_paths.len() {
            PipelineStage::Finished
        } else if config.preprocess {
            PipelineStage::Normalizing
        } else {
            PipelineStage::Recognizing
        }
    }

    /// What is asked of the caller in this state.
    pub fn action(&self) -> (action: PipelineAction)
        ensures
            self@.wf(),
            action@ == self@.action(),
    {
        proof {
            use_type_invariant(self);
        }
        match &self.stage {
            PipelineStage::Rasterizing => PipelineAction::Rasterize {
                pdf_path: self.config.pdf_path.clone(),
                dpi: self.config.dpi,
            },
            PipelineStage::Normalizing => {
                let index = self.results.len();
                PipelineAction::Normalize {
                    page_number: (index + 1) as u16,
                    image_path: self.image_paths[index].clone(),
                }
            },
            PipelineStage::Recognizing => {
                let index = self.results.len();
                PipelineAction::Recognize {
                    page_number: (index + 1) as u16,
                    image_path: self.image_paths[index].clone(),
                    config: self.config.recognition(),
                }
            },
            PipelineStage::Finished => PipelineAction::Finish,
            PipelineStage::Failed(error) => PipelineAction::Abort(error.duplicate()),
        }
    }

    /// Takes the report of what a stage did, and says what is asked of the
    /// caller next.
    pub fn advance(self, event: PipelineEvent) -> (next: (Pipeline, PipelineAction))
        ensures
            next.0@ == self@.advanced(event@),
            next.0@.wf(),
            next.1@ == next.0@.action(),
    {
        proof {
            use_type_invariant(&self);
        }
        let Pipeline { config, stage, image_paths, results } = self;
        let pipeline = match (stage, event) {
            (PipelineStage::Rasterizing, PipelineEvent::Rasterized(paths)) => {
                if paths.len() > MAX_PAGES {
                    let reason = String::from_str(
                        "the document has more pages than can be numbered",
                    );
                    Pipeline {
                        config,
                        stage: PipelineStage::Failed(OcrError::PdfLoad(reason)),
                        image_paths,
                        results,
                    }
                } else {
                    let stage = Self::next_page_stage(&config, &paths, &results);
                    Pipeline { config, stage, image_paths: paths, results }
                }
            },
            (PipelineStage::Rasterizing, PipelineEvent::RasterizeFailed(error)) => Pipeline {
                config,
                stage: PipelineStage::Failed(error),
                image_paths,
                results,
            },
            (PipelineStage::Normalizing, PipelineEvent::Normalized) => Pipeline {
                config,
                stage: PipelineStage::Recognizing,
                image_paths,
                results,
            },
            (PipelineStage::Normalizing, PipelineEvent::NormalizeFailed(error)) => Pipeline {
                config,
                stage: PipelineStage::Failed(error),
                image_paths,
                results,
            },
            (PipelineStage::Recognizing, PipelineEvent::Recognized(text)) => {
                let page_number = (results.len() + 1) as u16;
                Self::with_result(config, image_paths, results, PageResult::Text { page_number, text })
            },
            (PipelineStage::Recognizing, PipelineEvent::RecognizeFailed(_)) => {
                let page_number = (results.len() + 1) as u16;
                Self::with_result(config, image_paths, results, PageResult::Failed { page_number })
            },
            (stage, _) => Pipeline { config, stage, image_paths, results },
        };
        let action = pipeline.action();
        (pipeline, action)
    }

    /// The run with one more result, at the stage that follows.
    fn with_result(
        config: Config,
        image_paths: Vec<String>,
        results: Vec<PageResult>,
        result: PageResult,
    ) -> (pipeline: Pipeline)
        requires
            image_paths.len() <= MAX_PAGES,
            results.len() < image_paths.len(),
            numbered_in_order(results_view(results@)),
            result@.page_number() == results.len() + 1,
        ensures
            pipeline@ == (PipelineView {
                config: config@,
                stage: PipelineStageView::Recognizing,
                image_paths: texts(image_paths@),
                results: results_view(results@),
            }).with_result(result@),
            pipeline@.wf(),
    {
        let mut results = results;
        let ghost recorded = results_view(results@);
        results.push(result);
        assert(results_view(results@) =~= recorded.push(result@));
        let stage = Self::next_page_stage(&config, &image_paths, &results);
        Pipeline { config, stage, image_paths, results }
    }

    /// The exit code of the process: 0 where the run has finished, 1 where
    /// it has failed, none while it is under way.
    pub fn exit_code(&self) -> (code: Option<u8>)
        ensures
            code == self@.exit_code(),
    {
        match &self.stage {
            PipelineStage::Finished => Some(0),
            PipelineStage::Failed(_) => Some(1),
            _ => None,
        }
    }

    /// The results of the pages processed so far, in page order: one for
    /// each page of the document once the run has finished.
    pub fn into_document(self) -> (document: DocumentResult)
        ensures
            document@ == self@.results,
    {
        DocumentResult { pages: self.results }
    }
}

} // verus!
