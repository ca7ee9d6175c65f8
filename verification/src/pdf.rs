//! Rendering the pages of a document to image files.
//!
//! The renderer itself is driven by the caller. This module decides how large
//! each page is rendered, how its image file is named, in which order the
//! pages are taken, and what a failure of the renderer means for the run.

use crate::error::{OcrError, OcrErrorView};
use crate::geometry::{PagePoints, MAX_PIXELS};
use crate::text::{digit_char, fixed_width_decimal, lex_less, push_fixed_width_decimal, texts};
use vstd::prelude::*;
use vstd::string::*;

verus! {

/// The name of the image file of the page with the zero-based index
/// `page_index`: the index in five digits between `page_` and `.tiff`.
pub open spec fn file_name_of(page_index: u16) -> Seq<char> {
    "page_"@ + fixed_width_decimal(page_index as nat, 5) + ".tiff"@
}

/// The name of the image file of the page with the given zero-based index.
pub fn page_file_name(page_index: u16) -> (name: String)
    ensures
        name@ == file_name_of(page_index),
{
    let mut name = String::from_str("page_");
    push_fixed_width_decimal(&mut name, page_index as u64, 5);
    name.append(".tiff");
    name
}

/// The most pages that a document can have: page numbers start at 1 and are
/// counted in 16 bits.
pub const MAX_PAGES: usize = 65535;

/// The size of a page, in points.
#[derive(Clone, Copy, Debug, PartialEq, Eq)]
pub struct PageSize {
    pub width: PagePoints,
    pub height: PagePoints,
}

/// What the renderer is asked to do for one page: render the page with the
/// zero-based index `page_index` to a bitmap of exactly `width` by `height`
/// pixels and store it under `file_name` in the workspace.
#[derive(Debug, Clone, PartialEq, Eq)]
pub struct RenderRequest {
    pub page_index: u16,
    pub width: u32,
    pub height: u32,
    pub file_name: String,
}

/// The mathematical value of a [`RenderRequest`].
pub struct RenderRequestView {
    pub page_index: u16,
    pub width: u32,
    pub height: u32,
    pub file_name: Seq<char>,
}

impl View for RenderRequest {
    type V = RenderRequestView;

    open spec fn view(&self) -> RenderRequestView {
        RenderRequestView {
            page_index: self.page_index,
            width: self.width,
            height: self.height,
            file_name: self.file_name@,
        }
    }
}

/// The request for a page of the given size at `dpi` pixels to the inch: both
/// sides are scaled by `dpi / 72` and rounded to the nearest pixel, and the
/// file is named after the page.
pub open spec fn render_request(page_index: u16, size: PageSize, dpi: u16) -> RenderRequestView {
    RenderRequestView {
        page_index,
        width: size.width.pixels_at(dpi) as u32,
        height: size.height.pixels_at(dpi) as u32,
        file_name: file_name_of(page_index),
    }
}

/// The request that renders one page to its image file.
pub fn render_page_to_tiff(page_index: u16, size: PageSize, dpi: u16) -> (request: RenderRequest)
    ensures
        request@ == render_request(page_index, size, dpi),
{
    RenderRequest {
        page_index,
        width: size.width.to_pixels(dpi),
        height: size.height.to_pixels(dpi),
        file_name: page_file_name(page_index),
    }
}

/// What the caller reports back to the rasterizer.
#[derive(Debug, Clone, PartialEq, Eq)]
pub enum RenderEvent {
    /// The rendering library could not be bound.
    BindingFailed,
    /// The document could not be opened; the payload is the reason.
    LoadFailed(String),
    /// The workspace could not be created; the payload is the reason.
    WorkspaceFailed(String),
    /// The document is open and the workspace exists; the payload holds the
    /// sizes of the pages, in page order.
    Opened(Vec<PageSize>),
    /// The requested page was rendered and stored at the given path.
    Stored(String),
    /// The requested page could not be rendered.
    RenderFailed,
    /// The rendered page could not be stored at the given path.
    StoreFailed(String),
}

/// The mathematical value of a [`RenderEvent`].
pub enum RenderEventView {
    BindingFailed,
    LoadFailed(Seq<char>),
    WorkspaceFailed(Seq<char>),
    Opened(Seq<PageSize>),
    Stored(Seq<char>),
    RenderFailed,
    StoreFailed(Seq<char>),
}

impl View for RenderEvent {
    type V = RenderEventView;

    open spec fn view(&self) -> RenderEventView {
        match self {
            RenderEvent::BindingFailed => RenderEventView::BindingFailed,
            RenderEvent::LoadFailed(reason) => RenderEventView::LoadFailed(reason@),
            RenderEvent::WorkspaceFailed(reason) => RenderEventView::WorkspaceFailed(reason@),
            RenderEvent::Opened(sizes) => RenderEventView::Opened(sizes@),
            RenderEvent::Stored(path) => RenderEventView::Stored(path@),
            RenderEvent::RenderFailed => RenderEventView::RenderFailed,
            RenderEvent::StoreFailed(path) => RenderEventView::StoreFailed(path@),
        }
    }
}

/// What the rasterizer asks of the caller next.
#[derive(Debug, Clone, PartialEq, Eq)]
pub enum RenderAction {
    /// Bind the rendering library, open the document at `pdf_path`, create
    /// the workspace, and report the sizes of the pages.
    Open { pdf_path: String },
    /// Render one page and store its image.
    Render(RenderRequest),
    /// Every page has its image: take the paths with
    /// [`Rasterizer::into_image_paths`].
    Finish,
    /// The run has failed.
    Abort(OcrError),
}

/// The mathematical value of a [`RenderAction`].
pub enum RenderActionView {
    Open { pdf_path: Seq<char> },
    Render(RenderRequestView),
    Finish,
    Abort(OcrErrorView),
}

impl View for RenderAction {
    type V = RenderActionView;

    open spec fn view(&self) -> RenderActionView {
        match self {
            RenderAction::Open { pdf_path } => RenderActionView::Open { pdf_path: pdf_path@ },
            RenderAction::Render(request) => RenderActionView::Render(request@),
            RenderAction::Finish => RenderActionView::Finish,
            RenderAction::Abort(error) => RenderActionView::Abort(error@),
        }
    }
}

/// Where a rasterizer stands.
pub enum RenderStageView {
    /// The document is being opened.
    Opening,
    /// The pages are being rendered, one after the other.
    Rendering,
    /// Every page has its image.
    Finished,
    /// The run has failed with the given failure.
    Failed(OcrErrorView),
}

/// The mathematical value of a [`Rasterizer`].
pub struct RasterizerView {
    /// The path of the document.
    pub pdf_path: Seq<char>,
    /// The resolution, in pixels to the inch.
    pub dpi: u16,
    pub stage: RenderStageView,
    /// The sizes of the pages, in page order; empty until the document is open.
    pub sizes: Seq<PageSize>,
    /// The paths of the images stored so far, in page order.
    pub image_paths: Seq<Seq<char>>,
}

/// The reason given where a document has more than [`MAX_PAGES`] pages.
pub open spec fn too_many_pages() -> Seq<char> {
    "the document has more pages than can be numbered"@
}

impl RasterizerView {
    /// What holds of every rasterizer: there is at most one image for each
    /// page, a page waits to be rendered exactly while the stage is
    /// `Rendering`, and at the end every page has its image.
    pub open spec fn wf(self) -> bool {
        &&& self.sizes.len() <= MAX_PAGES
        &&& self.image_paths.len() <= self.sizes.len()
        &&& self.stage is Opening ==> self.sizes.len() == 0
        &&& self.stage is Rendering ==> self.image_paths.len() < self.sizes.len()
        &&& self.stage is Finished ==> self.image_paths.len() == self.sizes.len()
    }

    /// The rasterizer of a document before anything has happened.
    pub open spec fn initial(pdf_path: Seq<char>, dpi: u16) -> RasterizerView {
        RasterizerView {
            pdf_path,
            dpi,
            stage: RenderStageView::Opening,
            sizes: Seq::empty(),
            image_paths: Seq::empty(),
        }
    }

    /// What is asked of the caller in this state. While pages are rendered
    /// it is the request for the first page that has no image yet.
    pub open spec fn action(self) -> RenderActionView {
        match self.stage {
            RenderStageView::Opening => RenderActionView::Open { pdf_path: self.pdf_path },
            RenderStageView::Rendering => RenderActionView::Render(
                render_request(
                    self.image_paths.len() as u16,
                    self.sizes[self.image_paths.len() as int],
                    self.dpi,
                ),
            ),
            RenderStageView::Finished => RenderActionView::Finish,
            RenderStageView::Failed(error) => RenderActionView::Abort(error),
        }
    }

    /// The state with another stage.
    pub open spec fn at(self, stage: RenderStageView) -> RasterizerView {
        RasterizerView { stage, ..self }
    }

    /// The state after a sequence of events, taken one after the other.
    pub open spec fn after(self, events: Seq<RenderEventView>) -> RasterizerView
        decreases events.len(),
    {
        if events.len() == 0 {
            self
        } else {
            self.after(events.drop_last()).advanced(events.last())
        }
    }

    /// The state after an event. An event that does not answer what was
    /// asked leaves the state as it is. Any failure ends the run: a page that
    /// cannot be rendered leaves no image to carry forward.
    pub open spec fn advanced(self, event: RenderEventView) -> RasterizerView {
        match (self.stage, event) {
            (RenderStageView::Opening, RenderEventView::BindingFailed) => self.at(
                RenderStageView::Failed(OcrErrorView::PdfiumInit),
            ),
            (RenderStageView::Opening, RenderEventView::LoadFailed(reason)) => self.at(
                RenderStageView::Failed(OcrErrorView::PdfLoad(reason)),
            ),
            (RenderStageView::Opening, RenderEventView::WorkspaceFailed(reason)) => self.at(
                RenderStageView::Failed(OcrErrorView::Io(reason)),
            ),
            (RenderStageView::Opening, RenderEventView::Opened(sizes)) => {
                if sizes.len() > MAX_PAGES {
                    self.at(RenderStageView::Failed(OcrErrorView::PdfLoad(too_many_pages())))
                } else if sizes.len() == 0 {
                    RasterizerView { stage: RenderStageView::Finished, sizes, ..self }
                } else {
                    RasterizerView { stage: RenderStageView::Rendering, sizes, ..self }
                }
            },
            (RenderStageView::Rendering, RenderEventView::Stored(path)) => {
                let image_paths = self.image_paths.push(path);
                if image_paths.len() == self.sizes.len() {
                    RasterizerView { stage: RenderStageView::Finished, image_paths, ..self }
                } else {
                    RasterizerView { image_paths, ..self }
                }
            },
            (RenderStageView::Rendering, RenderEventView::RenderFailed) => self.at(
                RenderStageView::Failed(
                    OcrErrorView::PageRender {
                        page_num: (self.image_paths.len() + 1) as u16,
                        path: self.pdf_path,
                    },
                ),
            ),
            (RenderStageView::Rendering, RenderEventView::StoreFailed(path)) => self.at(
                RenderStageView::Failed(OcrErrorView::ImageSave(path)),
            ),
            _ => self,
        }
    }
}

/// An event keeps what holds of every rasterizer.
pub proof fn lemma_advanced_is_wf(state: RasterizerView, event: RenderEventView)
    requires
        state.wf(),
    ensures
        state.advanced(event).wf(),
{
}

/// Whatever is reported, in whatever order, what holds of every rasterizer
/// holds; and a rasterizer that has finished has exactly one image for each
/// page of the document.
pub proof fn lemma_every_rendering_is_wf(
    pdf_path: Seq<char>,
    dpi: u16,
    events: Seq<RenderEventView>,
)
    ensures
        ({
            let end = RasterizerView::initial(pdf_path, dpi).after(events);
            &&& end.wf()
            &&& end.stage is Finished ==> end.image_paths.len() == end.sizes.len()
        }),
    decreases events.len(),
{
    if events.len() > 0 {
        lemma_every_rendering_is_wf(pdf_path, dpi, events.drop_last());
        lemma_advanced_is_wf(
            RasterizerView::initial(pdf_path, dpi).after(events.drop_last()),
            events.last(),
        );
    }
}

/// Both sides of a page are scaled alike and rounded to the nearest pixel:
/// the width and the height that are asked for are the pixel counts of the
/// page's width and height at the resolution of the run.
pub proof fn lemma_request_scales_both_sides(page_index: u16, size: PageSize, dpi: u16)
    ensures
        render_request(page_index, size, dpi).width == size.width.pixels_at(dpi),
        render_request(page_index, size, dpi).height == size.height.pixels_at(dpi),
        render_request(page_index, size, dpi).width <= MAX_PIXELS,
        render_request(page_index, size, dpi).height <= MAX_PIXELS,
{
}

/// The pages are rendered in page order, each at the resolution of the run:
/// the page that is asked for is the first that has no image yet, and a
/// stored image is recorded behind those of the pages before it.
pub proof fn lemma_pages_rendered_in_order(state: RasterizerView, path: Seq<char>)
    requires
        state.wf(),
        state.stage is Rendering,
    ensures
        state.action() == RenderActionView::Render(
            render_request(
                state.image_paths.len() as u16,
                state.sizes[state.image_paths.len() as int],
                state.dpi,
            ),
        ),
        state.advanced(RenderEventView::Stored(path)).image_paths == state.image_paths.push(path),
        !(state.advanced(RenderEventView::Stored(path)).stage is Failed),
{
}

/// A page that cannot be rendered, or whose image cannot be stored, ends
/// the run, and the failure names the page by its one-based number or the
/// image by its path.
pub proof fn lemma_failed_page_ends_rendering(state: RasterizerView, path: Seq<char>)
    requires
        state.wf(),
        state.stage is Rendering,
    ensures
        state.advanced(RenderEventView::RenderFailed).action() == RenderActionView::Abort(
            OcrErrorView::PageRender {
                page_num: (state.image_paths.len() + 1) as u16,
                path: state.pdf_path,
            },
        ),
        state.advanced(RenderEventView::StoreFailed(path)).action() == RenderActionView::Abort(
            OcrErrorView::ImageSave(path),
        ),
{
}

/// Where a rasterizer stands.
enum RenderStage {
    Opening,
    Rendering,
    Finished,
    Failed(OcrError),
}

impl View for RenderStage {
    type V = RenderStageView;

    closed spec fn view(&self) -> RenderStageView {
        match self {
            RenderStage::Opening => RenderStageView::Opening,
            RenderStage::Rendering => RenderStageView::Rendering,
            RenderStage::Finished => RenderStageView::Finished,
            RenderStage::Failed(error) => RenderStageView::Failed(error@),
        }
    }
}

/// The rendering of one document, page after page: a state that the caller
/// advances by reporting what the renderer did.
pub struct Rasterizer {
    pdf_path: String,
    dpi: u16,
    stage: RenderStage,
    sizes: Vec<PageSize>,
    image_paths: Vec<String>,
}

impl View for Rasterizer {
    type V = RasterizerView;

    closed spec fn view(&self) -> RasterizerView {
        RasterizerView {
            pdf_path: self.pdf_path@,
            dpi: self.dpi,
            stage: self.stage@,
            sizes: self.sizes@,
            image_paths: texts(self.image_paths@),
        }
    }
}

/// Starts the rendering of the document at `pdf_path` at `dpi` pixels to the
/// inch. The first thing asked of the caller is to open the document.
pub fn render_pdf_pages(pdf_path: &str, dpi: u16) -> (start: (Rasterizer, RenderAction))
    ensures
        start.0@ == RasterizerView::initial(pdf_path@, dpi),
        start.0@.wf(),
        start.1@ == start.0@.action(),
{
    let rasterizer = Rasterizer {
        pdf_path: String::from_str(pdf_path),
        dpi,
        stage: RenderStage::Opening,
        sizes: Vec::new(),
        image_paths: Vec::new(),
    };
    assert(rasterizer.sizes@ =~= Seq::empty());
    assert(texts(rasterizer.image_paths@) =~= Seq::empty());
    let action = rasterizer.action();
    (rasterizer, action)
}

impl Rasterizer {
    #[verifier::type_invariant]
    spec fn inv(&self) -> bool {
        self@.wf()
    }

    /// What is asked of the caller in this state.
    pub fn action(&self) -> (action: RenderAction)
        ensures
            self@.wf(),
            action@ == self@.action(),
    {
        proof {
            use_type_invariant(self);
        }
        match &self.stage {
            RenderStage::Opening => RenderAction::Open { pdf_path: self.pdf_path.clone() },
            RenderStage::Rendering => {
                let index = self.image_paths.len();
                RenderAction::Render(render_page_to_tiff(index as u16, self.sizes[index], self.dpi))
            },
            RenderStage::Finished => RenderAction::Finish,
            RenderStage::Failed(error) => RenderAction::Abort(error.duplicate()),
        }
    }

    /// Takes the report of what the renderer did, and says what is asked of
    /// the caller next.
    pub fn advance(self, event: RenderEvent) -> (next: (Rasterizer, RenderAction))
        ensures
            next.0@ == self@.advanced(event@),
            next.0@.wf(),
            next.1@ == next.0@.action(),
    {
        proof {
            use_type_invariant(&self);
        }
        let ghost before = self@;
        let Rasterizer { pdf_path, dpi, stage, sizes, image_paths } = self;
        let rasterizer = match (stage, event) {
            (RenderStage::Opening, RenderEvent::BindingFailed) => Rasterizer {
                pdf_path,
                dpi,
                stage: RenderStage::Failed(OcrError::PdfiumInit),
                sizes,
                image_paths,
            },
            (RenderStage::Opening, RenderEvent::LoadFailed(reason)) => Rasterizer {
                pdf_path,
                dpi,
                stage: RenderStage::Failed(OcrError::PdfLoad(reason)),
                sizes,
                image_paths,
            },
            (RenderStage::Opening, RenderEvent::WorkspaceFailed(reason)) => Rasterizer {
                pdf_path,
                dpi,
                stage: RenderStage::Failed(OcrError::Io(reason)),
                sizes,
                image_paths,
            },
            (RenderStage::Opening, RenderEvent::Opened(page_sizes)) => {
                if page_sizes.len() > MAX_PAGES {
                    let reason = String::from_str(
                        "the document has more pages than can be numbered",
                    );
                    Rasterizer {
                        pdf_path,
                        dpi,
                        stage: RenderStage::Failed(OcrError::PdfLoad(reason)),
                        sizes,
                        image_paths,
                    }
                } else if page_sizes.len() == 0 {
                    Rasterizer {
                        pdf_path,
                        dpi,
                        stage: RenderStage::Finished,
                        sizes: page_sizes,
                        image_paths,
                    }
                } else {
                    Rasterizer {
                        pdf_path,
                        dpi,
                        stage: RenderStage::Rendering,
                        sizes: page_sizes,
                        image_paths,
                    }
                }
            },
            (RenderStage::Rendering, RenderEvent::Stored(path)) => {
                let mut image_paths = image_paths;
                let ghost stored = image_paths@;
                image_paths.push(path);
                assert(texts(image_paths@) =~= texts(stored).push(path@));
                let stage = if image_paths.len() == sizes.len() {
                    RenderStage::Finished
                } else {
                    RenderStage::Rendering
                };
                Rasterizer { pdf_path, dpi, stage, sizes, image_paths }
            },
            (RenderStage::Rendering, RenderEvent::RenderFailed) => {
                let page_num = (image_paths.len() + 1) as u16;
                let path = pdf_path.clone();
                Rasterizer {
                    pdf_path,
                    dpi,
                    stage: RenderStage::Failed(OcrError::PageRender { page_num, path }),
                    sizes,
                    image_paths,
                }
            },
            (RenderStage::Rendering, RenderEvent::StoreFailed(path)) => Rasterizer {
                pdf_path,
                dpi,
                stage: RenderStage::Failed(OcrError::ImageSave(path)),
                sizes,
                image_paths,
            },
            (stage, _) => Rasterizer { pdf_path, dpi, stage, sizes, image_paths },
        };
        let action = rasterizer.action();
        (rasterizer, action)
    }

    /// The paths of the images stored so far, in page order: one for each
    /// page once the rasterizer has finished.
    pub fn into_image_paths(self) -> (paths: Vec<String>)
        ensures
            texts(paths@) == self@.image_paths,
    {
        self.image_paths
    }
}

/// The five digits of a page index, written out.
proof fn lemma_five_digits(n: nat)
    ensures
        fixed_width_decimal(n, 5) == seq![
            digit_char(n / 10000 % 10),
            digit_char(n / 1000 % 10),
            digit_char(n / 100 % 10),
            digit_char(n / 10 % 10),
            digit_char(n % 10),
        ],
{
    reveal_with_fuel(fixed_width_decimal, 6);
    assert(n / 10 / 10 == n / 100);
    assert(n / 10 / 10 / 10 == n / 1000);
    assert(n / 10 / 10 / 10 / 10 == n / 10000);
    assert(fixed_width_decimal(n, 5) =~= seq![
        digit_char(n / 10000 % 10),
        digit_char(n / 1000 % 10),
        digit_char(n / 100 % 10),
        digit_char(n / 10 % 10),
        digit_char(n % 10),
    ]);
}

/// Of two numbers that agree but for their last digit, the smaller has the
/// smaller last digit, and its character comes first.
proof fn lemma_last_digit_decides(a: nat, b: nat)
    requires
        a < b,
        a / 10 == b / 10,
    ensures
        (digit_char(a % 10) as u32) < (digit_char(b % 10) as u32),
{
}

/// The five-digit numerals of two indices differ first at a place where the
/// smaller index has the smaller digit.
proof fn lemma_digits_sorted(i: nat, j: nat) -> (k: int)
    requires
        i < j < 100000,
    ensures
        0 <= k < 5,
        forall|m: int| 0 <= m < k ==> fixed_width_decimal(i, 5)[m] == fixed_width_decimal(j, 5)[m],
        (fixed_width_decimal(i, 5)[k] as u32) < (fixed_width_decimal(j, 5)[k] as u32),
{
    lemma_five_digits(i);
    lemma_five_digits(j);
    let (i1, i2, i3, i4) = (i / 10, i / 100, i / 1000, i / 10000);
    let (j1, j2, j3, j4) = (j / 10, j / 100, j / 1000, j / 10000);
    assert(i1 / 10 == i2 && i2 / 10 == i3 && i3 / 10 == i4 && i4 / 10 == 0);
    assert(j1 / 10 == j2 && j2 / 10 == j3 && j3 / 10 == j4 && j4 / 10 == 0);
    assert(i4 % 10 == i4 && j4 % 10 == j4);
    if i4 != j4 {
        lemma_last_digit_decides(i4, j4);
        0
    } else if i3 != j3 {
        lemma_last_digit_decides(i3, j3);
        1
    } else if i2 != j2 {
        lemma_last_digit_decides(i2, j2);
        2
    } else if i1 != j1 {
        lemma_last_digit_decides(i1, j1);
        3
    } else {
        lemma_last_digit_decides(i, j);
        4
    }
}

/// The image files sort as their pages do: the name of an earlier page comes
/// before the name of a later page in lexicographic order.
pub proof fn lemma_file_names_sorted(earlier: u16, later: u16)
    requires
        earlier < later,
    ensures
        lex_less(file_name_of(earlier), file_name_of(later)),
{
    let a = file_name_of(earlier);
    let b = file_name_of(later);
    let digits_a = fixed_width_decimal(earlier as nat, 5);
    let digits_b = fixed_width_decimal(later as nat, 5);
    reveal_strlit("page_");
    reveal_strlit(".tiff");
    lemma_five_digits(earlier as nat);
    lemma_five_digits(later as nat);
    let k = lemma_digits_sorted(earlier as nat, later as nat);
    assert(a.len() == 15 && b.len() == 15);
    assert forall|m: int| 0 <= m < 5 + k implies a[m] == b[m] by {
        if m >= 5 {
            assert(a[m] == digits_a[m - 5]);
            assert(b[m] == digits_b[m - 5]);
        }
    }
    assert(a.take(5 + k) =~= b.take(5 + k));
    assert(a[5 + k] == digits_a[k]);
    assert(b[5 + k] == digits_b[k]);
}

/// No two pages share an image file name.
pub proof fn lemma_file_names_unique(one: u16, other: u16)
    requires
        file_name_of(one) == file_name_of(other),
    ensures
        one == other,
{
    if one < other {
        lemma_file_names_sorted(one, other);
        lemma_lex_less_irreflexive(file_name_of(one));
    } else if other < one {
        lemma_file_names_sorted(other, one);
        lemma_lex_less_irreflexive(file_name_of(one));
    }
}

/// No string comes before itself.
proof fn lemma_lex_less_irreflexive(a: Seq<char>)
    ensures
        !lex_less(a, a),
{
}

} // verus!
