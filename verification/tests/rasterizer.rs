use pdf_ocr::error::OcrError;
use pdf_ocr::geometry::PagePoints;
use pdf_ocr::pdf::{
    render_page_to_tiff, render_pdf_pages, PageSize, Rasterizer, RenderAction, RenderEvent,
    RenderRequest, MAX_PAGES,
};

fn text(s: &str) -> String {
    String::from(s)
}

fn size(width: f32, height: f32) -> PageSize {
    PageSize {
        width: PagePoints::from_bits(width.to_bits()),
        height: PagePoints::from_bits(height.to_bits()),
    }
}

fn letter() -> PageSize {
    size(612.0, 792.0)
}

fn request(page_index: u16, width: u32, height: u32, file_name: &str) -> RenderAction {
    RenderAction::Render(RenderRequest { page_index, width, height, file_name: text(file_name) })
}

fn opened(sizes: Vec<PageSize>) -> (Rasterizer, RenderAction) {
    let (rasterizer, _) = render_pdf_pages("/docs/scan.pdf", 300);
    rasterizer.advance(RenderEvent::Opened(sizes))
}

#[test]
fn rendering_starts_by_opening_the_document() {
    let (_, action) = render_pdf_pages("/docs/scan.pdf", 300);
    assert_eq!(action, RenderAction::Open { pdf_path: text("/docs/scan.pdf") });
}

#[test]
fn request_for_a_letter_page() {
    let got = render_page_to_tiff(4, letter(), 300);
    assert_eq!(
        got,
        RenderRequest { page_index: 4, width: 2550, height: 3300, file_name: text("page_00004.tiff") }
    );
}

#[test]
fn request_scales_both_sides_alike() {
    let got = render_page_to_tiff(0, size(841.89, 595.276), 150);
    // 841.89 * 150 / 72 = 1753.9..., 595.276 * 150 / 72 = 1240.1...
    assert_eq!((got.width, got.height), (1754, 1240));
    let got = render_page_to_tiff(0, size(100.0, 100.0), 72);
    assert_eq!((got.width, got.height), (100, 100));
}

#[test]
fn binding_failure_ends_the_run() {
    let (rasterizer, _) = render_pdf_pages("/docs/scan.pdf", 300);
    let (_, action) = rasterizer.advance(RenderEvent::BindingFailed);
    assert_eq!(action, RenderAction::Abort(OcrError::PdfiumInit));
}

#[test]
fn document_that_does_not_open() {
    let (rasterizer, _) = render_pdf_pages("/docs/none.pdf", 300);
    let (rasterizer, action) = rasterizer.advance(RenderEvent::LoadFailed(text("file not found")));
    assert_eq!(action, RenderAction::Abort(OcrError::PdfLoad(text("file not found"))));
    assert!(rasterizer.into_image_paths().is_empty());
}

#[test]
fn workspace_that_cannot_be_made() {
    let (rasterizer, _) = render_pdf_pages("/docs/scan.pdf", 300);
    let (_, action) = rasterizer.advance(RenderEvent::WorkspaceFailed(text("read-only")));
    assert_eq!(action, RenderAction::Abort(OcrError::Io(text("read-only"))));
}

#[test]
fn document_without_pages_is_finished_at_once() {
    let (rasterizer, action) = opened(vec![]);
    assert_eq!(action, RenderAction::Finish);
    assert!(rasterizer.into_image_paths().is_empty());
}

#[test]
fn pages_are_rendered_in_order() {
    let sizes = vec![letter(), size(595.276, 841.89), size(792.0, 612.0)];
    let (rasterizer, action) = opened(sizes);
    assert_eq!(action, request(0, 2550, 3300, "page_00000.tiff"));
    let (rasterizer, action) = rasterizer.advance(RenderEvent::Stored(text("/w/page_00000.tiff")));
    assert_eq!(action, request(1, 2480, 3508, "page_00001.tiff"));
    let (rasterizer, action) = rasterizer.advance(RenderEvent::Stored(text("/w/page_00001.tiff")));
    assert_eq!(action, request(2, 3300, 2550, "page_00002.tiff"));
    let (rasterizer, action) = rasterizer.advance(RenderEvent::Stored(text("/w/page_00002.tiff")));
    assert_eq!(action, RenderAction::Finish);
    assert_eq!(
        rasterizer.into_image_paths(),
        vec![text("/w/page_00000.tiff"), text("/w/page_00001.tiff"), text("/w/page_00002.tiff")]
    );
}

#[test]
fn one_image_for_each_page() {
    let count = 250usize;
    let (mut rasterizer, mut action) = opened(vec![letter(); count]);
    let mut requests = 0usize;
    while let RenderAction::Render(request) = action {
        assert_eq!(request.page_index as usize, requests);
        requests += 1;
        let next = rasterizer.advance(RenderEvent::Stored(format!("/w/{}", request.file_name)));
        rasterizer = next.0;
        action = next.1;
    }
    assert_eq!(action, RenderAction::Finish);
    assert_eq!(requests, count);
    let paths = rasterizer.into_image_paths();
    assert_eq!(paths.len(), count);
    let mut sorted = paths.clone();
    sorted.sort();
    assert_eq!(sorted, paths);
}

#[test]
fn page_that_cannot_be_rendered_ends_the_run() {
    let (rasterizer, _) = opened(vec![letter(), letter(), letter()]);
    let (rasterizer, _) = rasterizer.advance(RenderEvent::Stored(text("/w/page_00000.tiff")));
    let (rasterizer, action) = rasterizer.advance(RenderEvent::RenderFailed);
    assert_eq!(
        action,
        RenderAction::Abort(OcrError::PageRender { page_num: 2, path: text("/docs/scan.pdf") })
    );
    // Nothing that is reported afterwards brings the run back.
    let (rasterizer, action) = rasterizer.advance(RenderEvent::Stored(text("/w/page_00001.tiff")));
    assert_eq!(
        action,
        RenderAction::Abort(OcrError::PageRender { page_num: 2, path: text("/docs/scan.pdf") })
    );
    assert_eq!(rasterizer.into_image_paths(), vec![text("/w/page_00000.tiff")]);
}

#[test]
fn first_page_that_cannot_be_rendered_is_page_one() {
    let (rasterizer, _) = opened(vec![letter()]);
    let (_, action) = rasterizer.advance(RenderEvent::RenderFailed);
    assert_eq!(
        action,
        RenderAction::Abort(OcrError::PageRender { page_num: 1, path: text("/docs/scan.pdf") })
    );
}

#[test]
fn image_that_cannot_be_stored_ends_the_run() {
    let (rasterizer, _) = opened(vec![letter(), letter()]);
    let (_, action) = rasterizer.advance(RenderEvent::StoreFailed(text("/w/page_00000.tiff")));
    assert_eq!(action, RenderAction::Abort(OcrError::ImageSave(text("/w/page_00000.tiff"))));
}

#[test]
fn most_pages_are_taken() {
    assert_eq!(MAX_PAGES, 65535);
    let (rasterizer, action) = opened(vec![letter(); 65535]);
    assert_eq!(action, request(0, 2550, 3300, "page_00000.tiff"));
    assert_eq!(rasterizer.action(), action);
}

#[test]
fn too_many_pages_are_not_rendered() {
    let (_, action) = opened(vec![letter(); 65536]);
    assert_eq!(
        action,
        RenderAction::Abort(OcrError::PdfLoad(text(
            "the document has more pages than can be numbered"
        )))
    );
}

#[test]
fn last_rendered_page_has_the_last_number() {
    let (mut rasterizer, mut action) = opened(vec![size(72.0, 72.0); 65535]);
    for _ in 0..65534 {
        let next = rasterizer.advance(RenderEvent::Stored(String::new()));
        rasterizer = next.0;
        action = next.1;
    }
    assert_eq!(action, request(65534, 300, 300, "page_65534.tiff"));
    let (_, action) = rasterizer.advance(RenderEvent::RenderFailed);
    assert_eq!(
        action,
        RenderAction::Abort(OcrError::PageRender { page_num: 65535, path: text("/docs/scan.pdf") })
    );
}

#[test]
fn rendering_ignores_events_that_answer_nothing() {
    // Before the document is open there is no page to store.
    let (rasterizer, before) = render_pdf_pages("/docs/scan.pdf", 300);
    let (rasterizer, action) = rasterizer.advance(RenderEvent::Stored(text("/w/x.tiff")));
    assert_eq!(action, before);
    let (rasterizer, action) = rasterizer.advance(RenderEvent::RenderFailed);
    assert_eq!(action, before);
    let (rasterizer, action) = rasterizer.advance(RenderEvent::StoreFailed(text("/w/x.tiff")));
    assert_eq!(action, before);
    assert!(rasterizer.into_image_paths().is_empty());
    // Once it is open it is not opened again.
    let (rasterizer, before) = opened(vec![letter()]);
    let (rasterizer, action) = rasterizer.advance(RenderEvent::Opened(vec![letter(); 5]));
    assert_eq!(action, before);
    let (rasterizer, action) = rasterizer.advance(RenderEvent::LoadFailed(text("late")));
    assert_eq!(action, before);
    let (rasterizer, action) = rasterizer.advance(RenderEvent::BindingFailed);
    assert_eq!(action, before);
    // Once it has finished nothing more is stored.
    let (rasterizer, _) = rasterizer.advance(RenderEvent::Stored(text("/w/page_00000.tiff")));
    let (rasterizer, action) = rasterizer.advance(RenderEvent::Stored(text("/w/extra.tiff")));
    assert_eq!(action, RenderAction::Finish);
    let (rasterizer, action) = rasterizer.advance(RenderEvent::RenderFailed);
    assert_eq!(action, RenderAction::Finish);
    assert_eq!(rasterizer.into_image_paths(), vec![text("/w/page_00000.tiff")]);
}

#[test]
fn resolution_of_the_run_is_used_for_every_page() {
    let (rasterizer, _) = render_pdf_pages("/docs/scan.pdf", 72);
    let (rasterizer, action) =
        rasterizer.advance(RenderEvent::Opened(vec![letter(), size(10.0, 20.0)]));
    assert_eq!(action, request(0, 612, 792, "page_00000.tiff"));
    let (_, action) = rasterizer.advance(RenderEvent::Stored(text("a")));
    assert_eq!(action, request(1, 10, 20, "page_00001.tiff"));
}
