use pdf_ocr::config::{Config, RecognitionConfig};
use pdf_ocr::error::OcrError;
use pdf_ocr::pipeline::{
    process_pdf_sequentially, DocumentResult, PageResult, Pipeline, PipelineAction, PipelineEvent,
};

fn text(s: &str) -> String {
    String::from(s)
}

fn settings(preprocess: bool) -> Config {
    let mut config = Config::new(text("/docs/scan.pdf"));
    config.preprocess = preprocess;
    config
}

fn paths(count: usize) -> Vec<String> {
    (0..count).map(|i| format!("/w/page_{:05}.tiff", i)).collect()
}

fn default_recognition() -> RecognitionConfig {
    RecognitionConfig { lang: text("eng"), dpi: 300, tessdata_path: None, psm: 1, oem: 3 }
}

/// What a run ended with.
struct Outcome {
    exit_code: u8,
    output: Option<String>,
    document: DocumentResult,
    normalized: Vec<String>,
    recognized: Vec<String>,
}

/// Runs the pipeline to its end. The document has `pages` pages where it
/// opens at all, and the engine reads `PAGE{n}` from page `n` unless the page
/// is among `unreadable`.
fn run(config: Config, pages: Option<usize>, unreadable: &[u16]) -> Outcome {
    let (mut pipeline, mut action) = process_pdf_sequentially(config);
    let mut normalized = Vec::new();
    let mut recognized = Vec::new();
    let mut steps = 0;
    loop {
        steps += 1;
        assert!(steps < 10_000);
        let event = match action {
            PipelineAction::Rasterize { pdf_path, dpi } => {
                assert_eq!(pdf_path, "/docs/scan.pdf");
                assert_eq!(dpi, 300);
                match pages {
                    Some(count) => PipelineEvent::Rasterized(paths(count)),
                    None => PipelineEvent::RasterizeFailed(OcrError::PdfLoad(text("no such file"))),
                }
            }
            PipelineAction::Normalize { page_number, image_path } => {
                assert_eq!(image_path, format!("/w/page_{:05}.tiff", page_number - 1));
                normalized.push(image_path);
                PipelineEvent::Normalized
            }
            PipelineAction::Recognize { page_number, image_path, config } => {
                assert_eq!(image_path, format!("/w/page_{:05}.tiff", page_number - 1));
                assert_eq!(config, default_recognition());
                recognized.push(image_path.clone());
                if unreadable.contains(&page_number) {
                    PipelineEvent::RecognizeFailed(OcrError::TesseractOcr(image_path))
                } else {
                    PipelineEvent::Recognized(format!("PAGE{}", page_number))
                }
            }
            PipelineAction::Finish => {
                let exit_code = pipeline.exit_code().unwrap();
                let document = pipeline.into_document();
                let output = Some(document.to_text());
                return Outcome { exit_code, output, document, normalized, recognized };
            }
            PipelineAction::Abort(_) => {
                let exit_code = pipeline.exit_code().unwrap();
                let document = pipeline.into_document();
                return Outcome { exit_code, output: None, document, normalized, recognized };
            }
        };
        let next = pipeline.advance(event);
        pipeline = next.0;
        action = next.1;
    }
}

fn started(preprocess: bool, pages: usize) -> (Pipeline, PipelineAction) {
    let (pipeline, _) = process_pdf_sequentially(settings(preprocess));
    pipeline.advance(PipelineEvent::Rasterized(paths(pages)))
}

#[test]
fn three_pages_are_read_in_order() {
    let outcome = run(settings(false), Some(3), &[]);
    assert_eq!(outcome.exit_code, 0);
    assert_eq!(
        outcome.document.pages,
        vec![
            PageResult::Text { page_number: 1, text: text("PAGE1") },
            PageResult::Text { page_number: 2, text: text("PAGE2") },
            PageResult::Text { page_number: 3, text: text("PAGE3") },
        ]
    );
    assert_eq!(
        outcome.output.unwrap(),
        "\n--- Page 1 ---\n\nPAGE1\n\n--- Page 2 ---\n\nPAGE2\n\n--- Page 3 ---\n\nPAGE3\n"
    );
    assert!(outcome.normalized.is_empty());
    assert_eq!(outcome.recognized, paths(3));
}

#[test]
fn unreadable_second_page_is_marked() {
    let outcome = run(settings(false), Some(3), &[2]);
    assert_eq!(outcome.exit_code, 0);
    assert_eq!(
        outcome.document.pages,
        vec![
            PageResult::Text { page_number: 1, text: text("PAGE1") },
            PageResult::Failed { page_number: 2 },
            PageResult::Text { page_number: 3, text: text("PAGE3") },
        ]
    );
    assert_eq!(
        outcome.output.unwrap(),
        "\n--- Page 1 ---\n\nPAGE1\n\n--- Page 2: recognition failed ---\n\n--- Page 3 ---\n\nPAGE3\n"
    );
    assert_eq!(outcome.recognized, paths(3));
}

#[test]
fn document_that_does_not_open_gives_nothing() {
    let outcome = run(settings(false), None, &[]);
    assert_ne!(outcome.exit_code, 0);
    assert_eq!(outcome.exit_code, 1);
    assert!(outcome.output.is_none());
    assert!(outcome.document.pages.is_empty());
    assert!(outcome.recognized.is_empty());
    assert!(outcome.normalized.is_empty());
}

#[test]
fn failure_of_the_rendering_is_passed_on() {
    let (pipeline, action) = process_pdf_sequentially(settings(true));
    assert_eq!(action, PipelineAction::Rasterize { pdf_path: text("/docs/scan.pdf"), dpi: 300 });
    assert_eq!(pipeline.exit_code(), None);
    let error = OcrError::PageRender { page_num: 7, path: text("/docs/scan.pdf") };
    let (pipeline, action) = pipeline.advance(PipelineEvent::RasterizeFailed(error.clone()));
    assert_eq!(action, PipelineAction::Abort(error.clone()));
    assert_eq!(pipeline.exit_code(), Some(1));
    // Nothing that is reported afterwards brings the run back.
    let (pipeline, action) = pipeline.advance(PipelineEvent::Rasterized(paths(2)));
    assert_eq!(action, PipelineAction::Abort(error.clone()));
    let (pipeline, action) = pipeline.advance(PipelineEvent::Recognized(text("late")));
    assert_eq!(action, PipelineAction::Abort(error));
    assert!(pipeline.into_document().pages.is_empty());
}

#[test]
fn every_page_has_its_result() {
    for count in [0usize, 1, 2, 17, 300] {
        let outcome = run(settings(false), Some(count), &[]);
        assert_eq!(outcome.exit_code, 0);
        assert_eq!(outcome.document.pages.len(), count);
        for (i, page) in outcome.document.pages.iter().enumerate() {
            assert_eq!(
                page,
                &PageResult::Text { page_number: i as u16 + 1, text: format!("PAGE{}", i + 1) }
            );
        }
    }
}

#[test]
fn every_page_has_its_result_where_some_fail() {
    let unreadable = [1u16, 4, 5, 50];
    let outcome = run(settings(true), Some(50), &unreadable);
    assert_eq!(outcome.exit_code, 0);
    assert_eq!(outcome.document.pages.len(), 50);
    for (i, page) in outcome.document.pages.iter().enumerate() {
        let page_number = i as u16 + 1;
        if unreadable.contains(&page_number) {
            assert_eq!(page, &PageResult::Failed { page_number });
        } else {
            assert_eq!(page, &PageResult::Text { page_number, text: format!("PAGE{}", page_number) });
        }
    }
    assert_eq!(outcome.recognized, paths(50));
    assert_eq!(outcome.normalized, paths(50));
}

#[test]
fn all_pages_unreadable_is_still_a_finished_run() {
    let outcome = run(settings(false), Some(2), &[1, 2]);
    assert_eq!(outcome.exit_code, 0);
    assert_eq!(
        outcome.output.unwrap(),
        "\n--- Page 1: recognition failed ---\n\n--- Page 2: recognition failed ---\n"
    );
}

#[test]
fn document_without_pages_gives_empty_output() {
    let outcome = run(settings(true), Some(0), &[]);
    assert_eq!(outcome.exit_code, 0);
    assert_eq!(outcome.output.unwrap(), "");
    assert!(outcome.normalized.is_empty());
    assert!(outcome.recognized.is_empty());
}

#[test]
fn nothing_is_normalized_unless_asked() {
    let outcome = run(settings(false), Some(12), &[3]);
    assert!(outcome.normalized.is_empty());
    assert_eq!(outcome.recognized, paths(12));
}

#[test]
fn each_page_is_normalized_before_it_is_read() {
    let (pipeline, action) = started(true, 2);
    assert_eq!(
        action,
        PipelineAction::Normalize { page_number: 1, image_path: text("/w/page_00000.tiff") }
    );
    let (pipeline, action) = pipeline.advance(PipelineEvent::Normalized);
    assert_eq!(
        action,
        PipelineAction::Recognize {
            page_number: 1,
            image_path: text("/w/page_00000.tiff"),
            config: default_recognition()
        }
    );
    let (pipeline, action) = pipeline.advance(PipelineEvent::Recognized(text("one")));
    assert_eq!(
        action,
        PipelineAction::Normalize { page_number: 2, image_path: text("/w/page_00001.tiff") }
    );
    let (pipeline, action) = pipeline.advance(PipelineEvent::Normalized);
    assert_eq!(
        action,
        PipelineAction::Recognize {
            page_number: 2,
            image_path: text("/w/page_00001.tiff"),
            config: default_recognition()
        }
    );
    let (pipeline, action) = pipeline.advance(PipelineEvent::RecognizeFailed(OcrError::TesseractInit(
        text("no model"),
    )));
    assert_eq!(action, PipelineAction::Finish);
    assert_eq!(pipeline.exit_code(), Some(0));
}

#[test]
fn image_that_cannot_be_normalized_ends_the_run() {
    let (pipeline, _) = started(true, 3);
    let (pipeline, _) = pipeline.advance(PipelineEvent::Normalized);
    let (pipeline, _) = pipeline.advance(PipelineEvent::Recognized(text("one")));
    let error = OcrError::ImageProcessingFailed(text("/w/page_00001.tiff"));
    let (pipeline, action) = pipeline.advance(PipelineEvent::NormalizeFailed(error.clone()));
    assert_eq!(action, PipelineAction::Abort(error));
    assert_eq!(pipeline.exit_code(), Some(1));
    assert_eq!(
        pipeline.into_document().pages,
        vec![PageResult::Text { page_number: 1, text: text("one") }]
    );
}

#[test]
fn recognition_uses_the_settings_of_the_run() {
    let mut config = settings(false);
    config.lang = text("fra");
    config.dpi = 600;
    config.psm = 6;
    config.oem = 1;
    config.tessdata_path = Some(text("/opt/tessdata"));
    let (pipeline, action) = process_pdf_sequentially(config);
    assert_eq!(action, PipelineAction::Rasterize { pdf_path: text("/docs/scan.pdf"), dpi: 600 });
    let (_, action) = pipeline.advance(PipelineEvent::Rasterized(paths(1)));
    assert_eq!(
        action,
        PipelineAction::Recognize {
            page_number: 1,
            image_path: text("/w/page_00000.tiff"),
            config: RecognitionConfig {
                lang: text("fra"),
                dpi: 600,
                tessdata_path: Some(text("/opt/tessdata")),
                psm: 6,
                oem: 1
            }
        }
    );
}

#[test]
fn run_ignores_events_that_answer_nothing() {
    let (pipeline, before) = started(false, 2);
    let (pipeline, action) = pipeline.advance(PipelineEvent::Normalized);
    assert_eq!(action, before);
    let (pipeline, action) =
        pipeline.advance(PipelineEvent::NormalizeFailed(OcrError::Io(text("stray"))));
    assert_eq!(action, before);
    let (pipeline, action) = pipeline.advance(PipelineEvent::Rasterized(paths(9)));
    assert_eq!(action, before);
    let (pipeline, action) =
        pipeline.advance(PipelineEvent::RasterizeFailed(OcrError::PdfiumInit));
    assert_eq!(action, before);
    assert_eq!(pipeline.exit_code(), None);
    assert!(pipeline.into_document().pages.is_empty());
    // While an image is normalized no text is taken.
    let (pipeline, before) = started(true, 2);
    let (pipeline, action) = pipeline.advance(PipelineEvent::Recognized(text("stray")));
    assert_eq!(action, before);
    let (pipeline, action) =
        pipeline.advance(PipelineEvent::RecognizeFailed(OcrError::PdfiumInit));
    assert_eq!(action, before);
    assert!(pipeline.into_document().pages.is_empty());
}

#[test]
fn finished_run_stays_finished() {
    let (pipeline, _) = started(false, 1);
    let (pipeline, action) = pipeline.advance(PipelineEvent::Recognized(text("only")));
    assert_eq!(action, PipelineAction::Finish);
    let (pipeline, action) = pipeline.advance(PipelineEvent::Recognized(text("more")));
    assert_eq!(action, PipelineAction::Finish);
    let (pipeline, action) =
        pipeline.advance(PipelineEvent::RasterizeFailed(OcrError::PdfiumInit));
    assert_eq!(action, PipelineAction::Finish);
    assert_eq!(pipeline.action(), PipelineAction::Finish);
    assert_eq!(
        pipeline.into_document().pages,
        vec![PageResult::Text { page_number: 1, text: text("only") }]
    );
}

#[test]
fn too_many_images_are_not_read() {
    let (pipeline, _) = process_pdf_sequentially(settings(false));
    let (pipeline, action) = pipeline.advance(PipelineEvent::Rasterized(vec![String::new(); 65536]));
    assert_eq!(
        action,
        PipelineAction::Abort(OcrError::PdfLoad(text(
            "the document has more pages than can be numbered"
        )))
    );
    assert_eq!(pipeline.exit_code(), Some(1));
}

#[test]
fn last_read_page_has_the_last_number() {
    let (mut pipeline, mut action) = process_pdf_sequentially(settings(false));
    let next = pipeline.advance(PipelineEvent::Rasterized(vec![text("p"); 65535]));
    pipeline = next.0;
    action = next.1;
    let mut read = 0u32;
    while let PipelineAction::Recognize { page_number, .. } = action {
        read += 1;
        assert_eq!(page_number as u32, read);
        let next = pipeline.advance(PipelineEvent::RecognizeFailed(OcrError::PdfiumInit));
        pipeline = next.0;
        action = next.1;
    }
    assert_eq!(read, 65535);
    assert_eq!(action, PipelineAction::Finish);
    let document = pipeline.into_document();
    assert_eq!(document.pages.len(), 65535);
    assert_eq!(document.pages[65534], PageResult::Failed { page_number: 65535 });
}

#[test]
fn output_of_a_document() {
    let document = DocumentResult {
        pages: vec![
            PageResult::Text { page_number: 1, text: text("first line\nsecond line") },
            PageResult::Failed { page_number: 2 },
            PageResult::Text { page_number: 3, text: String::new() },
            PageResult::Text { page_number: 12, text: text("x") },
        ],
    };
    assert_eq!(
        document.to_text(),
        "\n--- Page 1 ---\n\nfirst line\nsecond line\n\
         \n--- Page 2: recognition failed ---\n\
         \n--- Page 3 ---\n\n\n\
         \n--- Page 12 ---\n\nx\n"
    );
    assert_eq!(DocumentResult { pages: vec![] }.to_text(), "");
}
