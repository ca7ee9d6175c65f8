use pdf_ocr::error::OcrError;

fn text(s: &str) -> String {
    String::from(s)
}

#[test]
fn message_of_each_failure() {
    assert_eq!(OcrError::PdfiumInit.message(), "Failed to initialize PDFium library");
    assert_eq!(
        OcrError::PdfLoad(text("file not found")).message(),
        "Failed to load PDF file: file not found"
    );
    assert_eq!(OcrError::Io(text("disk full")).message(), "I/O error: disk full");
    assert_eq!(
        OcrError::PageRender { page_num: 12, path: text("/docs/scan.pdf") }.message(),
        "Failed to render page 12 of '/docs/scan.pdf'"
    );
    assert_eq!(
        OcrError::ImageSave(text("/tmp/w/page_00003.tiff")).message(),
        "Failed to save temporary image to '/tmp/w/page_00003.tiff'"
    );
    assert_eq!(
        OcrError::TesseractInit(text("no language data")).message(),
        "Tesseract engine failed to initialize: no language data"
    );
    assert_eq!(
        OcrError::TesseractOcr(text("/tmp/w/page_00000.tiff")).message(),
        "Tesseract failed to process image '/tmp/w/page_00000.tiff'"
    );
    assert_eq!(
        OcrError::InvalidImagePath(text("/tmp/w/page")).message(),
        "Image path is not valid UTF-8: '/tmp/w/page'"
    );
    assert_eq!(
        OcrError::TesseractVariable { key: text("user_defined_dpi"), value: text("300") }
            .message(),
        "Could not set Tesseract variable 'user_defined_dpi' to '300'"
    );
    assert_eq!(
        OcrError::ImageProcessingFailed(text("/tmp/w/page_00001.tiff")).message(),
        "Advanced image preprocessing failed for '/tmp/w/page_00001.tiff'"
    );
}

#[test]
fn message_with_empty_payload() {
    assert_eq!(OcrError::PdfLoad(String::new()).message(), "Failed to load PDF file: ");
    assert_eq!(
        OcrError::PageRender { page_num: 65535, path: String::new() }.message(),
        "Failed to render page 65535 of ''"
    );
}

#[test]
fn failures_of_the_recognition_stay_with_the_page() {
    assert!(OcrError::TesseractInit(text("x")).is_page_local());
    assert!(OcrError::TesseractOcr(text("x")).is_page_local());
    assert!(OcrError::InvalidImagePath(text("x")).is_page_local());
    assert!(OcrError::TesseractVariable { key: text("k"), value: text("v") }.is_page_local());
}

#[test]
fn other_failures_end_the_run() {
    assert!(!OcrError::PdfiumInit.is_page_local());
    assert!(!OcrError::PdfLoad(text("x")).is_page_local());
    assert!(!OcrError::Io(text("x")).is_page_local());
    assert!(!OcrError::PageRender { page_num: 1, path: text("x") }.is_page_local());
    assert!(!OcrError::ImageSave(text("x")).is_page_local());
    assert!(!OcrError::ImageProcessingFailed(text("x")).is_page_local());
}

#[test]
fn duplicate_is_equal() {
    let errors = vec![
        OcrError::PdfiumInit,
        OcrError::PdfLoad(text("a")),
        OcrError::Io(text("b")),
        OcrError::PageRender { page_num: 3, path: text("c") },
        OcrError::ImageSave(text("d")),
        OcrError::TesseractInit(text("e")),
        OcrError::TesseractOcr(text("f")),
        OcrError::InvalidImagePath(text("g")),
        OcrError::TesseractVariable { key: text("h"), value: text("i") },
        OcrError::ImageProcessingFailed(text("j")),
    ];
    for error in &errors {
        assert_eq!(&error.duplicate(), error);
    }
}
