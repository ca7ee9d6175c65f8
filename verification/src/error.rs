//! The failures of the pipeline and their messages.

use crate::text::{decimal, push_decimal};
use vstd::prelude::*;
use vstd::string::*;

verus! {

/// A failure of one stage of the pipeline.
///
/// Paths and engine messages are carried as text, so that a failure can be
/// reported without the resource that caused it.
#[derive(Debug, Clone, PartialEq, Eq)]
pub enum OcrError {
    /// The PDF rendering library could not be bound.
    PdfiumInit,
    /// The document could not be opened; the payload is the renderer's reason.
    PdfLoad(String),
    /// The temporary workspace, or the output, could not be written.
    Io(String),
    /// The page with the one-based number `page_num` of the document at `path`
    /// could not be rendered.
    PageRender { page_num: u16, path: String },
    /// A rendered page could not be stored at the given path.
    ImageSave(String),
    /// The recognition engine did not start; the payload is its reason.
    TesseractInit(String),
    /// The recognition engine could not read the image at the given path, or
    /// could not extract text from it.
    TesseractOcr(String),
    /// The image path cannot be handed to the recognition engine.
    InvalidImagePath(String),
    /// The recognition engine refused a configuration variable.
    TesseractVariable { key: String, value: String },
    /// The image at the given path could not be normalized.
    ImageProcessingFailed(String),
}

/// The mathematical value of an [`OcrError`]: the same cases over sequences of
/// characters.
pub enum OcrErrorView {
    PdfiumInit,
    PdfLoad(Seq<char>),
    Io(Seq<char>),
    PageRender { page_num: u16, path: Seq<char> },
    ImageSave(Seq<char>),
    TesseractInit(Seq<char>),
    TesseractOcr(Seq<char>),
    InvalidImagePath(Seq<char>),
    TesseractVariable { key: Seq<char>, value: Seq<char> },
    ImageProcessingFailed(Seq<char>),
}

impl View for OcrError {
    type V = OcrErrorView;

    open spec fn view(&self) -> OcrErrorView {
        match self {
            OcrError::PdfiumInit => OcrErrorView::PdfiumInit,
            OcrError::PdfLoad(reason) => OcrErrorView::PdfLoad(reason@),
            OcrError::Io(reason) => OcrErrorView::Io(reason@),
            OcrError::PageRender { page_num, path } => OcrErrorView::PageRender {
                page_num: *page_num,
                path: path@,
            },
            OcrError::ImageSave(path) => OcrErrorView::ImageSave(path@),
            OcrError::TesseractInit(reason) => OcrErrorView::TesseractInit(reason@),
            OcrError::TesseractOcr(path) => OcrErrorView::TesseractOcr(path@),
            OcrError::InvalidImagePath(path) => OcrErrorView::InvalidImagePath(path@),
            OcrError::TesseractVariable { key, value } => OcrErrorView::TesseractVariable {
                key: key@,
                value: value@,
            },
            OcrError::ImageProcessingFailed(path) => OcrErrorView::ImageProcessingFailed(path@),
        }
    }
}

impl OcrErrorView {
    /// The message that describes the failure to the user.
    pub open spec fn message(self) -> Seq<char> {
        match self {
            OcrErrorView::PdfiumInit => "Failed to initialize PDFium library"@,
            OcrErrorView::PdfLoad(reason) => "Failed to load PDF file: "@ + reason,
            OcrErrorView::Io(reason) => "I/O error: "@ + reason,
            OcrErrorView::PageRender { page_num, path } => "Failed to render page "@ + decimal(
                page_num as nat,
            ) + " of '"@ + path + "'"@,
            OcrErrorView::ImageSave(path) => "Failed to save temporary image to '"@ + path + "'"@,
            OcrErrorView::TesseractInit(reason) => "Tesseract engine failed to initialize: "@
                + reason,
            OcrErrorView::TesseractOcr(path) => "Tesseract failed to process image '"@ + path
                + "'"@,
            OcrErrorView::InvalidImagePath(path) => "Image path is not valid UTF-8: '"@ + path
                + "'"@,
            OcrErrorView::TesseractVariable { key, value } => "Could not set Tesseract variable '"@
                + key + "' to '"@ + value + "'"@,
            OcrErrorView::ImageProcessingFailed(path) => "Advanced image preprocessing failed for '"@
                + path + "'"@,
        }
    }

    /// Whether the failure stays with one page: it comes from the recognition
    /// of that page, and the other pages of the document are still processed.
    pub open spec fn is_page_local(self) -> bool {
        self is TesseractInit || self is TesseractOcr || self is InvalidImagePath
            || self is TesseractVariable
    }
}

impl OcrError {
    /// The message that describes the failure to the user.
    pub fn message(&self) -> (text: String)
        ensures
            text@ == self@.message(),
    {
        match self {
            OcrError::PdfiumInit => String::from_str("Failed to initialize PDFium library"),
            OcrError::PdfLoad(reason) => {
                String::from_str("Failed to load PDF file: ").concat(reason.as_str())
            },
            OcrError::Io(reason) => String::from_str("I/O error: ").concat(reason.as_str()),
            OcrError::PageRender { page_num, path } => {
                let mut text = String::from_str("Failed to render page ");
                push_decimal(&mut text, *page_num as u64);
                text.append(" of '");
                text.append(path.as_str());
                text.append("'");
                text
            },
            OcrError::ImageSave(path) => quoted("Failed to save temporary image to '", path),
            OcrError::TesseractInit(reason) => {
                String::from_str("Tesseract engine failed to initialize: ").concat(reason.as_str())
            },
            OcrError::TesseractOcr(path) => quoted("Tesseract failed to process image '", path),
            OcrError::InvalidImagePath(path) => quoted("Image path is not valid UTF-8: '", path),
            OcrError::TesseractVariable { key, value } => {
                let mut text = String::from_str("Could not set Tesseract variable '");
                text.append(key.as_str());
                text.append("' to '");
                text.append(value.as_str());
                text.append("'");
                text
            },
            OcrError::ImageProcessingFailed(path) => {
                quoted("Advanced image preprocessing failed for '", path)
            },
        }
    }

    /// Whether the failure stays with one page (see [`OcrErrorView::is_page_local`]).
    pub fn is_page_local(&self) -> (local: bool)
        ensures
            local == self@.is_page_local(),
    {
        match self {
            OcrError::TesseractInit(_) => true,
            OcrError::TesseractOcr(_) => true,
            OcrError::InvalidImagePath(_) => true,
            OcrError::TesseractVariable { .. } => true,
            _ => false,
        }
    }

    /// A copy of the failure.
    pub fn duplicate(&self) -> (copy: OcrError)
        ensures
            copy@ == self@,
    {
        match self {
            OcrError::PdfiumInit => OcrError::PdfiumInit,
            OcrError::PdfLoad(reason) => OcrError::PdfLoad(reason.clone()),
            OcrError::Io(reason) => OcrError::Io(reason.clone()),
            OcrError::PageRender { page_num, path } => OcrError::PageRender {
                page_num: *page_num,
                path: path.clone(),
            },
            OcrError::ImageSave(path) => OcrError::ImageSave(path.clone()),
            OcrError::TesseractInit(reason) => OcrError::TesseractInit(reason.clone()),
            OcrError::TesseractOcr(path) => OcrError::TesseractOcr(path.clone()),
            OcrError::InvalidImagePath(path) => OcrError::InvalidImagePath(path.clone()),
            OcrError::TesseractVariable { key, value } => OcrError::TesseractVariable {
                key: key.clone(),
                value: value.clone(),
            },
            OcrError::ImageProcessingFailed(path) => OcrError::ImageProcessingFailed(
                path.clone(),
            ),
        }
    }
}

/// `opening`, then `path`, then a closing quote.
fn quoted(opening: &str, path: &String) -> (text: String)
    ensures
        text@ == opening@ + path@ + "'"@,
{
    let mut text = String::from_str(opening);
    text.append(path.as_str());
    text.append("'");
    text
}

} // verus!
