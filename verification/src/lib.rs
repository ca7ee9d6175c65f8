//! Text extraction from scanned PDF documents, as a verified core.
//!
//! The library holds the decisions of the page pipeline: how large a page is
//! rendered, how its image file is named, how an image is normalized for
//! recognition, which engine calls a recognition makes and in which order,
//! and how the per-page results are gathered into one document. Rendering,
//! file access and the recognition engine itself are driven by the caller,
//! who performs the actions that the state machines here ask for and reports
//! back what happened.

pub mod config;
pub mod error;
pub mod geometry;
pub mod image_processing;
pub mod ocr;
pub mod pdf;
pub mod pipeline;
pub mod text;
