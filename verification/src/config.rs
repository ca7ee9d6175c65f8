//! What the user asks for: the document, the output, and how pages are
//! rendered and read.

use crate::text::{duplicate_optional, optional_text};
use vstd::prelude::*;
use vstd::string::*;

verus! {

/// The largest page segmentation mode that the recognition engine knows.
pub const MAX_PSM: u8 = 13;

/// The largest engine mode that the recognition engine knows.
pub const MAX_OEM: u8 = 3;

/// The settings of one run.
#[derive(Debug, Clone, PartialEq, Eq)]
pub struct Config {
    /// The path of the document.
    pub pdf_path: String,
    /// The path of the text file to write; the console where there is none.
    pub output_path: Option<String>,
    /// The language of the text, as the recognition engine names it.
    pub lang: String,
    /// The resolution at which pages are rendered, in pixels to the inch.
    pub dpi: u16,
    /// Whether page images are normalized before they are read.
    pub preprocess: bool,
    /// The directory of the language data, where it is not the engine's own.
    pub tessdata_path: Option<String>,
    /// The page segmentation mode, from 0 to [`MAX_PSM`].
    pub psm: u8,
    /// The engine mode, from 0 to [`MAX_OEM`].
    pub oem: u8,
}

/// The mathematical value of a [`Config`].
pub struct ConfigView {
    pub pdf_path: Seq<char>,
    pub output_path: Option<Seq<char>>,
    pub lang: Seq<char>,
    pub dpi: u16,
    pub preprocess: bool,
    pub tessdata_path: Option<Seq<char>>,
    pub psm: u8,
    pub oem: u8,
}

impl View for Config {
    type V = ConfigView;

    open spec fn view(&self) -> ConfigView {
        ConfigView {
            pdf_path: self.pdf_path@,
            output_path: optional_text(self.output_path),
            lang: self.lang@,
            dpi: self.dpi,
            preprocess: self.preprocess,
            tessdata_path: optional_text(self.tessdata_path),
            psm: self.psm,
            oem: self.oem,
        }
    }
}

/// What every recognition of a run is made with. It is made once from the
/// settings and is the same for every page.
#[derive(Debug, Clone, PartialEq, Eq)]
pub struct RecognitionConfig {
    /// The language of the text, as the recognition engine names it.
    pub lang: String,
    /// The resolution at which the pages were rendered, in pixels to the inch.
    pub dpi: u16,
    /// The directory of the language data, where it is not the engine's own.
    pub tessdata_path: Option<String>,
    /// The page segmentation mode.
    pub psm: u8,
    /// The engine mode.
    pub oem: u8,
}

/// The mathematical value of a [`RecognitionConfig`].
pub struct RecognitionConfigView {
    pub lang: Seq<char>,
    pub dpi: u16,
    pub tessdata_path: Option<Seq<char>>,
    pub psm: u8,
    pub oem: u8,
}

impl View for RecognitionConfig {
    type V = RecognitionConfigView;

    open spec fn view(&self) -> RecognitionConfigView {
        RecognitionConfigView {
            lang: self.lang@,
            dpi: self.dpi,
            tessdata_path: optional_text(self.tessdata_path),
            psm: self.psm,
            oem: self.oem,
        }
    }
}

impl ConfigView {
    /// What the recognitions of a run with these settings are made with. The
    /// resolution is the one at which the pages are rendered.
    pub open spec fn recognition(self) -> RecognitionConfigView {
        RecognitionConfigView {
            lang: self.lang,
            dpi: self.dpi,
            tessdata_path: self.tessdata_path,
            psm: self.psm,
            oem: self.oem,
        }
    }

    /// The settings that hold where the user names only the document:
    /// English text, 300 pixels to the inch, no normalizing, the engine's own
    /// language data, automatic page segmentation, the default engine, and
    /// the console as output.
    pub open spec fn defaults(pdf_path: Seq<char>) -> ConfigView {
        ConfigView {
            pdf_path,
            output_path: None,
            lang: "eng"@,
            dpi: 300,
            preprocess: false,
            tessdata_path: None,
            psm: 1,
            oem: 3,
        }
    }

    /// Both modes are among those that the recognition engine knows.
    pub open spec fn valid(self) -> bool {
        self.psm <= MAX_PSM && self.oem <= MAX_OEM
    }
}

impl Config {
    /// The settings for the document at `pdf_path` with every other setting
    /// at its default.
    pub fn new(pdf_path: String) -> (config: Config)
        ensures
            config@ == ConfigView::defaults(pdf_path@),
            config@.valid(),
    {
        Config {
            pdf_path,
            output_path: None,
            lang: String::from_str("eng"),
            dpi: 300,
            preprocess: false,
            tessdata_path: None,
            psm: 1,
            oem: 3,
        }
    }

    /// Whether both modes are among those that the recognition engine knows.
    pub fn is_valid(&self) -> (valid: bool)
        ensures
            valid == self@.valid(),
    {
        self.psm <= MAX_PSM && self.oem <= MAX_OEM
    }

    /// What the recognitions of a run with these settings are made with.
    pub fn recognition(&self) -> (recognition: RecognitionConfig)
        ensures
            recognition@ == self@.recognition(),
    {
        RecognitionConfig {
            lang: self.lang.clone(),
            dpi: self.dpi,
            tessdata_path: duplicate_optional(&self.tessdata_path),
            psm: self.psm,
            oem: self.oem,
        }
    }

    /// A copy of the settings.
    pub fn duplicate(&self) -> (copy: Config)
        ensures
            copy@ == self@,
    {
        Config {
            pdf_path: self.pdf_path.clone(),
            output_path: duplicate_optional(&self.output_path),
            lang: self.lang.clone(),
            dpi: self.dpi,
            preprocess: self.preprocess,
            tessdata_path: duplicate_optional(&self.tessdata_path),
            psm: self.psm,
            oem: self.oem,
        }
    }
}

} // verus!
