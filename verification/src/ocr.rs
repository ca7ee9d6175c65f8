//! Recognizing the text of one page image.
//!
//! The recognition engine is driven by the caller. This module decides which
//! calls one recognition makes, in which order and with which values, and
//! what a refusal of the engine means for the page.

use crate::error::{OcrError, OcrErrorView};
use crate::text::{decimal, decimal_string, duplicate_optional, optional_text};
use vstd::prelude::*;
use vstd::string::*;

verus! {

/// The name of the engine variable that holds the page segmentation mode.
pub open spec fn page_seg_mode_key() -> Seq<char> {
    "tessedit_pageseg_mode"@
}

/// The name of the engine variable that holds the engine mode.
pub open spec fn engine_mode_key() -> Seq<char> {
    "tessedit_ocr_engine_mode"@
}

/// The name of the engine variable that holds the resolution of the image.
pub open spec fn resolution_key() -> Seq<char> {
    "user_defined_dpi"@
}

/// One call of the recognition engine, or the end of the recognition.
#[derive(Debug, PartialEq, Eq)]
pub enum EngineAction {
    /// Start a fresh engine for the language `lang`, with the language data
    /// in `tessdata_path` where one is given and in the engine's own place
    /// elsewhere.
    Initialize { tessdata_path: Option<String>, lang: String },
    /// Bind the engine to the image at the given path.
    SetImage { image_path: String },
    /// Set the engine variable `key` to `value`.
    SetVariable { key: String, value: String },
    /// Ask the engine for the text of the image, as UTF-8.
    GetText,
    /// The recognition has ended with this text or this failure.
    Return(Result<String, OcrError>),
}

/// The mathematical value of an [`EngineAction`].
pub enum EngineActionView {
    Initialize { tessdata_path: Option<Seq<char>>, lang: Seq<char> },
    SetImage { image_path: Seq<char> },
    SetVariable { key: Seq<char>, value: Seq<char> },
    GetText,
    Return(Result<Seq<char>, OcrErrorView>),
}

/// The view of the outcome of a recognition.
pub open spec fn outcome_view(outcome: Result<String, OcrError>) -> Result<
    Seq<char>,
    OcrErrorView,
> {
    match outcome {
        Ok(text) => Ok(text@),
        Err(error) => Err(error@),
    }
}

impl View for EngineAction {
    type V = EngineActionView;

    open spec fn view(&self) -> EngineActionView {
        match self {
            EngineAction::Initialize { tessdata_path, lang } => EngineActionView::Initialize {
                tessdata_path: optional_text(*tessdata_path),
                lang: lang@,
            },
            EngineAction::SetImage { image_path } => EngineActionView::SetImage {
                image_path: image_path@,
            },
            EngineAction::SetVariable { key, value } => EngineActionView::SetVariable {
                key: key@,
                value: value@,
            },
            EngineAction::GetText => EngineActionView::GetText,
            EngineAction::Return(outcome) => EngineActionView::Return(outcome_view(*outcome)),
        }
    }
}

/// What the engine answered to a call.
#[derive(Debug, Clone, PartialEq, Eq)]
pub enum EngineReply {
    /// The engine did what was asked.
    Accepted,
    /// The engine refused or failed; the payload is its reason.
    Refused(String),
    /// The text that the engine extracted.
    Text(String),
}

/// The mathematical value of an [`EngineReply`].
pub enum EngineReplyView {
    Accepted,
    Refused(Seq<char>),
    Text(Seq<char>),
}

impl View for EngineReply {
    type V = EngineReplyView;

    open spec fn view(&self) -> EngineReplyView {
        match self {
            EngineReply::Accepted => EngineReplyView::Accepted,
            EngineReply::Refused(reason) => EngineReplyView::Refused(reason@),
            EngineReply::Text(text) => EngineReplyView::Text(text@),
        }
    }
}

/// Where a recognition stands: the call that is being made, or its end.
pub enum RecognitionStageView {
    Initializing,
    BindingImage,
    SettingPageSegMode,
    SettingEngineMode,
    SettingResolution,
    ReadingText,
    Done(Result<Seq<char>, OcrErrorView>),
}

/// The mathematical value of a [`Recognition`].
pub struct RecognitionView {
    /// The path of the image.
    pub image_path: Seq<char>,
    /// The language of the text.
    pub lang: Seq<char>,
    /// The resolution at which the image was rendered, in pixels to the inch.
    pub dpi: u16,
    /// The directory of the language data, where it is not the engine's own.
    pub tessdata_path: Option<Seq<char>>,
    /// The page segmentation mode.
    pub psm: u8,
    /// The engine mode.
    pub oem: u8,
    pub stage: RecognitionStageView,
}

impl RecognitionView {
    /// The recognition of an image before anything has happened.
    pub open spec fn initial(
        image_path: Seq<char>,
        lang: Seq<char>,
        dpi: u16,
        tessdata_path: Option<Seq<char>>,
        psm: u8,
        oem: u8,
    ) -> RecognitionView {
        RecognitionView {
            image_path,
            lang,
            dpi,
            tessdata_path,
            psm,
            oem,
            stage: RecognitionStageView::Initializing,
        }
    }

    /// The failure of the engine on the image.
    pub open spec fn image_failure(self) -> OcrErrorView {
        OcrErrorView::TesseractOcr(self.image_path)
    }

    /// What is asked of the engine in this state: a fresh engine, then the
    /// image, then the page segmentation mode, the engine mode and the
    /// resolution as decimal numerals, and only then the text.
    pub open spec fn action(self) -> EngineActionView {
        match self.stage {
            RecognitionStageView::Initializing => EngineActionView::Initialize {
                tessdata_path: self.tessdata_path,
                lang: self.lang,
            },
            RecognitionStageView::BindingImage => EngineActionView::SetImage {
                image_path: self.image_path,
            },
            RecognitionStageView::SettingPageSegMode => EngineActionView::SetVariable {
                key: page_seg_mode_key(),
                value: decimal(self.psm as nat),
            },
            RecognitionStageView::SettingEngineMode => EngineActionView::SetVariable {
                key: engine_mode_key(),
                value: decimal(self.oem as nat),
            },
            RecognitionStageView::SettingResolution => EngineActionView::SetVariable {
                key: resolution_key(),
                value: decimal(self.dpi as nat),
            },
            RecognitionStageView::ReadingText => EngineActionView::GetText,
            RecognitionStageView::Done(outcome) => EngineActionView::Return(outcome),
        }
    }

    /// The state with another stage.
    pub open spec fn at(self, stage: RecognitionStageView) -> RecognitionView {
        RecognitionView { stage, ..self }
    }

    /// The state that has ended with a failure.
    pub open spec fn failed(self, error: OcrErrorView) -> RecognitionView {
        self.at(RecognitionStageView::Done(Err(error)))
    }

    /// The state after a reply of the engine. An accepted call leads to the
    /// next one. A refusal ends the recognition: with the engine's reason
    /// where the engine did not start, with the variable and its value where
    /// a variable was refused, and with the path of the image where the image
    /// could not be bound or read. A reply that does not answer the call that
    /// was made leaves the state as it is.
    pub open spec fn advanced(self, reply: EngineReplyView) -> RecognitionView {
        match (self.stage, reply) {
            (RecognitionStageView::Initializing, EngineReplyView::Accepted) => self.at(
                RecognitionStageView::BindingImage,
            ),
            (RecognitionStageView::Initializing, EngineReplyView::Refused(reason)) => self.failed(
                OcrErrorView::TesseractInit(reason),
            ),
            (RecognitionStageView::BindingImage, EngineReplyView::Accepted) => self.at(
                RecognitionStageView::SettingPageSegMode,
            ),
            (RecognitionStageView::BindingImage, EngineReplyView::Refused(_)) => self.failed(
                self.image_failure(),
            ),
            (RecognitionStageView::SettingPageSegMode, EngineReplyView::Accepted) => self.at(
                RecognitionStageView::SettingEngineMode,
            ),
            (RecognitionStageView::SettingPageSegMode, EngineReplyView::Refused(_)) => self.failed(
                OcrErrorView::TesseractVariable {
                    key: page_seg_mode_key(),
                    value: decimal(self.psm as nat),
                },
            ),
            (RecognitionStageView::SettingEngineMode, EngineReplyView::Accepted) => self.at(
                RecognitionStageView::SettingResolution,
            ),
            (RecognitionStageView::SettingEngineMode, EngineReplyView::Refused(_)) => self.failed(
                OcrErrorView::TesseractVariable {
                    key: engine_mode_key(),
                    value: decimal(self.oem as nat),
                },
            ),
            (RecognitionStageView::SettingResolution, EngineReplyView::Accepted) => self.at(
                RecognitionStageView::ReadingText,
            ),
            (RecognitionStageView::SettingResolution, EngineReplyView::Refused(_)) => self.failed(
                OcrErrorView::TesseractVariable {
                    key: resolution_key(),
                    value: decimal(self.dpi as nat),
                },
            ),
            (RecognitionStageView::ReadingText, EngineReplyView::Text(text)) => self.at(
                RecognitionStageView::Done(Ok(text)),
            ),
            (RecognitionStageView::ReadingText, EngineReplyView::Refused(_)) => self.failed(
                self.image_failure(),
            ),
            _ => self,
        }
    }
}

/// Where the engine accepts every call, the calls are made in this order:
/// a fresh engine, the image, the page segmentation mode, the engine mode,
/// the resolution, and then the text. Every setting is in place before the
/// text is asked for.
pub proof fn lemma_settings_come_before_the_text(start: RecognitionView)
    requires
        start.stage is Initializing,
    ensures
        ({
            let accepted = EngineReplyView::Accepted;
            let bound = start.advanced(accepted).advanced(accepted);
            &&& start.action() is Initialize
            &&& start.advanced(accepted).action() == EngineActionView::SetImage {
                image_path: start.image_path,
            }
            &&& bound.action() == EngineActionView::SetVariable {
                key: page_seg_mode_key(),
                value: decimal(start.psm as nat),
            }
            &&& bound.advanced(accepted).action() == EngineActionView::SetVariable {
                key: engine_mode_key(),
                value: decimal(start.oem as nat),
            }
            &&& bound.advanced(accepted).advanced(accepted).action()
                == EngineActionView::SetVariable {
                key: resolution_key(),
                value: decimal(start.dpi as nat),
            }
            &&& bound.advanced(accepted).advanced(accepted).advanced(accepted).action()
                == EngineActionView::GetText
        }),
{
}

/// The text is asked for only in a state that every earlier call has led
/// to: no reply takes a recognition there from anywhere but the setting of
/// the resolution, and only its acceptance does.
pub proof fn lemma_text_is_asked_last(state: RecognitionView, reply: EngineReplyView)
    requires
        state.advanced(reply).action() is GetText,
        !(state.action() is GetText),
    ensures
        state.stage is SettingResolution,
        reply is Accepted,
{
}

/// A refusal ends a recognition that has not ended, with a failure that
/// stays with the page.
pub proof fn lemma_refusal_ends_recognition(state: RecognitionView, reason: Seq<char>)
    requires
        !(state.stage is Done),
    ensures
        state.advanced(EngineReplyView::Refused(reason)).stage matches RecognitionStageView::Done(
            Err(error),
        ) && error.is_page_local(),
{
}

/// A recognition that has ended stays as it is, whatever is replied.
pub proof fn lemma_ended_recognition_stays(state: RecognitionView, reply: EngineReplyView)
    requires
        state.stage is Done,
    ensures
        state.advanced(reply) == state,
{
}

/// Where a recognition stands.
enum RecognitionStage {
    Initializing,
    BindingImage,
    SettingPageSegMode,
    SettingEngineMode,
    SettingResolution,
    ReadingText,
    Done(Result<String, OcrError>),
}

impl View for RecognitionStage {
    type V = RecognitionStageView;

    closed spec fn view(&self) -> RecognitionStageView {
        match self {
            RecognitionStage::Initializing => RecognitionStageView::Initializing,
            RecognitionStage::BindingImage => RecognitionStageView::BindingImage,
            RecognitionStage::SettingPageSegMode => RecognitionStageView::SettingPageSegMode,
            RecognitionStage::SettingEngineMode => RecognitionStageView::SettingEngineMode,
            RecognitionStage::SettingResolution => RecognitionStageView::SettingResolution,
            RecognitionStage::ReadingText => RecognitionStageView::ReadingText,
            RecognitionStage::Done(outcome) => RecognitionStageView::Done(outcome_view(*outcome)),
        }
    }
}

/// The recognition of one image: a state that the caller advances by
/// reporting what the engine answered. Each recognition has an engine of its
/// own, set up in the same way.
pub struct Recognition {
    image_path: String,
    lang: String,
    dpi: u16,
    tessdata_path: Option<String>,
    psm: u8,
    oem: u8,
    stage: RecognitionStage,
}

impl View for Recognition {
    type V = RecognitionView;

    closed spec fn view(&self) -> RecognitionView {
        RecognitionView {
            image_path: self.image_path@,
            lang: self.lang@,
            dpi: self.dpi,
            tessdata_path: optional_text(self.tessdata_path),
            psm: self.psm,
            oem: self.oem,
            stage: self.stage@,
        }
    }
}

/// Starts the recognition of the image at `image_path`: text in the language
/// `lang`, rendered at `dpi` pixels to the inch, read with the page
/// segmentation mode `psm` and the engine mode `oem`, with the language data
/// in `tessdata_path` where one is given. The first thing asked of the caller
/// is a fresh engine.
pub fn extract_text_from_image(
    image_path: &str,
    lang: &str,
    dpi: u16,
    tessdata_path: Option<&str>,
    psm: u8,
    oem: u8,
) -> (start: (Recognition, EngineAction))
    ensures
        start.0@ == RecognitionView::initial(
            image_path@,
            lang@,
            dpi,
            match tessdata_path {
                Some(path) => Some(path@),
                None => None,
            },
            psm,
            oem,
        ),
        start.1@ == start.0@.action(),
{
    let tessdata_path = match tessdata_path {
        Some(path) => Some(String::from_str(path)),
        None => None,
    };
    let recognition = Recognition {
        image_path: String::from_str(image_path),
        lang: String::from_str(lang),
        dpi,
        tessdata_path,
        psm,
        oem,
        stage: RecognitionStage::Initializing,
    };
    let action = recognition.action();
    (recognition, action)
}

impl Recognition {
    /// The failure of the engine on the image.
    fn image_failure(&self) -> (error: OcrError)
        ensures
            error@ == self@.image_failure(),
    {
        OcrError::TesseractOcr(self.image_path.clone())
    }

    /// What is asked of the engine in this state.
    pub fn action(&self) -> (action: EngineAction)
        ensures
            action@ == self@.action(),
    {
        match &self.stage {
            RecognitionStage::Initializing => EngineAction::Initialize {
                tessdata_path: duplicate_optional(&self.tessdata_path),
                lang: self.lang.clone(),
            },
            RecognitionStage::BindingImage => EngineAction::SetImage {
                image_path: self.image_path.clone(),
            },
            RecognitionStage::SettingPageSegMode => EngineAction::SetVariable {
                key: String::from_str("tessedit_pageseg_mode"),
                value: decimal_string(self.psm as u64),
            },
            RecognitionStage::SettingEngineMode => EngineAction::SetVariable {
                key: String::from_str("tessedit_ocr_engine_mode"),
                value: decimal_string(self.oem as u64),
            },
            RecognitionStage::SettingResolution => EngineAction::SetVariable {
                key: String::from_str("user_defined_dpi"),
                value: decimal_string(self.dpi as u64),
            },
            RecognitionStage::ReadingText => EngineAction::GetText,
            RecognitionStage::Done(Ok(text)) => EngineAction::Return(Ok(text.clone())),
            RecognitionStage::Done(Err(error)) => EngineAction::Return(Err(error.duplicate())),
        }
    }

    /// The failure at the variable that the state is setting.
    fn variable_failure(key: &str, value: u64) -> (error: OcrError)
        ensures
            error@ == (OcrErrorView::TesseractVariable { key: key@, value: decimal(value as nat) }),
    {
        OcrError::TesseractVariable { key: String::from_str(key), value: decimal_string(value) }
    }

    /// Takes the reply of the engine to the call that was made, and says
    /// what is asked of the caller next.
    pub fn advance(self, reply: EngineReply) -> (next: (Recognition, EngineAction))
        ensures
            next.0@ == self@.advanced(reply@),
            next.1@ == next.0@.action(),
    {
        let stage = match (&self.stage, reply) {
            (RecognitionStage::Initializing, EngineReply::Accepted) => {
                RecognitionStage::BindingImage
            },
            (RecognitionStage::Initializing, EngineReply::Refused(reason)) => {
                RecognitionStage::Done(Err(OcrError::TesseractInit(reason)))
            },
            (RecognitionStage::BindingImage, EngineReply::Accepted) => {
                RecognitionStage::SettingPageSegMode
            },
            (RecognitionStage::BindingImage, EngineReply::Refused(_)) => {
                RecognitionStage::Done(Err(self.image_failure()))
            },
            (RecognitionStage::SettingPageSegMode, EngineReply::Accepted) => {
                RecognitionStage::SettingEngineMode
            },
            (RecognitionStage::SettingPageSegMode, EngineReply::Refused(_)) => {
                RecognitionStage::Done(
                    Err(Self::variable_failure("tessedit_pageseg_mode", self.psm as u64)),
                )
            },
            (RecognitionStage::SettingEngineMode, EngineReply::Accepted) => {
                RecognitionStage::SettingResolution
            },
            (RecognitionStage::SettingEngineMode, EngineReply::Refused(_)) => {
                RecognitionStage::Done(
                    Err(Self::variable_failure("tessedit_ocr_engine_mode", self.oem as u64)),
                )
            },
            (RecognitionStage::SettingResolution, EngineReply::Accepted) => {
                RecognitionStage::ReadingText
            },
            (RecognitionStage::SettingResolution, EngineReply::Refused(_)) => {
                RecognitionStage::Done(
                    Err(Self::variable_failure("user_defined_dpi", self.dpi as u64)),
                )
            },
            (RecognitionStage::ReadingText, EngineReply::Text(text)) => {
                RecognitionStage::Done(Ok(text))
            },
            (RecognitionStage::ReadingText, EngineReply::Refused(_)) => {
                RecognitionStage::Done(Err(self.image_failure()))
            },
            _ => {
                let action = self.action();
                return (self, action);
            },
        };
        let recognition = Recognition {
            image_path: self.image_path,
            lang: self.lang,
            dpi: self.dpi,
            tessdata_path: self.tessdata_path,
            psm: self.psm,
            oem: self.oem,
            stage,
        };
        let action = recognition.action();
        (recognition, action)
    }

    /// The text or the failure that the recognition ended with; `None` while
    /// it has not ended.
    pub fn into_outcome(self) -> (outcome: Option<Result<String, OcrError>>)
        ensures
            match outcome {
                Some(outcome) => self@.stage == RecognitionStageView::Done(outcome_view(outcome)),
                None => !(self@.stage is Done),
            },
    {
        match self.stage {
            RecognitionStage::Done(outcome) => Some(outcome),
            _ => None,
        }
    }
}

} // verus!
