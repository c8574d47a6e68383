use vstd::prelude::*;
use crate::text::{concat2, owned};

verus! {

pub const UPLOAD_DIRECTORY: &'static str = "/tmp/";

pub const DEFAULT_RECORDING_NAME: &'static str = "audio.mp3";

pub const NO_FILE_UPLOADED: &'static str = "No file uploaded";

/// Where an uploaded recording is kept: under `/tmp/`, by the name that the upload
/// declares, or as `audio.mp3` when it declares none.
pub open spec fn upload_path_text(file_name: Option<Seq<char>>) -> Seq<char> {
    match file_name {
        Some(name) => UPLOAD_DIRECTORY@ + name,
        None => UPLOAD_DIRECTORY@ + DEFAULT_RECORDING_NAME@,
    }
}

/// Where an uploaded recording is kept.
pub fn upload_path(file_name: Option<&str>) -> (res: String)
    ensures
        res@ == upload_path_text(
            match file_name {
                Some(name) => Some(name@),
                None => None,
            },
        ),
{
    match file_name {
        Some(name) => concat2(UPLOAD_DIRECTORY, name),
        None => concat2(UPLOAD_DIRECTORY, DEFAULT_RECORDING_NAME),
    }
}

/// The step at which reading the text of an image failed.
#[derive(Clone, Copy, Debug, PartialEq, Eq, Structural)]
pub enum OcrFailure {
    /// The recognition engine could not be set up for English.
    EngineSetup,
    /// The path of the image is not valid Unicode.
    PathNotText,
    /// The engine could not take the image.
    ImageRejected,
    /// The engine could not give the text.
    TextUnavailable,
}

/// The message that each failure reports.
pub open spec fn ocr_failure_message(failure: OcrFailure) -> Seq<char> {
    match failure {
        OcrFailure::EngineSetup => "Failed to create Tesseract instance"@,
        OcrFailure::PathNotText => "Failed to convert image path to string."@,
        OcrFailure::ImageRejected => "Failed to set image"@,
        OcrFailure::TextUnavailable => "Failed to get text"@,
    }
}

impl OcrFailure {
    /// The message of this failure, as shown to the client.
    pub fn message(&self) -> (res: String)
        ensures
            res@ == ocr_failure_message(*self),
    {
        match self {
            OcrFailure::EngineSetup => owned("Failed to create Tesseract instance"),
            OcrFailure::PathNotText => owned("Failed to convert image path to string."),
            OcrFailure::ImageRejected => owned("Failed to set image"),
            OcrFailure::TextUnavailable => owned("Failed to get text"),
        }
    }
}

} // verus!
