use vstd::prelude::*;
use crate::text::{concat2, owned};

verus! {

/// Why a drafting exchange ended without a result.
#[derive(Debug, PartialEq, Eq)]
pub enum DraftError {
    /// The service key could not be read; the text says why.
    MissingApiKey(String),
    /// The transport, the service or a decoder failed with this message.
    Upstream(String),
    /// The completion held no text at `choices[0].message.content`.
    NoValidResponse,
    /// The transcription held no text at `text`.
    TranscriptionFailed,
    /// The correction of a transcript held no text at `choices[0].message.content`.
    CorrectionFailed,
    /// Drafting the legal basis of a pleading failed for this reason.
    BasisFailed(Box<DraftError>),
    /// Drafting the pleading itself, after its legal basis, failed for this reason.
    PleadingFailed(Box<DraftError>),
}

pub const MISSING_KEY_PREFIX: &'static str = "Missing OPENAI_API_KEY: ";
pub const NO_VALID_RESPONSE: &'static str = "No valid response generated.";
pub const TRANSCRIPTION_FAILED: &'static str = "Failed to transcribe audio";
pub const CORRECTION_FAILED: &'static str = "Failed to correct transcription";
pub const BASIS_FAILED_PREFIX: &'static str = "Error: ";
pub const PLEADING_FAILED_PREFIX: &'static str = "Error:: ";

/// The message that each error reports.
pub open spec fn error_message(e: DraftError) -> Seq<char>
    decreases e,
{
    match e {
        DraftError::MissingApiKey(detail) => MISSING_KEY_PREFIX@ + detail@,
        DraftError::Upstream(message) => message@,
        DraftError::NoValidResponse => NO_VALID_RESPONSE@,
        DraftError::TranscriptionFailed => TRANSCRIPTION_FAILED@,
        DraftError::CorrectionFailed => CORRECTION_FAILED@,
        DraftError::BasisFailed(reason) => BASIS_FAILED_PREFIX@ + error_message(*reason),
        DraftError::PleadingFailed(reason) => PLEADING_FAILED_PREFIX@ + error_message(*reason),
    }
}

impl DraftError {
    /// The message of this error, as shown to the client.
    pub fn message(&self) -> (res: String)
        ensures
            res@ == error_message(*self),
        decreases self,
    {
        match self {
            DraftError::MissingApiKey(detail) => concat2(MISSING_KEY_PREFIX, detail.as_str()),
            DraftError::Upstream(message) => message.clone(),
            DraftError::NoValidResponse => owned(NO_VALID_RESPONSE),
            DraftError::TranscriptionFailed => owned(TRANSCRIPTION_FAILED),
            DraftError::CorrectionFailed => owned(CORRECTION_FAILED),
            DraftError::BasisFailed(reason) => concat2(BASIS_FAILED_PREFIX, reason.message().as_str()),
            DraftError::PleadingFailed(reason) => concat2(
                PLEADING_FAILED_PREFIX,
                reason.message().as_str(),
            ),
        }
    }
}

} // verus!
