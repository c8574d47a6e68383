use vstd::prelude::*;
use crate::error::{BASIS_FAILED_PREFIX, DraftError, PLEADING_FAILED_PREFIX, error_message};
use crate::json::{JsonValue, spec_completion_text, spec_transcript_text};
use crate::prompts::{
    chat_completion, chat_completion_view, correction_completion, correction_completion_view,
    legal_basis_completion, legal_basis_completion_view, letter_values_completion,
    letter_values_completion_view, pleading_completion, pleading_completion_view,
};
use crate::reply::{
    completion_text, decode_answer, json_document, json_string_array, letter_values, string_views,
    transcript_text,
};
use crate::request::{
    ApiRequest, AudioUpload, CompletionRequest, ReplyReading, Sampling, completion_post,
    completion_post_view, transcription_upload, transcription_upload_view,
};

verus! {

/// What a drafting exchange is asked to produce.
#[derive(Debug)]
pub enum Task {
    /// The assistant's next questions about the letter.
    ChatReply { questions: Vec<String>, answers: Vec<String> },
    /// The seven parts of the letter, as a list.
    LetterValues { questions: Vec<String>, answers: Vec<String> },
    /// The legal arguments that the facts support.
    LegalBasis { facts: String },
    /// The pleading from the facts and their legal basis, in the layout of the template.
    PleadingContent { facts: String, legal_basis: String },
    /// The legal basis of the facts, then the pleading from both: each failure is
    /// reported with the step at which it happened.
    PleadingFromFacts { facts: String },
    /// A transcript of a recording, reworked into the form of a pleading.
    Transcription { file_path: String },
}

/// Where an exchange stands.
#[derive(Clone, Copy, Debug, PartialEq, Eq, Structural)]
pub enum Phase {
    AwaitingKey,
    AwaitingBasis,
    AwaitingTemplate,
    AwaitingCompletion,
    AwaitingTranscript,
    AwaitingCorrection,
    Finished,
}

/// A drafting exchange with the completion service.
#[derive(Debug)]
pub struct Exchange {
    pub task: Task,
    pub phase: Phase,
    /// The service key, once it is known.
    pub api_key: String,
    /// The legal basis, once it has been drafted in this exchange.
    pub legal_basis: String,
}

/// What the caller reports back after doing what an action asked.
#[derive(Debug)]
pub enum Event {
    /// The service key, or why it could not be read.
    KeyLookup(Result<String, String>),
    /// The text of the pleading template, or why it could not be read.
    TemplateLoaded(Result<String, String>),
    /// The answer of the service decoded as JSON, or the message of what failed on the way.
    Reply(Result<JsonValue, String>),
    /// The answer of the service as text, or the message of what failed on the way.
    ReplyText(Result<String, String>),
}

/// What an exchange produced.
#[derive(Debug, PartialEq, Eq)]
pub enum Outcome {
    Text(String),
    Values(Vec<String>),
}

/// What the caller is to do next.
#[derive(Debug)]
pub enum Action {
    /// Read the service key and report it with `Event::KeyLookup`.
    LoadApiKey,
    /// Read the pleading template and report it with `Event::TemplateLoaded`.
    LoadTemplate,
    /// Post this request and report the answer as its `reading` says: decoded with
    /// `Event::Reply`, or as text with `Event::ReplyText`.
    PostJson(ApiRequest),
    /// Upload this recording and report the answer as text with `Event::ReplyText`.
    PostAudio(AudioUpload),
    /// The exchange is over, with this result.
    Finish(Result<Outcome, DraftError>),
}

/// The completion that a task asks for as soon as the key is known.
pub open spec fn first_completion_view(task: Task) -> (Seq<char>, Seq<char>, Seq<char>, Sampling) {
    match task {
        Task::ChatReply { questions, answers } => chat_completion_view(questions@, answers@),
        Task::LetterValues { questions, answers } => letter_values_completion_view(
            questions@,
            answers@,
        ),
        Task::LegalBasis { facts } => legal_basis_completion_view(facts@),
        Task::PleadingFromFacts { facts } => legal_basis_completion_view(facts@),
        _ => (Seq::empty(), Seq::empty(), Seq::empty(), Sampling::ZeroTemperature),
    }
}

fn first_completion(task: &Task) -> (res: CompletionRequest)
    requires
        !(task is Transcription),
        !(task is PleadingContent),
    ensures
        res@ == first_completion_view(*task),
{
    match task {
        Task::ChatReply { questions, answers } => chat_completion(questions, answers),
        Task::LetterValues { questions, answers } => letter_values_completion(questions, answers),
        Task::LegalBasis { facts } => legal_basis_completion(facts.as_str()),
        Task::PleadingFromFacts { facts } => legal_basis_completion(facts.as_str()),
        _ => {
            proof {
                assert(false);
            }
            correction_completion("")
        },
    }
}

/// The facts of a pleading task.
pub open spec fn pleading_facts(task: Task) -> Seq<char> {
    match task {
        Task::PleadingContent { facts, .. } => facts@,
        Task::PleadingFromFacts { facts } => facts@,
        _ => Seq::empty(),
    }
}

/// The legal basis that a pleading is written from: the given one, or the one drafted.
pub open spec fn pleading_basis(ex: Exchange) -> Seq<char> {
    match ex.task {
        Task::PleadingContent { legal_basis, .. } => legal_basis@,
        _ => ex.legal_basis@,
    }
}

/// An error as the exchange reports it: for a pleading from the facts, marked with the
/// step (the legal basis, up to its answer; the pleading, after it).
pub open spec fn staged(ex: Exchange, e: DraftError) -> DraftError {
    if ex.task is PleadingFromFacts {
        if ex.phase == Phase::AwaitingKey || ex.phase == Phase::AwaitingBasis {
            DraftError::BasisFailed(Box::new(e))
        } else {
            DraftError::PleadingFailed(Box::new(e))
        }
    } else {
        e
    }
}

/// The text that the step marker puts before a message.
pub open spec fn stage_prefix(ex: Exchange) -> Seq<char> {
    if ex.task is PleadingFromFacts {
        if ex.phase == Phase::AwaitingKey || ex.phase == Phase::AwaitingBasis {
            BASIS_FAILED_PREFIX@
        } else {
            PLEADING_FAILED_PREFIX@
        }
    } else {
        Seq::empty()
    }
}

/// The exchange, over.
pub open spec fn finished(ex: Exchange) -> Exchange {
    Exchange { task: ex.task, phase: Phase::Finished, api_key: ex.api_key, legal_basis: ex.legal_basis }
}

/// The exchange, in another phase.
pub open spec fn moved_to(ex: Exchange, phase: Phase) -> Exchange {
    Exchange { task: ex.task, phase, api_key: ex.api_key, legal_basis: ex.legal_basis }
}

/// The result of a task whose final completion holds this content: the content itself,
/// which a chat reply may not leave empty, or, for the letter parts, the strings of the
/// JSON array that the content is, which may not be empty either.
pub open spec fn completion_outcome(ex: Exchange, content: Option<Seq<char>>, action: Action) -> bool {
    match content {
        None => action == Action::Finish(Err(staged(ex, DraftError::NoValidResponse))),
        Some(c) => match ex.task {
            Task::LetterValues { .. } => match json_string_array(c) {
                Ok(parts) => if parts.len() == 0 {
                    action == Action::Finish(Err(DraftError::NoValidResponse))
                } else {
                    action matches Action::Finish(Ok(Outcome::Values(v))) && string_views(v@) == parts
                },
                Err(message) => action matches Action::Finish(Err(DraftError::Upstream(e)))
                    && e@ == message,
            },
            Task::ChatReply { .. } => if c.len() == 0 {
                action == Action::Finish(Err(DraftError::NoValidResponse))
            } else {
                action matches Action::Finish(Ok(Outcome::Text(t))) && t@ == c
            },
            _ => action matches Action::Finish(Ok(Outcome::Text(t))) && t@ == c,
        },
    }
}

/// How an exchange answers an event: the next exchange and what the caller is to do.
pub open spec fn step_relation(ex: Exchange, event: Event, next: Exchange, action: Action) -> bool {
    match event {
        Event::KeyLookup(Ok(key)) => if ex.task is PleadingContent {
            &&& next == Exchange {
                task: ex.task,
                phase: Phase::AwaitingTemplate,
                api_key: key,
                legal_basis: ex.legal_basis,
            }
            &&& action == Action::LoadTemplate
        } else {
            &&& next == Exchange {
                task: ex.task,
                phase: if ex.task is PleadingFromFacts {
                    Phase::AwaitingBasis
                } else {
                    Phase::AwaitingCompletion
                },
                api_key: key,
                legal_basis: ex.legal_basis,
            }
            &&& action matches Action::PostJson(request) && request@ == completion_post_view(
                key@,
                first_completion_view(ex.task),
                ReplyReading::Json,
            )
        },
        Event::KeyLookup(Err(detail)) => {
            &&& next == finished(ex)
            &&& action == Action::Finish(Err(staged(ex, DraftError::MissingApiKey(detail))))
        },
        Event::TemplateLoaded(Ok(template)) => {
            &&& next == moved_to(ex, Phase::AwaitingCompletion)
            &&& action matches Action::PostJson(request) && request@ == completion_post_view(
                ex.api_key@,
                pleading_completion_view(pleading_facts(ex.task), pleading_basis(ex), template@),
                ReplyReading::Json,
            )
        },
        Event::TemplateLoaded(Err(message)) => {
            &&& next == finished(ex)
            &&& action == Action::Finish(Err(staged(ex, DraftError::Upstream(message))))
        },
        Event::Reply(Err(message)) => {
            &&& next == finished(ex)
            &&& action == Action::Finish(Err(staged(ex, DraftError::Upstream(message))))
        },
        Event::Reply(Ok(reply)) => answer_relation(ex, reply, next, action),
        Event::ReplyText(Err(message)) => {
            &&& next == finished(ex)
            &&& action == Action::Finish(Err(staged(ex, DraftError::Upstream(message))))
        },
        Event::ReplyText(Ok(text)) => match json_document(text@) {
            Ok(reply) => answer_relation(ex, reply, next, action),
            Err(message) => {
                &&& next == finished(ex)
                &&& action matches Action::Finish(Err(DraftError::Upstream(e))) && e@ == message
            },
        },
    }
}

/// How an exchange answers a decoded answer of the service.
pub open spec fn answer_relation(ex: Exchange, reply: JsonValue, next: Exchange, action: Action) -> bool {
    match ex.phase {
        Phase::AwaitingBasis => match spec_completion_text(reply) {
            Some(basis) => {
                &&& next.task == ex.task
                &&& next.phase == Phase::AwaitingTemplate
                &&& next.api_key == ex.api_key
                &&& next.legal_basis@ == basis
                &&& action == Action::LoadTemplate
            },
            None => {
                &&& next == finished(ex)
                &&& action == Action::Finish(Err(staged(ex, DraftError::NoValidResponse)))
            },
        },
        Phase::AwaitingCompletion => {
            &&& next == finished(ex)
            &&& completion_outcome(ex, spec_completion_text(reply), action)
        },
        Phase::AwaitingTranscript => match spec_transcript_text(reply) {
            Some(transcript) => {
                &&& next == moved_to(ex, Phase::AwaitingCorrection)
                &&& action matches Action::PostJson(request) && request@ == completion_post_view(
                    ex.api_key@,
                    correction_completion_view(transcript),
                    ReplyReading::Text,
                )
            },
            None => {
                &&& next == finished(ex)
                &&& action == Action::Finish(Err(DraftError::TranscriptionFailed))
            },
        },
        Phase::AwaitingCorrection => {
            &&& next == finished(ex)
            &&& match spec_completion_text(reply) {
                Some(c) => action matches Action::Finish(Ok(Outcome::Text(t))) && t@ == c,
                None => action == Action::Finish(Err(DraftError::CorrectionFailed)),
            }
        },
        _ => false,
    }
}

/// How many steps an exchange in this phase may still take.
pub open spec fn phase_rank(phase: Phase) -> nat {
    match phase {
        Phase::AwaitingKey => 4,
        Phase::AwaitingBasis => 3,
        Phase::AwaitingTemplate => 2,
        Phase::AwaitingTranscript => 2,
        Phase::AwaitingCompletion => 1,
        Phase::AwaitingCorrection => 1,
        Phase::Finished => 0,
    }
}

/// Every step brings an exchange closer to its end, keeps its task, and finishes it
/// exactly when it hands back a result; a finished exchange waits for nothing more.
pub proof fn law_steps_make_progress(ex: Exchange, event: Event, next: Exchange, action: Action)
    requires
        ex.expects(event),
        step_relation(ex, event, next, action),
    ensures
        phase_rank(next.phase) < phase_rank(ex.phase),
        next.task == ex.task,
        (action is Finish) == (next.phase == Phase::Finished),
        !(action is LoadApiKey),
        forall|later: Event| next.phase == Phase::Finished ==> !next.expects(later),
{
}

proof fn lemma_staged_message(ex: Exchange, e: DraftError)
    ensures
        error_message(staged(ex, e)) == stage_prefix(ex) + error_message(e),
{
    if !(ex.task is PleadingFromFacts) {
        assert(stage_prefix(ex) + error_message(e) =~= error_message(e));
    }
}

/// A failure on the way to the service ends the exchange and is reported with its own
/// message, behind the step marker of a pleading from the facts.
pub proof fn law_failure_is_reported(
    ex: Exchange,
    event: Event,
    message: String,
    next: Exchange,
    action: Action,
)
    requires
        event == Event::Reply(Err(message)) || event == Event::ReplyText(Err(message)),
        ex.expects(event),
        step_relation(ex, event, next, action),
    ensures
        next.phase == Phase::Finished,
        action matches Action::Finish(Err(e)) && error_message(e) == stage_prefix(ex) + message@,
{
    lemma_staged_message(ex, DraftError::Upstream(message));
}

/// A key that cannot be read ends the exchange with "Missing OPENAI_API_KEY: " and the
/// reason, behind the step marker of a pleading from the facts; nothing else is asked for.
pub proof fn law_missing_key_is_reported(ex: Exchange, detail: String, next: Exchange, action: Action)
    requires
        ex.expects(Event::KeyLookup(Err(detail))),
        step_relation(ex, Event::KeyLookup(Err(detail)), next, action),
    ensures
        next.phase == Phase::Finished,
        action matches Action::Finish(Err(e)) && error_message(e) == stage_prefix(ex)
            + crate::error::MISSING_KEY_PREFIX@ + detail@,
{
    lemma_staged_message(ex, DraftError::MissingApiKey(detail));
}

/// The pleading template is asked for only once the exchange holds a key: right after
/// the key has been read, or after the legal basis has come back.
pub proof fn law_template_after_key(ex: Exchange, event: Event, next: Exchange, action: Action)
    requires
        ex.expects(event),
        step_relation(ex, event, next, action),
        action is LoadTemplate,
    ensures
        event matches Event::KeyLookup(Ok(key)) && next.api_key == key || (ex.phase
            == Phase::AwaitingBasis && next.api_key == ex.api_key),
        next.phase == Phase::AwaitingTemplate,
{
}

/// A chat reply that succeeds is not empty, nor is a list of letter parts that succeeds.
pub proof fn law_successes_are_not_empty(ex: Exchange, event: Event, next: Exchange, action: Action)
    requires
        ex.expects(event),
        step_relation(ex, event, next, action),
    ensures
        ex.task is ChatReply ==> (action matches Action::Finish(Ok(Outcome::Text(t))) ==> t@.len()
            > 0),
        action matches Action::Finish(Ok(Outcome::Values(v))) ==> v@.len() > 0,
{
}

/// Every request that an exchange posts is signed with the key that the exchange holds.
pub proof fn law_posts_are_signed(ex: Exchange, event: Event, next: Exchange, action: Action)
    requires
        ex.expects(event),
        step_relation(ex, event, next, action),
    ensures
        action matches Action::PostJson(request) ==> request.authorization@
            == crate::request::BEARER_PREFIX@ + next.api_key@,
{
}

/// The legal basis that comes back is the one the pleading is then written from.
pub proof fn law_basis_feeds_pleading(
    ex: Exchange,
    reply: JsonValue,
    mid: Exchange,
    asked: Action,
    template: String,
    last: Exchange,
    action: Action,
)
    requires
        ex.phase == Phase::AwaitingBasis,
        ex.expects(Event::Reply(Ok(reply))),
        step_relation(ex, Event::Reply(Ok(reply)), mid, asked),
        spec_completion_text(reply) is Some,
        step_relation(mid, Event::TemplateLoaded(Ok(template)), last, action),
    ensures
        mid.expects(Event::TemplateLoaded(Ok(template))),
        action matches Action::PostJson(request) && request@.2 == crate::request::completion_body_text(
            pleading_completion_view(
                pleading_facts(ex.task),
                spec_completion_text(reply).unwrap(),
                template@,
            ),
        ),
{
}

/// A transcript is reworked as it came: the correction posts it, unchanged, as what the user says,
/// and the text of the correction is the result.
pub proof fn law_transcript_is_corrected(
    ex: Exchange,
    answer: String,
    reply: JsonValue,
    next: Exchange,
    action: Action,
    correction_answer: String,
    correction: JsonValue,
    last: Exchange,
    result: Action,
)
    requires
        ex.phase == Phase::AwaitingTranscript,
        ex.expects(Event::ReplyText(Ok(answer))),
        json_document(answer@) == Ok::<JsonValue, Seq<char>>(reply),
        step_relation(ex, Event::ReplyText(Ok(answer)), next, action),
        spec_transcript_text(reply) is Some,
        json_document(correction_answer@) == Ok::<JsonValue, Seq<char>>(correction),
        step_relation(next, Event::ReplyText(Ok(correction_answer)), last, result),
        spec_completion_text(correction) is Some,
    ensures
        next.expects(Event::ReplyText(Ok(correction_answer))),
        action matches Action::PostJson(request) && request@.2 == crate::request::completion_body_text(
            (
                crate::prompts::CORRECTION_MODEL@,
                crate::prompts::CORRECTION_SYSTEM_PROMPT@,
                spec_transcript_text(reply).unwrap(),
                Sampling::ZeroTemperature,
            ),
        ),
        result matches Action::Finish(Ok(Outcome::Text(t))) && t@ == spec_completion_text(
            correction,
        ).unwrap(),
{
}

/// An answer read as text that does not decode as JSON ends the exchange, reported
/// with the decoder's own complaint.
pub proof fn law_undecodable_answer_is_reported(ex: Exchange, text: String, next: Exchange, action: Action)
    requires
        ex.expects(Event::ReplyText(Ok(text))),
        step_relation(ex, Event::ReplyText(Ok(text)), next, action),
        json_document(text@) is Err,
    ensures
        next.phase == Phase::Finished,
        action matches Action::Finish(Err(e)) && error_message(e) == json_document(text@)->Err_0,
{
}

impl Exchange {
    /// Whether the exchange waits for this kind of event.
    pub open spec fn expects(self, event: Event) -> bool {
        match self.phase {
            Phase::AwaitingKey => event is KeyLookup && !(self.task is Transcription),
            Phase::AwaitingBasis => event is Reply && self.task is PleadingFromFacts,
            Phase::AwaitingTemplate => event is TemplateLoaded && (self.task is PleadingContent
                || self.task is PleadingFromFacts),
            Phase::AwaitingCompletion => event is Reply && !(self.task is Transcription),
            Phase::AwaitingTranscript => event is ReplyText && self.task is Transcription,
            Phase::AwaitingCorrection => event is ReplyText && self.task is Transcription,
            Phase::Finished => false,
        }
    }

    /// Whether the exchange waits for this kind of event.
    pub fn expects_event(&self, event: &Event) -> (res: bool)
        ensures
            res == self.expects(*event),
    {
        let is_transcription = match &self.task {
            Task::Transcription { .. } => true,
            _ => false,
        };
        let from_facts = match &self.task {
            Task::PleadingFromFacts { .. } => true,
            _ => false,
        };
        let with_template = match &self.task {
            Task::PleadingContent { .. } => true,
            Task::PleadingFromFacts { .. } => true,
            _ => false,
        };
        match (self.phase, event) {
            (Phase::AwaitingKey, Event::KeyLookup(_)) => !is_transcription,
            (Phase::AwaitingBasis, Event::Reply(_)) => from_facts,
            (Phase::AwaitingTemplate, Event::TemplateLoaded(_)) => with_template,
            (Phase::AwaitingCompletion, Event::Reply(_)) => !is_transcription,
            (Phase::AwaitingTranscript, Event::ReplyText(_)) => is_transcription,
            (Phase::AwaitingCorrection, Event::ReplyText(_)) => is_transcription,
            _ => false,
        }
    }

    /// Starts an exchange for a task other than a transcription: the service key comes first.
    pub fn begin(task: Task) -> (res: (Exchange, Action))
        requires
            !(task is Transcription),
        ensures
            res.0.task == task,
            res.0.phase == Phase::AwaitingKey,
            res.0.api_key@ == Seq::<char>::empty(),
            res.0.legal_basis@ == Seq::<char>::empty(),
            res.1 == Action::LoadApiKey,
    {
        (
            Exchange { task, phase: Phase::AwaitingKey, api_key: String::new(), legal_basis: String::new() },
            Action::LoadApiKey,
        )
    }

    /// Starts the transcription of the recording at `file_path`: it is uploaded first.
    pub fn begin_transcription(api_key: String, file_path: String) -> (res: (Exchange, Action))
        ensures
            res.0.task == (Task::Transcription { file_path }),
            res.0.phase == Phase::AwaitingTranscript,
            res.0.api_key == api_key,
            res.0.legal_basis@ == Seq::<char>::empty(),
            res.1 matches Action::PostAudio(upload) && upload@ == transcription_upload_view(
                api_key@,
                file_path@,
            ),
    {
        let upload = transcription_upload(api_key.as_str(), file_path.as_str());
        (
            Exchange {
                task: Task::Transcription { file_path },
                phase: Phase::AwaitingTranscript,
                api_key,
                legal_basis: String::new(),
            },
            Action::PostAudio(upload),
        )
    }

    /// The error as this exchange reports it.
    fn staged_error(&self, e: DraftError) -> (res: DraftError)
        ensures
            res == staged(*self, e),
    {
        match &self.task {
            Task::PleadingFromFacts { .. } => if self.phase == Phase::AwaitingKey || self.phase
                == Phase::AwaitingBasis {
                DraftError::BasisFailed(Box::new(e))
            } else {
                DraftError::PleadingFailed(Box::new(e))
            },
            _ => e,
        }
    }

    /// The exchange, in another phase.
    fn moved(self, phase: Phase) -> (res: Exchange)
        ensures
            res == moved_to(self, phase),
    {
        Exchange { task: self.task, phase, api_key: self.api_key, legal_basis: self.legal_basis }
    }

    /// The exchange, over, with this error.
    fn fail(self, e: DraftError) -> (res: (Exchange, Action))
        ensures
            res.0 == finished(self),
            res.1 == Action::Finish(Err(staged(self, e))),
    {
        let reported = self.staged_error(e);
        (self.moved(Phase::Finished), Action::Finish(Err(reported)))
    }

    /// The pleading asked for once the template is known.
    fn pleading_post(&self, template: &str) -> (res: ApiRequest)
        requires
            self.task is PleadingContent || self.task is PleadingFromFacts,
        ensures
            res@ == completion_post_view(
                self.api_key@,
                pleading_completion_view(pleading_facts(self.task), pleading_basis(*self), template@),
                ReplyReading::Json,
            ),
    {
        let completion = match &self.task {
            Task::PleadingContent { facts, legal_basis } => pleading_completion(
                facts.as_str(),
                legal_basis.as_str(),
                template,
            ),
            Task::PleadingFromFacts { facts } => pleading_completion(
                facts.as_str(),
                self.legal_basis.as_str(),
                template,
            ),
            _ => {
                proof {
                    assert(false);
                }
                correction_completion("")
            },
        };
        completion_post(self.api_key.as_str(), &completion, ReplyReading::Json)
    }

    /// What the final completion gives for this exchange.
    fn outcome(&self, reply: &JsonValue) -> (res: Action)
        ensures
            completion_outcome(*self, spec_completion_text(*reply), res),
    {
        match completion_text(reply) {
            None => Action::Finish(Err(self.staged_error(DraftError::NoValidResponse))),
            Some(content) => match &self.task {
                Task::LetterValues { .. } => match letter_values(content.as_str()) {
                    Ok(parts) => Action::Finish(Ok(Outcome::Values(parts))),
                    Err(e) => Action::Finish(Err(e)),
                },
                Task::ChatReply { .. } => if content.as_str().is_empty() {
                    Action::Finish(Err(DraftError::NoValidResponse))
                } else {
                    Action::Finish(Ok(Outcome::Text(content)))
                },
                _ => Action::Finish(Ok(Outcome::Text(content))),
            },
        }
    }

    /// Answers a decoded answer of the service.
    fn answer(self, reply: JsonValue) -> (res: (Exchange, Action))
        requires
            self.phase == Phase::AwaitingBasis || self.phase == Phase::AwaitingCompletion
                || self.phase == Phase::AwaitingTranscript || self.phase
                == Phase::AwaitingCorrection,
            self.phase == Phase::AwaitingTranscript ==> self.task is Transcription,
        ensures
            answer_relation(self, reply, res.0, res.1),
    {
        let phase = self.phase;
        if phase == Phase::AwaitingBasis {
            match completion_text(&reply) {
                Some(basis) => (
                    Exchange {
                        task: self.task,
                        phase: Phase::AwaitingTemplate,
                        api_key: self.api_key,
                        legal_basis: basis,
                    },
                    Action::LoadTemplate,
                ),
                None => self.fail(DraftError::NoValidResponse),
            }
        } else if phase == Phase::AwaitingTranscript {
            match transcript_text(&reply) {
                Some(transcript) => {
                    let request = completion_post(
                        self.api_key.as_str(),
                        &correction_completion(transcript.as_str()),
                        ReplyReading::Text,
                    );
                    (self.moved(Phase::AwaitingCorrection), Action::PostJson(request))
                },
                None => self.fail(DraftError::TranscriptionFailed),
            }
        } else if phase == Phase::AwaitingCorrection {
            let action = match completion_text(&reply) {
                Some(content) => Action::Finish(Ok(Outcome::Text(content))),
                None => Action::Finish(Err(DraftError::CorrectionFailed)),
            };
            (self.moved(Phase::Finished), action)
        } else {
            let action = self.outcome(&reply);
            (self.moved(Phase::Finished), action)
        }
    }

    /// Answers the event that the exchange waits for.
    pub fn step(self, event: Event) -> (res: (Exchange, Action))
        requires
            self.expects(event),
        ensures
            step_relation(self, event, res.0, res.1),
    {
        let phase = self.phase;
        let loads_template_first = match &self.task {
            Task::PleadingContent { .. } => true,
            _ => false,
        };
        let from_facts = match &self.task {
            Task::PleadingFromFacts { .. } => true,
            _ => false,
        };
        match event {
            Event::KeyLookup(Ok(key)) => {
                if loads_template_first {
                    (
                        Exchange {
                            task: self.task,
                            phase: Phase::AwaitingTemplate,
                            api_key: key,
                            legal_basis: self.legal_basis,
                        },
                        Action::LoadTemplate,
                    )
                } else {
                    let request = completion_post(
                        key.as_str(),
                        &first_completion(&self.task),
                        ReplyReading::Json,
                    );
                    let next_phase = if from_facts {
                        Phase::AwaitingBasis
                    } else {
                        Phase::AwaitingCompletion
                    };
                    (
                        Exchange {
                            task: self.task,
                            phase: next_phase,
                            api_key: key,
                            legal_basis: self.legal_basis,
                        },
                        Action::PostJson(request),
                    )
                }
            },
            Event::KeyLookup(Err(detail)) => self.fail(DraftError::MissingApiKey(detail)),
            Event::TemplateLoaded(Ok(template)) => {
                let request = self.pleading_post(template.as_str());
                (self.moved(Phase::AwaitingCompletion), Action::PostJson(request))
            },
            Event::TemplateLoaded(Err(message)) => self.fail(DraftError::Upstream(message)),
            Event::Reply(Err(message)) => self.fail(DraftError::Upstream(message)),
            Event::Reply(Ok(reply)) => self.answer(reply),
            Event::ReplyText(Err(message)) => self.fail(DraftError::Upstream(message)),
            Event::ReplyText(Ok(text)) => match decode_answer(text.as_str()) {
                Ok(reply) => self.answer(reply),
                Err(e) => (self.moved(Phase::Finished), Action::Finish(Err(e))),
            },
        }
    }
}

} // verus!
