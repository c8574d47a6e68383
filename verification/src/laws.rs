use vstd::prelude::*;
use crate::exchange::{
    Action, Event, Exchange, Outcome, Phase, Task, step_relation,
};
use crate::json::{
    JsonValue, entry_lookup, spec_completion_text, spec_element, spec_member, spec_transcript_text,
};
use crate::files::upload_path_text;
use crate::prompts::{
    CASE_DETAILS_PREFIX, CASE_DETAILS_SUFFIX, CHAT_SYSTEM_PROMPT, CONVERSATION_PREFIX,
    CORRECTION_MODEL, CORRECTION_SYSTEM_PROMPT, FACTS_PREFIX, FOLLOW_UP_PROMPT,
    LEGAL_BASIS_LABEL, LEGAL_BASIS_SYSTEM_PROMPT, LETTER_MODEL, LETTER_VALUES_SYSTEM_PROMPT,
    PLEADING_INSTRUCTIONS, PLEADING_MODEL, conversation_history_text, pleading_completion_view,
};
use crate::reply::json_document;
use crate::request::{
    BEARER_PREFIX, COMPLETIONS_URL, ReplyReading, Sampling, TRANSCRIPTIONS_URL, TRANSCRIPTION_PROMPT,
    UPLOAD_FILE_NAME, UPLOAD_MIME_TYPE, WHISPER_MODEL, completion_body_text, json_escaped,
    json_string_literal, transcription_upload_view,
};

verus! {

/// The user message of a pleading holds the facts and the legal basis whole, each at a
/// fixed place between the fixed texts: nothing is cut, added or reordered.
pub proof fn law_pleading_prompt_keeps_facts_and_basis(
    facts: Seq<char>,
    legal_basis: Seq<char>,
    template: Seq<char>,
)
    ensures
        ({
            let user = pleading_completion_view(facts, legal_basis, template).2;
            let p = CASE_DETAILS_PREFIX@.len() as int;
            let f = facts.len() as int;
            let l = LEGAL_BASIS_LABEL@.len() as int;
            let b = legal_basis.len() as int;
            &&& user == CASE_DETAILS_PREFIX@ + facts + LEGAL_BASIS_LABEL@ + legal_basis
                + CASE_DETAILS_SUFFIX@
            &&& user.len() == p + f + l + b + CASE_DETAILS_SUFFIX@.len()
            &&& user.subrange(p, p + f) == facts
            &&& user.subrange(p + f + l, p + f + l + b) == legal_basis
        }),
        pleading_completion_view(facts, legal_basis, template).1 == PLEADING_INSTRUCTIONS@
            + template + "\n"@,
        pleading_completion_view(facts, legal_basis, template).0 == PLEADING_MODEL@,
        pleading_completion_view(facts, legal_basis, template).3 == Sampling::MaxTokens(2048),
{
    let user = pleading_completion_view(facts, legal_basis, template).2;
    let p = CASE_DETAILS_PREFIX@.len() as int;
    let f = facts.len() as int;
    let l = LEGAL_BASIS_LABEL@.len() as int;
    let b = legal_basis.len() as int;
    assert(user.subrange(p, p + f) =~= facts);
    assert(user.subrange(p + f + l, p + f + l + b) =~= legal_basis);
}

/// Every JSON post of every exchange goes to the chat-completion service, signed with
/// the key that the exchange holds; only the recording is uploaded elsewhere.
pub proof fn law_json_posts_go_to_completions(ex: Exchange, event: Event, next: Exchange, action: Action)
    requires
        ex.expects(event),
        step_relation(ex, event, next, action),
    ensures
        action matches Action::PostJson(request) ==> request.url@ == COMPLETIONS_URL@
            && request.authorization@ == BEARER_PREFIX@ + next.api_key@,
        !(action is PostAudio),
{
}

/// A transcription uploads the recording, with the Whisper model and its prompt, to the
/// transcription service, signed with the given key.
pub proof fn law_transcription_uploads_the_recording(api_key: Seq<char>, file_path: Seq<char>)
    ensures
        transcription_upload_view(api_key, file_path) == (
            TRANSCRIPTIONS_URL@,
            api_key,
            WHISPER_MODEL@,
            TRANSCRIPTION_PROMPT@,
            file_path,
            UPLOAD_FILE_NAME@,
            UPLOAD_MIME_TYPE@,
        ),
{
}

/// Once the key is known, the letter chat asks the chat-completion service for its next
/// questions: the chatbot's own system message, and the history followed by the
/// follow-up question.
pub proof fn law_chat_asks_for_next_questions(
    ex: Exchange,
    questions: Vec<String>,
    answers: Vec<String>,
    key: String,
    next: Exchange,
    action: Action,
)
    requires
        ex.task == (Task::ChatReply { questions, answers }),
        ex.expects(Event::KeyLookup(Ok(key))),
        step_relation(ex, Event::KeyLookup(Ok(key)), next, action),
    ensures
        next.phase == Phase::AwaitingCompletion,
        action matches Action::PostJson(request) && request.url@ == COMPLETIONS_URL@
            && request.authorization@ == BEARER_PREFIX@ + key@ && request.reading
            == ReplyReading::Json && request.body@ == completion_body_text(
            (
                LETTER_MODEL@,
                CHAT_SYSTEM_PROMPT@,
                CONVERSATION_PREFIX@ + conversation_history_text(questions@, answers@)
                    + FOLLOW_UP_PROMPT@,
                Sampling::MaxTokens(1024),
            ),
        ),
{
}

/// Once the key is known, the letter parts are asked for with their own system message
/// and the bare history, with no follow-up question.
pub proof fn law_letter_values_ask_for_the_parts(
    ex: Exchange,
    questions: Vec<String>,
    answers: Vec<String>,
    key: String,
    next: Exchange,
    action: Action,
)
    requires
        ex.task == (Task::LetterValues { questions, answers }),
        ex.expects(Event::KeyLookup(Ok(key))),
        step_relation(ex, Event::KeyLookup(Ok(key)), next, action),
    ensures
        next.phase == Phase::AwaitingCompletion,
        action matches Action::PostJson(request) && request.url@ == COMPLETIONS_URL@
            && request.authorization@ == BEARER_PREFIX@ + key@ && request.reading
            == ReplyReading::Json && request.body@ == completion_body_text(
            (
                LETTER_MODEL@,
                LETTER_VALUES_SYSTEM_PROMPT@,
                CONVERSATION_PREFIX@ + conversation_history_text(questions@, answers@),
                Sampling::MaxTokens(1024),
            ),
        ),
{
}

/// Once the key is known, the legal basis is asked for from the facts, whole, whether
/// it is the task itself or the first step of a pleading.
pub proof fn law_legal_basis_is_asked_from_the_facts(
    ex: Exchange,
    facts: String,
    key: String,
    next: Exchange,
    action: Action,
)
    requires
        ex.task == (Task::LegalBasis { facts }) || ex.task == (Task::PleadingFromFacts { facts }),
        ex.expects(Event::KeyLookup(Ok(key))),
        step_relation(ex, Event::KeyLookup(Ok(key)), next, action),
    ensures
        action matches Action::PostJson(request) && request.url@ == COMPLETIONS_URL@
            && request.authorization@ == BEARER_PREFIX@ + key@ && request.reading
            == ReplyReading::Json && request.body@ == completion_body_text(
            (
                PLEADING_MODEL@,
                LEGAL_BASIS_SYSTEM_PROMPT@,
                FACTS_PREFIX@ + facts@,
                Sampling::MaxTokens(1024),
            ),
        ),
{
}

/// Once the template is known, the pleading is asked for from the facts and the whole
/// legal basis (the given one, or the one that came back), in the layout of the template.
pub proof fn law_pleading_is_asked_from_facts_and_whole_basis(
    ex: Exchange,
    template: String,
    next: Exchange,
    action: Action,
)
    requires
        ex.expects(Event::TemplateLoaded(Ok(template))),
        step_relation(ex, Event::TemplateLoaded(Ok(template)), next, action),
    ensures
        next.phase == Phase::AwaitingCompletion,
        match ex.task {
            Task::PleadingContent { facts, legal_basis } => action matches Action::PostJson(
                request,
            ) && request.url@ == COMPLETIONS_URL@ && request.body@ == completion_body_text(
                (
                    PLEADING_MODEL@,
                    PLEADING_INSTRUCTIONS@ + template@ + "\n"@,
                    CASE_DETAILS_PREFIX@ + facts@ + LEGAL_BASIS_LABEL@ + legal_basis@
                        + CASE_DETAILS_SUFFIX@,
                    Sampling::MaxTokens(2048),
                ),
            ),
            Task::PleadingFromFacts { facts } => action matches Action::PostJson(request)
                && request.url@ == COMPLETIONS_URL@ && request.body@ == completion_body_text(
                (
                    PLEADING_MODEL@,
                    PLEADING_INSTRUCTIONS@ + template@ + "\n"@,
                    CASE_DETAILS_PREFIX@ + facts@ + LEGAL_BASIS_LABEL@ + ex.legal_basis@
                        + CASE_DETAILS_SUFFIX@,
                    Sampling::MaxTokens(2048),
                ),
            ),
            _ => false,
        },
{
}

/// The legal basis that comes back in a pleading from the facts is kept whole.
pub proof fn law_returned_basis_is_kept_whole(
    ex: Exchange,
    reply: JsonValue,
    next: Exchange,
    action: Action,
)
    requires
        ex.phase == Phase::AwaitingBasis,
        ex.expects(Event::Reply(Ok(reply))),
        step_relation(ex, Event::Reply(Ok(reply)), next, action),
        spec_completion_text(reply) is Some,
    ensures
        next.legal_basis@ == spec_completion_text(reply).unwrap(),
        action is LoadTemplate,
{
}

/// The legal basis, the pleading and the reworked transcript are the service's text
/// whole: whatever `choices[0].message.content` holds, without a cut, a trim or a check
/// of its length.
pub proof fn law_drafted_text_is_the_whole_content(
    ex: Exchange,
    reply: JsonValue,
    next: Exchange,
    action: Action,
)
    requires
        ex.phase == Phase::AwaitingCompletion,
        !(ex.task is ChatReply),
        !(ex.task is LetterValues),
        ex.expects(Event::Reply(Ok(reply))),
        step_relation(ex, Event::Reply(Ok(reply)), next, action),
        spec_completion_text(reply) is Some,
    ensures
        next.phase == Phase::Finished,
        action matches Action::Finish(Ok(Outcome::Text(t))) && t@ == spec_completion_text(
            reply,
        ).unwrap(),
{
}

/// A chat reply that is not empty is given back whole.
pub proof fn law_chat_reply_is_the_whole_content(
    ex: Exchange,
    reply: JsonValue,
    next: Exchange,
    action: Action,
)
    requires
        ex.task is ChatReply,
        ex.expects(Event::Reply(Ok(reply))),
        step_relation(ex, Event::Reply(Ok(reply)), next, action),
        spec_completion_text(reply) is Some,
        spec_completion_text(reply).unwrap().len() > 0,
    ensures
        action matches Action::Finish(Ok(Outcome::Text(t))) && t@ == spec_completion_text(
            reply,
        ).unwrap(),
{
}

/// The transcript is sent, whole, to the chat-completion service to be reworked, and
/// the answer to that request is read as text; the reworked text is the result, whole.
pub proof fn law_transcript_goes_to_the_chat_service(
    ex: Exchange,
    answer: String,
    reply: JsonValue,
    next: Exchange,
    action: Action,
    correction_answer: String,
    correction: JsonValue,
    last: Exchange,
    result: Action,
)
    requires
        ex.phase == Phase::AwaitingTranscript,
        ex.expects(Event::ReplyText(Ok(answer))),
        json_document(answer@) == Ok::<JsonValue, Seq<char>>(reply),
        step_relation(ex, Event::ReplyText(Ok(answer)), next, action),
        spec_transcript_text(reply) is Some,
        json_document(correction_answer@) == Ok::<JsonValue, Seq<char>>(correction),
        step_relation(next, Event::ReplyText(Ok(correction_answer)), last, result),
        spec_completion_text(correction) is Some,
    ensures
        action matches Action::PostJson(request) && request.url@ == COMPLETIONS_URL@
            && request.authorization@ == BEARER_PREFIX@ + ex.api_key@ && request.reading
            == ReplyReading::Text && request.body@ == completion_body_text(
            (
                CORRECTION_MODEL@,
                CORRECTION_SYSTEM_PROMPT@,
                spec_transcript_text(reply).unwrap(),
                Sampling::ZeroTemperature,
            ),
        ),
        result matches Action::Finish(Ok(Outcome::Text(t))) && t@ == spec_completion_text(
            correction,
        ).unwrap(),
{
}

/// A member is found by its name: the value of the last member of that name.
pub proof fn law_lookup_finds_the_last_member_of_its_name(
    entries: Seq<(String, JsonValue)>,
    key: Seq<char>,
    i: int,
)
    requires
        0 <= i < entries.len(),
        entries[i].0@ == key,
        forall|j: int| i < j < entries.len() ==> entries[j].0@ != key,
    ensures
        entry_lookup(entries, key) == Some(entries[i].1),
    decreases entries.len(),
{
    if i < entries.len() - 1 {
        assert(entries.last().0@ != key);
        law_lookup_finds_the_last_member_of_its_name(entries.drop_last(), key, i);
    }
}

/// A name that no member has finds nothing.
pub proof fn law_lookup_of_an_absent_name(entries: Seq<(String, JsonValue)>, key: Seq<char>)
    requires
        forall|j: int| 0 <= j < entries.len() ==> entries[j].0@ != key,
    ensures
        entry_lookup(entries, key) is None,
    decreases entries.len(),
{
    if entries.len() > 0 {
        assert(entries.last().0@ != key);
        law_lookup_of_an_absent_name(entries.drop_last(), key);
    }
}

/// An array gives its element at an index in range, and nothing past its end.
pub proof fn law_element_by_index(items: Vec<JsonValue>, index: int)
    ensures
        0 <= index < items@.len() ==> spec_element(JsonValue::Array(items), index) == Some(
            items@[index],
        ),
        index >= items@.len() ==> spec_element(JsonValue::Array(items), index) is None,
{
}

/// The text of a completion is the string at `choices`, first element, `message`,
/// `content`, and nothing when the answer has no `choices`.
pub proof fn law_completion_text_follows_its_path(
    reply: JsonValue,
    choices: JsonValue,
    first: JsonValue,
    message: JsonValue,
    content: String,
)
    ensures
        spec_member(reply, "choices"@) == Some(choices) && spec_element(choices, 0) == Some(first)
            && spec_member(first, "message"@) == Some(message) && spec_member(message, "content"@)
            == Some(JsonValue::Str(content)) ==> spec_completion_text(reply) == Some(content@),
        spec_member(reply, "choices"@) is None ==> spec_completion_text(reply) is None,
{
}

/// The text of a transcription is the string at `text`.
pub proof fn law_transcript_text_is_the_text_member(reply: JsonValue, text: String)
    ensures
        spec_member(reply, "text"@) == Some(JsonValue::Str(text)) ==> spec_transcript_text(reply)
            == Some(text@),
        spec_member(reply, "text"@) is None ==> spec_transcript_text(reply) is None,
{
}

/// Text without quotes, backslashes or control characters is quoted as it is.
pub proof fn law_plain_text_is_quoted_as_it_is(text: Seq<char>)
    requires
        forall|i: int|
            0 <= i < text.len() ==> (text[i] as int) >= 32 && text[i] != '"' && text[i] != '\\',
    ensures
        json_escaped(text) == text,
        json_string_literal(text) == seq!['"'] + text + seq!['"'],
    decreases text.len(),
{
    if text.len() > 0 {
        let last = text.last();
        assert(text[text.len() - 1] == last);
        law_plain_text_is_quoted_as_it_is(text.drop_last());
        assert(text.drop_last() + seq![last] =~= text);
    }
}

/// Escaping never drops a character: the escaped text is at least as long.
pub proof fn law_escaping_keeps_every_character(text: Seq<char>)
    ensures
        json_escaped(text).len() >= text.len(),
        json_string_literal(text).len() >= text.len() + 2,
    decreases text.len(),
{
    if text.len() > 0 {
        law_escaping_keeps_every_character(text.drop_last());
    }
}

/// An uploaded recording is kept under `/tmp/` by its own name, or as `/tmp/audio.mp3`.
pub proof fn law_upload_paths(name: Seq<char>)
    ensures
        upload_path_text(Some(name)) == "/tmp/"@ + name,
        upload_path_text(None) == "/tmp/audio.mp3"@,
{
    reveal_strlit("/tmp/");
    reveal_strlit("audio.mp3");
    reveal_strlit("/tmp/audio.mp3");
    assert(upload_path_text(None) =~= "/tmp/audio.mp3"@);
}

} // verus!
