use auto_drafter::error::DraftError;
use auto_drafter::exchange::{Action, Event, Exchange, Outcome, Phase, Task};
use auto_drafter::files::{upload_path, OcrFailure};
use auto_drafter::json::JsonValue;
use auto_drafter::models::{FormDetails, QuestionAnswer};
use auto_drafter::prompts::{
    chat_completion, conversation_history, correction_completion, legal_basis_completion,
    letter_values_completion, pleading_completion, CHAT_SYSTEM_PROMPT, LEGAL_BASIS_SYSTEM_PROMPT,
    LETTER_VALUES_SYSTEM_PROMPT,
};
use auto_drafter::reply::{
    completion_text, decode_answer, decoded_answer, letter_values, letter_values_from, transcript_text,
};
use auto_drafter::request::{
    completion_post, decimal, json_quoted, transcription_upload, ReplyReading, Sampling,
};

fn strings(items: &[&str]) -> Vec<String> {
    items.iter().map(|s| s.to_string()).collect()
}

fn object(members: Vec<(&str, JsonValue)>) -> JsonValue {
    JsonValue::Object(members.into_iter().map(|(k, v)| (k.to_string(), v)).collect())
}

fn completion_reply(content: JsonValue) -> JsonValue {
    object(vec![
        ("id", JsonValue::Str("chatcmpl-1".to_string())),
        (
            "choices",
            JsonValue::Array(vec![object(vec![
                ("index", JsonValue::Number("0".to_string())),
                ("message", object(vec![
                    ("role", JsonValue::Str("assistant".to_string())),
                    ("content", content),
                ])),
            ])]),
        ),
    ])
}

const OPENING: &str =
    "Hi there! Let's work on creating a letter. Could you provide me details on this letter?";
const FIRST_ANSWER: &str = "I want to make a demand letter about Stephen Lewis.";

#[test]
fn history_of_one_pair() {
    let h = conversation_history(&strings(&[OPENING]), &strings(&[FIRST_ANSWER]));
    assert_eq!(h, format!("Q: {}\nA: {}", OPENING, FIRST_ANSWER));
}

#[test]
fn history_joins_pairs_with_backslash_n() {
    let h = conversation_history(&strings(&["a?", "b?"]), &strings(&["x", "y"]));
    assert_eq!(h, "Q: a?\nA: x\\nQ: b?\nA: y");
}

#[test]
fn history_leaves_out_unpaired_entries() {
    let h = conversation_history(&strings(&["a?", "b?", "c?"]), &strings(&["x"]));
    assert_eq!(h, "Q: a?\nA: x");
    let h = conversation_history(&strings(&["a?"]), &strings(&["x", "y"]));
    assert_eq!(h, "Q: a?\nA: x");
}

#[test]
fn history_of_no_pairs_is_empty() {
    assert_eq!(conversation_history(&vec![], &strings(&["x"])), "");
    assert_eq!(conversation_history(&vec![], &vec![]), "");
}

#[test]
fn chat_prompt_asks_a_follow_up() {
    let r = chat_completion(&strings(&["a?"]), &strings(&["x"]));
    assert_eq!(r.model, "gpt-4o-mini");
    assert_eq!(r.system, CHAT_SYSTEM_PROMPT);
    assert_eq!(r.user, "Conversation history so far:\nQ: a?\nA: x\\nIs there anything else you'd like to add?");
    assert_eq!(r.sampling, Sampling::MaxTokens(1024));
}

#[test]
fn letter_values_prompt_has_the_history_only() {
    let r = letter_values_completion(&strings(&["a?"]), &strings(&["x"]));
    assert_eq!(r.model, "gpt-4o-mini");
    assert_eq!(r.user, "Conversation history so far:\nQ: a?\nA: x");
    assert!(LETTER_VALUES_SYSTEM_PROMPT.starts_with("Your task is to generate values for the different parts of a formal letter"));
    assert!(LETTER_VALUES_SYSTEM_PROMPT.contains("\n\n            1. **Date of the Letter**"));
    assert!(LETTER_VALUES_SYSTEM_PROMPT.contains("Never use '\\n if you will add a new line'."));
    assert!(LETTER_VALUES_SYSTEM_PROMPT.ends_with("'```json ```' when you return a value."));
    assert_eq!(r.system, LETTER_VALUES_SYSTEM_PROMPT);
}

#[test]
fn chat_prompt_is_letter_prompt_and_follow_up() {
    let qs = strings(&[OPENING, "Who signs?"]);
    let answers = strings(&[FIRST_ANSWER, "Atty. Jerico D. Salenga"]);
    let chat = chat_completion(&qs, &answers);
    let letter = letter_values_completion(&qs, &answers);
    assert_eq!(chat.user, format!("{}\\nIs there anything else you'd like to add?", letter.user));
}

#[test]
fn legal_basis_prompt() {
    let r = legal_basis_completion("The facts.");
    assert_eq!(r.model, "gpt-4");
    assert_eq!(r.system, LEGAL_BASIS_SYSTEM_PROMPT);
    assert_eq!(r.user, "Generate the legal arguments according to the following facts: \nThe facts.");
    assert_eq!(r.sampling, Sampling::MaxTokens(1024));
}

#[test]
fn pleading_prompt() {
    let r = pleading_completion("F", "L", "<p>T</p>");
    assert_eq!(r.model, "gpt-4");
    assert!(r.system.starts_with("Your task is to create a pleading."));
    assert!(r.system.ends_with("replicate the alignment in this template: <p>T</p>\n"));
    assert_eq!(
        r.user,
        "Here are details presented in the case:\n\n            Facts:F\n\n            Legal Basis: L\n\n\n            "
    );
    assert_eq!(r.sampling, Sampling::MaxTokens(2048));
}

#[test]
fn decimal_text_of_numbers() {
    assert_eq!(decimal(0), "0");
    assert_eq!(decimal(7), "7");
    assert_eq!(decimal(1024), "1024");
    assert_eq!(decimal(2048), "2048");
    assert_eq!(decimal(u32::MAX), "4294967295");
}

#[test]
fn quoting_escapes() {
    assert_eq!(json_quoted("plain"), "\"plain\"");
    assert_eq!(json_quoted("a \"b\"\nc\\d\t"), "\"a \\\"b\\\"\\nc\\\\d\\t\"");
    assert_eq!(json_quoted("\u{1}é"), "\"\\u0001é\"");
    assert_eq!(json_quoted("\u{8}\u{c}\r\u{1f}\u{7f}/"), "\"\\b\\f\\r\\u001f\u{7f}/\"");
    assert_eq!(json_quoted(""), "\"\"");
}

#[test]
fn correction_body_is_exact() {
    let r = correction_completion("line one\nline\ttwo \"x\"");
    assert_eq!(
        r.body(),
        "{\"messages\":[{\"content\":\"Turn it into a pleading format\",\"role\":\"system\"},{\"content\":\"line one\\nline\\ttwo \\\"x\\\"\",\"role\":\"user\"}],\"model\":\"gpt-4o\",\"temperature\":0.0}"
    );
}

#[test]
fn chat_body_is_exact() {
    let r = chat_completion(&strings(&["Hi there!"]), &strings(&["A \"demand\" letter"]));
    let expected = format!(
        "{{\"max_tokens\":1024,\"messages\":[{{\"content\":{},\"role\":\"system\"}},{{\"content\":{},\"role\":\"user\"}}],\"model\":\"gpt-4o-mini\"}}",
        serde_json::to_string(CHAT_SYSTEM_PROMPT).unwrap(),
        "\"Conversation history so far:\\nQ: Hi there!\\nA: A \\\"demand\\\" letter\\\\nIs there anything else you'd like to add?\""
    );
    assert_eq!(r.body(), expected);
    let parsed: serde_json::Value = serde_json::from_str(&r.body()).unwrap();
    assert_eq!(parsed["messages"][1]["content"].as_str().unwrap(), r.user);
    assert_eq!(parsed["max_tokens"].as_u64(), Some(1024));
}

#[test]
fn completion_post_is_signed() {
    let r = completion_post("sk-test", &legal_basis_completion("F"), ReplyReading::Json);
    assert_eq!(r.url, "https://api.openai.com/v1/chat/completions");
    assert_eq!(r.authorization, "Bearer sk-test");
    assert_eq!(r.body, legal_basis_completion("F").body());
    assert_eq!(r.reading, ReplyReading::Json);
}

#[test]
fn transcription_upload_parts() {
    let u = transcription_upload("sk-test", "/tmp/rec.mp3");
    assert_eq!(u.url, "https://api.openai.com/v1/audio/transcriptions");
    assert_eq!(u.api_key, "sk-test");
    assert_eq!(u.model, "whisper-1");
    assert_eq!(u.prompt, "Transcribe and format it into a pleading");
    assert_eq!(u.file_path, "/tmp/rec.mp3");
    assert_eq!(u.file_name, "audio.mp3");
    assert_eq!(u.mime_type, "audio/mpeg");
}

#[test]
fn completion_text_reads_first_choice() {
    let reply = completion_reply(JsonValue::Str("Dear Sir".to_string()));
    assert_eq!(completion_text(&reply), Some("Dear Sir".to_string()));
}

#[test]
fn completion_text_needs_a_string() {
    assert_eq!(completion_text(&completion_reply(JsonValue::Null)), None);
    assert_eq!(completion_text(&completion_reply(JsonValue::Number("3".to_string()))), None);
    assert_eq!(completion_text(&object(vec![("choices", JsonValue::Array(vec![]))])), None);
    assert_eq!(completion_text(&object(vec![("error", JsonValue::Str("bad key".to_string()))])), None);
    assert_eq!(completion_text(&JsonValue::Array(vec![])), None);
}

#[test]
fn transcript_text_reads_text() {
    let reply = object(vec![("text", JsonValue::Str("spoken words".to_string()))]);
    assert_eq!(transcript_text(&reply), Some("spoken words".to_string()));
    assert_eq!(transcript_text(&object(vec![("text", JsonValue::Bool(true))])), None);
    assert_eq!(transcript_text(&JsonValue::Null), None);
}

#[test]
fn letter_values_parse_an_array() {
    let v = letter_values("[\"[Date of letter]\", \"Stephen Lewis\", \"a\\nb\"]").unwrap();
    assert_eq!(v, strings(&["[Date of letter]", "Stephen Lewis", "a\nb"]));
}

#[test]
fn letter_values_reject_other_text() {
    match letter_values("```json [\"a\"] ```") {
        Err(DraftError::Upstream(message)) => assert_eq!(
            message,
            serde_json::from_str::<Vec<String>>("```json [\"a\"] ```").unwrap_err().to_string()
        ),
        other => panic!("unexpected {:?}", other),
    }
    assert_eq!(letter_values("[]"), Err(DraftError::NoValidResponse));
    assert!(matches!(letter_values("[1, 2]"), Err(DraftError::Upstream(_))));
    assert!(matches!(letter_values("{\"a\": \"b\"}"), Err(DraftError::Upstream(_))));
}

#[test]
fn error_messages() {
    assert_eq!(
        DraftError::MissingApiKey("environment variable not found".to_string()).message(),
        "Missing OPENAI_API_KEY: environment variable not found"
    );
    assert_eq!(DraftError::NoValidResponse.message(), "No valid response generated.");
    assert_eq!(DraftError::TranscriptionFailed.message(), "Failed to transcribe audio");
    assert_eq!(DraftError::CorrectionFailed.message(), "Failed to correct transcription");
    assert_eq!(DraftError::Upstream("timed out".to_string()).message(), "timed out");
}

fn chat_task() -> Task {
    Task::ChatReply { questions: strings(&[OPENING]), answers: strings(&[FIRST_ANSWER]) }
}

#[test]
fn chat_exchange_runs_to_the_reply() {
    let (ex, action) = Exchange::begin(chat_task());
    assert!(matches!(action, Action::LoadApiKey));
    assert_eq!(ex.phase, Phase::AwaitingKey);
    let event = Event::KeyLookup(Ok("sk-1".to_string()));
    assert!(ex.expects_event(&event));
    let (ex, action) = ex.step(event);
    assert_eq!(ex.phase, Phase::AwaitingCompletion);
    match &action {
        Action::PostJson(r) => {
            assert_eq!(r.authorization, "Bearer sk-1");
            let parsed: serde_json::Value = serde_json::from_str(&r.body).unwrap();
            assert_eq!(
                parsed["messages"][1]["content"].as_str().unwrap(),
                format!("Conversation history so far:\nQ: {}\nA: {}\\nIs there anything else you'd like to add?", OPENING, FIRST_ANSWER)
            );
            assert_eq!(parsed["model"].as_str(), Some("gpt-4o-mini"));
        }
        other => panic!("unexpected {:?}", other),
    }
    let (ex, action) = ex.step(Event::Reply(Ok(completion_reply(JsonValue::Str("Who is the recipient?".to_string())))));
    assert_eq!(ex.phase, Phase::Finished);
    match action {
        Action::Finish(Ok(Outcome::Text(t))) => assert_eq!(t, "Who is the recipient?"),
        other => panic!("unexpected {:?}", other),
    }
    assert!(!ex.expects_event(&Event::Reply(Err("late".to_string()))));
    assert!(!ex.expects_event(&Event::KeyLookup(Ok("k".to_string()))));
}

#[test]
fn missing_key_ends_the_exchange() {
    let (ex, _) = Exchange::begin(Task::LegalBasis { facts: "F".to_string() });
    assert!(!ex.expects_event(&Event::Reply(Err("x".to_string()))));
    let (ex, action) = ex.step(Event::KeyLookup(Err("environment variable not found".to_string())));
    assert_eq!(ex.phase, Phase::Finished);
    match action {
        Action::Finish(Err(e)) => assert_eq!(e.message(), "Missing OPENAI_API_KEY: environment variable not found"),
        other => panic!("unexpected {:?}", other),
    }
}

#[test]
fn failed_request_is_reported() {
    let (ex, _) = Exchange::begin(chat_task());
    let (ex, _) = ex.step(Event::KeyLookup(Ok("k".to_string())));
    let (ex, action) = ex.step(Event::Reply(Err("error sending request".to_string())));
    assert_eq!(ex.phase, Phase::Finished);
    assert_eq!(format!("{:?}", action), format!("{:?}", Action::Finish(Err(DraftError::Upstream("error sending request".to_string())))));
}

#[test]
fn reply_without_content_is_no_valid_response() {
    let (ex, _) = Exchange::begin(Task::LegalBasis { facts: "F".to_string() });
    let (ex, _) = ex.step(Event::KeyLookup(Ok("k".to_string())));
    let (_, action) = ex.step(Event::Reply(Ok(object(vec![("choices", JsonValue::Array(vec![]))]))));
    assert!(matches!(action, Action::Finish(Err(DraftError::NoValidResponse))));
}

#[test]
fn letter_values_exchange_gives_the_list() {
    let task = Task::LetterValues { questions: strings(&[OPENING]), answers: strings(&[FIRST_ANSWER]) };
    let (ex, _) = Exchange::begin(task);
    let (ex, _) = ex.step(Event::KeyLookup(Ok("k".to_string())));
    let content = "[\"[Date of letter]\",\"Stephen Lewis\",\"[Recipient details]\",\"Demand Letter\",\"Atty. Jerico D. Salenga\",\"Conforme not needed\",\"Pay.\"]";
    let (_, action) = ex.step(Event::Reply(Ok(completion_reply(JsonValue::Str(content.to_string())))));
    match action {
        Action::Finish(Ok(Outcome::Values(v))) => {
            assert_eq!(v.len(), 7);
            assert_eq!(v[1], "Stephen Lewis");
        }
        other => panic!("unexpected {:?}", other),
    }
    let (ex, _) = Exchange::begin(Task::LetterValues { questions: vec![], answers: vec![] });
    let (ex, _) = ex.step(Event::KeyLookup(Ok("k".to_string())));
    let (_, action) = ex.step(Event::Reply(Ok(completion_reply(JsonValue::Str("Sorry.".to_string())))));
    assert!(matches!(action, Action::Finish(Err(DraftError::Upstream(_)))));
}

#[test]
fn transcription_exchange_corrects_the_transcript() {
    let (ex, action) = Exchange::begin_transcription("sk-2".to_string(), "/tmp/audio.mp3".to_string());
    assert_eq!(ex.phase, Phase::AwaitingTranscript);
    match &action {
        Action::PostAudio(u) => {
            assert_eq!(u.file_path, "/tmp/audio.mp3");
            assert_eq!(u.api_key, "sk-2");
        }
        other => panic!("unexpected {:?}", other),
    }
    assert!(!ex.expects_event(&Event::KeyLookup(Ok("k".to_string()))));
    let (ex, action) = ex.step(Event::ReplyText(Ok("{\"text\": \"I was harassed.\"}".to_string())));
    assert_eq!(ex.phase, Phase::AwaitingCorrection);
    match &action {
        Action::PostJson(r) => {
            assert_eq!(r.authorization, "Bearer sk-2");
            assert_eq!(r.body, correction_completion("I was harassed.").body());
            assert_eq!(r.reading, ReplyReading::Text);
        }
        other => panic!("unexpected {:?}", other),
    }
    let (ex, action) = ex.step(Event::ReplyText(Ok(
        "{\"choices\":[{\"index\":0,\"message\":{\"role\":\"assistant\",\"content\":\"COMPLAINT\"}}]}".to_string(),
    )));
    assert_eq!(ex.phase, Phase::Finished);
    assert!(matches!(action, Action::Finish(Ok(Outcome::Text(ref t))) if t == "COMPLAINT"));
}

#[test]
fn transcription_failures() {
    let (ex, _) = Exchange::begin_transcription("k".to_string(), "/tmp/a.mp3".to_string());
    let (_, action) = ex.step(Event::ReplyText(Ok("{\"error\": null}".to_string())));
    assert!(matches!(action, Action::Finish(Err(DraftError::TranscriptionFailed))));
    let (ex, _) = Exchange::begin_transcription("k".to_string(), "/tmp/a.mp3".to_string());
    let (ex, _) = ex.step(Event::ReplyText(Ok("{\"text\":\"t\"}".to_string())));
    let (_, action) = ex.step(Event::ReplyText(Ok("null".to_string())));
    assert!(matches!(action, Action::Finish(Err(DraftError::CorrectionFailed))));
}

#[test]
fn upload_paths() {
    assert_eq!(upload_path(Some("memo.mp3")), "/tmp/memo.mp3");
    assert_eq!(upload_path(None), "/tmp/audio.mp3");
}

#[test]
fn ocr_failure_messages() {
    assert_eq!(OcrFailure::EngineSetup.message(), "Failed to create Tesseract instance");
    assert_eq!(OcrFailure::PathNotText.message(), "Failed to convert image path to string.");
    assert_eq!(OcrFailure::ImageRejected.message(), "Failed to set image");
    assert_eq!(OcrFailure::TextUnavailable.message(), "Failed to get text");
}

#[test]
fn models_hold_the_form() {
    let qa = QuestionAnswer { questions: strings(&["q"]), answers: strings(&["a"]) };
    assert_eq!(qa.questions.len(), qa.answers.len());
    let form = FormDetails {
        date: "October 24, 2024".to_string(),
        opponent: "Stephen Lewis".to_string(),
        opponent_details: "San Nicolas, Pasig".to_string(),
        legal_concern: "Workplace Harassment".to_string(),
        sender: "Atty. Jerico D. Salenga".to_string(),
        client: "Nica Rebadmoia".to_string(),
        client_details: "Mandaluyong".to_string(),
        amount_involved: "20000".to_string(),
        concern: "Harassment at work.".to_string(),
    };
    assert_eq!(form.amount_involved, "20000");
}

#[test]
fn empty_chat_reply_is_no_valid_response() {
    let (ex, _) = Exchange::begin(chat_task());
    let (ex, _) = ex.step(Event::KeyLookup(Ok("k".to_string())));
    let (ex, action) = ex.step(Event::Reply(Ok(completion_reply(JsonValue::Str(String::new())))));
    assert_eq!(ex.phase, Phase::Finished);
    assert!(matches!(action, Action::Finish(Err(DraftError::NoValidResponse))));
}

#[test]
fn empty_letter_parts_are_no_valid_response() {
    let (ex, _) = Exchange::begin(Task::LetterValues { questions: strings(&[OPENING]), answers: strings(&[FIRST_ANSWER]) });
    let (ex, _) = ex.step(Event::KeyLookup(Ok("k".to_string())));
    let (_, action) = ex.step(Event::Reply(Ok(completion_reply(JsonValue::Str("[]".to_string())))));
    assert!(matches!(action, Action::Finish(Err(DraftError::NoValidResponse))));
}

#[test]
fn empty_legal_basis_text_is_kept() {
    let (ex, _) = Exchange::begin(Task::LegalBasis { facts: "F".to_string() });
    let (ex, _) = ex.step(Event::KeyLookup(Ok("k".to_string())));
    let (_, action) = ex.step(Event::Reply(Ok(completion_reply(JsonValue::Str(String::new())))));
    assert!(matches!(action, Action::Finish(Ok(Outcome::Text(ref t))) if t.is_empty()));
}

fn pleading_task() -> Task {
    Task::PleadingContent { facts: "F".to_string(), legal_basis: "L".to_string() }
}

#[test]
fn pleading_reads_the_template_after_the_key() {
    let (ex, action) = Exchange::begin(pleading_task());
    assert!(matches!(action, Action::LoadApiKey));
    let (ex, action) = ex.step(Event::KeyLookup(Ok("sk-3".to_string())));
    assert!(matches!(action, Action::LoadTemplate));
    assert_eq!(ex.phase, Phase::AwaitingTemplate);
    let (ex, action) = ex.step(Event::TemplateLoaded(Ok("<p>T</p>".to_string())));
    match &action {
        Action::PostJson(r) => {
            assert_eq!(r.authorization, "Bearer sk-3");
            assert_eq!(r.body, pleading_completion("F", "L", "<p>T</p>").body());
        }
        other => panic!("unexpected {:?}", other),
    }
    let (_, action) = ex.step(Event::Reply(Ok(completion_reply(JsonValue::Str("<h1>COMPLAINT</h1>".to_string())))));
    assert!(matches!(action, Action::Finish(Ok(Outcome::Text(ref t))) if t == "<h1>COMPLAINT</h1>"));
}

#[test]
fn pleading_without_key_never_reads_the_template() {
    let (ex, _) = Exchange::begin(pleading_task());
    let (ex, action) = ex.step(Event::KeyLookup(Err("environment variable not found".to_string())));
    assert_eq!(ex.phase, Phase::Finished);
    match action {
        Action::Finish(Err(e)) => assert_eq!(e.message(), "Missing OPENAI_API_KEY: environment variable not found"),
        other => panic!("unexpected {:?}", other),
    }
}

#[test]
fn missing_template_is_reported() {
    let (ex, _) = Exchange::begin(pleading_task());
    let (ex, _) = ex.step(Event::KeyLookup(Ok("k".to_string())));
    let (_, action) = ex.step(Event::TemplateLoaded(Err("No such file or directory (os error 2)".to_string())));
    match action {
        Action::Finish(Err(e)) => assert_eq!(e.message(), "No such file or directory (os error 2)"),
        other => panic!("unexpected {:?}", other),
    }
}

#[test]
fn pleading_from_facts_runs_both_steps() {
    let (ex, _) = Exchange::begin(Task::PleadingFromFacts { facts: "F".to_string() });
    let (ex, action) = ex.step(Event::KeyLookup(Ok("k".to_string())));
    assert_eq!(ex.phase, Phase::AwaitingBasis);
    match &action {
        Action::PostJson(r) => assert_eq!(r.body, legal_basis_completion("F").body()),
        other => panic!("unexpected {:?}", other),
    }
    let (ex, action) = ex.step(Event::Reply(Ok(completion_reply(JsonValue::Str("LEGAL ARGUMENT".to_string())))));
    assert!(matches!(action, Action::LoadTemplate));
    assert_eq!(ex.legal_basis, "LEGAL ARGUMENT");
    let (ex, action) = ex.step(Event::TemplateLoaded(Ok("<p>T</p>".to_string())));
    match &action {
        Action::PostJson(r) => assert_eq!(r.body, pleading_completion("F", "LEGAL ARGUMENT", "<p>T</p>").body()),
        other => panic!("unexpected {:?}", other),
    }
    let (_, action) = ex.step(Event::Reply(Ok(completion_reply(JsonValue::Str("PLEADING".to_string())))));
    assert!(matches!(action, Action::Finish(Ok(Outcome::Text(ref t))) if t == "PLEADING"));
}

#[test]
fn pleading_from_facts_marks_the_failing_step() {
    let (ex, _) = Exchange::begin(Task::PleadingFromFacts { facts: "F".to_string() });
    let (_, action) = ex.step(Event::KeyLookup(Err("environment variable not found".to_string())));
    match action {
        Action::Finish(Err(e)) => assert_eq!(e.message(), "Error: Missing OPENAI_API_KEY: environment variable not found"),
        other => panic!("unexpected {:?}", other),
    }
    let (ex, _) = Exchange::begin(Task::PleadingFromFacts { facts: "F".to_string() });
    let (ex, _) = ex.step(Event::KeyLookup(Ok("k".to_string())));
    let (_, action) = ex.step(Event::Reply(Ok(JsonValue::Null)));
    match action {
        Action::Finish(Err(e)) => assert_eq!(e.message(), "Error: No valid response generated."),
        other => panic!("unexpected {:?}", other),
    }
    let (ex, _) = Exchange::begin(Task::PleadingFromFacts { facts: "F".to_string() });
    let (ex, _) = ex.step(Event::KeyLookup(Ok("k".to_string())));
    let (ex, _) = ex.step(Event::Reply(Ok(completion_reply(JsonValue::Str("B".to_string())))));
    let (ex, _) = ex.step(Event::TemplateLoaded(Ok("T".to_string())));
    let (_, action) = ex.step(Event::Reply(Err("error sending request".to_string())));
    match action {
        Action::Finish(Err(e)) => assert_eq!(e.message(), "Error:: error sending request"),
        other => panic!("unexpected {:?}", other),
    }
}

#[test]
fn undecodable_transcription_answer_is_reported() {
    let (ex, _) = Exchange::begin_transcription("k".to_string(), "/tmp/a.mp3".to_string());
    assert!(!ex.expects_event(&Event::Reply(Ok(JsonValue::Null))));
    let (ex, action) = ex.step(Event::ReplyText(Ok("Internal Server Error".to_string())));
    assert_eq!(ex.phase, Phase::Finished);
    let expected = serde_json::from_str::<serde_json::Value>("Internal Server Error").unwrap_err().to_string();
    match action {
        Action::Finish(Err(DraftError::Upstream(m))) => assert_eq!(m, expected),
        other => panic!("unexpected {:?}", other),
    }
    let (ex, _) = Exchange::begin_transcription("k".to_string(), "/tmp/a.mp3".to_string());
    let (_, action) = ex.step(Event::ReplyText(Err("error sending request".to_string())));
    assert!(matches!(action, Action::Finish(Err(DraftError::Upstream(ref m))) if m == "error sending request"));
}

#[test]
fn decode_answer_reads_a_document() {
    let document = decode_answer("{\"text\": \"hi\", \"n\": 12, \"ok\": true, \"list\": [null, 1.5]}").unwrap();
    assert_eq!(transcript_text(&document), Some("hi".to_string()));
    assert_eq!(
        document,
        object(vec![
            ("list", JsonValue::Array(vec![JsonValue::Null, JsonValue::Number("1.5".to_string())])),
            ("n", JsonValue::Number("12".to_string())),
            ("ok", JsonValue::Bool(true)),
            ("text", JsonValue::Str("hi".to_string())),
        ])
    );
    assert_eq!(
        decode_answer("{\"text\": \"a\", \"text\": \"b\"}").map(|d| transcript_text(&d)),
        Ok(Some("b".to_string()))
    );
    assert!(matches!(decode_answer(""), Err(DraftError::Upstream(_))));
}

#[test]
fn decoded_answer_maps_failures() {
    assert_eq!(decoded_answer(Ok(JsonValue::Null)), Ok(JsonValue::Null));
    assert_eq!(decoded_answer(Err("EOF".to_string())), Err(DraftError::Upstream("EOF".to_string())));
}

#[test]
fn letter_values_from_decoded_lists() {
    assert_eq!(letter_values_from(Ok(strings(&["a"]))), Ok(strings(&["a"])));
    assert_eq!(letter_values_from(Ok(vec![])), Err(DraftError::NoValidResponse));
    assert_eq!(letter_values_from(Err("bad".to_string())), Err(DraftError::Upstream("bad".to_string())));
}

#[test]
fn repeated_member_name_keeps_the_last() {
    let reply = object(vec![("text", JsonValue::Str("first".to_string())), ("text", JsonValue::Str("last".to_string()))]);
    assert_eq!(transcript_text(&reply), Some("last".to_string()));
}
