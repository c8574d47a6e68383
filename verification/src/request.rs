use vstd::prelude::*;
use vstd::string::*;
use crate::text::{concat2, owned};

verus! {

#[verifier::external_type_specification]
#[verifier::external_body]
pub struct ExJsonError(serde_json::Error);

/// A lower-case hexadecimal digit.
pub open spec fn hex_digit(d: int) -> char {
    if d < 10 {
        (48 + d) as char
    } else {
        (87 + d) as char
    }
}

/// How `serde_json` writes one character inside a string: a quote and a backslash
/// behind a backslash, five control characters by their short escapes, the other
/// characters below U+0020 as `\u00` and two lower-case hex digits, the rest as it is.
pub open spec fn json_escape_char(c: char) -> Seq<char> {
    if c == '"' {
        seq!['\\', '"']
    } else if c == '\\' {
        seq!['\\', '\\']
    } else if c == '\u{8}' {
        seq!['\\', 'b']
    } else if c == '\t' {
        seq!['\\', 't']
    } else if c == '\n' {
        seq!['\\', 'n']
    } else if c == '\u{c}' {
        seq!['\\', 'f']
    } else if c == '\r' {
        seq!['\\', 'r']
    } else if (c as int) < 32 {
        seq!['\\', 'u', '0', '0', hex_digit(c as int / 16), hex_digit(c as int % 16)]
    } else {
        seq![c]
    }
}

/// The characters of a string, each written as `json_escape_char` writes it.
pub open spec fn json_escaped(text: Seq<char>) -> Seq<char>
    decreases text.len(),
{
    if text.len() == 0 {
        Seq::empty()
    } else {
        json_escaped(text.drop_last()) + json_escape_char(text.last())
    }
}

/// The JSON text of a string value as `serde_json` writes it: the escaped characters
/// between double quotes.
pub open spec fn json_string_literal(text: Seq<char>) -> Seq<char> {
    seq!['"'] + json_escaped(text) + seq!['"']
}

/// Calls `serde_json::to_string` on a `str`. The contract claims that it succeeds (on
/// this path it only writes into a `Vec`, which never fails) and that the text is the
/// string quoted and escaped as `json_string_literal` states, which follows the
/// escape table of `serde_json`'s serializer.
#[verifier::external_body]
fn serialize_str(text: &str) -> (res: Result<String, serde_json::Error>)
    ensures
        res is Ok,
        res matches Ok(quoted) ==> quoted@ == json_string_literal(text@),
{
    serde_json::to_string(text)
}

/// `text` as a JSON string literal.
pub fn json_quoted(text: &str) -> (res: String)
    ensures
        res@ == json_string_literal(text@),
{
    match serialize_str(text) {
        Ok(quoted) => quoted,
        Err(_) => {
            proof {
                assert(false);
            }
            String::new()
        },
    }
}

/// The decimal text of one digit.
pub open spec fn decimal_digit(d: nat) -> Seq<char> {
    if d == 0 {
        "0"@
    } else if d == 1 {
        "1"@
    } else if d == 2 {
        "2"@
    } else if d == 3 {
        "3"@
    } else if d == 4 {
        "4"@
    } else if d == 5 {
        "5"@
    } else if d == 6 {
        "6"@
    } else if d == 7 {
        "7"@
    } else if d == 8 {
        "8"@
    } else {
        "9"@
    }
}

/// The decimal text of a natural number, most significant digit first, without leading zeros.
pub open spec fn decimal_text(n: nat) -> Seq<char>
    decreases n,
{
    if n < 10 {
        decimal_digit(n)
    } else {
        decimal_text(n / 10) + decimal_digit(n % 10)
    }
}

fn digit_text(d: u32) -> (res: &'static str)
    requires
        d < 10,
    ensures
        res@ == decimal_digit(d as nat),
{
    if d == 0 {
        "0"
    } else if d == 1 {
        "1"
    } else if d == 2 {
        "2"
    } else if d == 3 {
        "3"
    } else if d == 4 {
        "4"
    } else if d == 5 {
        "5"
    } else if d == 6 {
        "6"
    } else if d == 7 {
        "7"
    } else if d == 8 {
        "8"
    } else {
        "9"
    }
}

/// The decimal text of `n`, as JSON writes an integer.
pub fn decimal(n: u32) -> (res: String)
    ensures
        res@ == decimal_text(n as nat),
    decreases n,
{
    if n < 10 {
        owned(digit_text(n))
    } else {
        let mut res = decimal(n / 10);
        res.append(digit_text(n % 10));
        res
    }
}

/// How a completion is bounded or tuned.
#[derive(Clone, Copy, Debug, PartialEq, Eq, Structural)]
pub enum Sampling {
    /// At most this many tokens in the answer.
    MaxTokens(u32),
    /// A temperature of zero, for the least varied answer.
    ZeroTemperature,
}

/// A chat completion: the model, what the system says and what the user says.
#[derive(Debug)]
pub struct CompletionRequest {
    pub model: String,
    pub system: String,
    pub user: String,
    pub sampling: Sampling,
}

impl View for CompletionRequest {
    type V = (Seq<char>, Seq<char>, Seq<char>, Sampling);

    open spec fn view(&self) -> Self::V {
        (self.model@, self.system@, self.user@, self.sampling)
    }
}

/// The `messages` array of a completion: the system message, then the user message.
pub open spec fn messages_text(system: Seq<char>, user: Seq<char>) -> Seq<char> {
    "[{\"content\":"@ + json_string_literal(system) + ",\"role\":\"system\"},{\"content\":"@
        + json_string_literal(user) + ",\"role\":\"user\"}]"@
}

/// The JSON body of a completion, its members in the order of their names.
pub open spec fn completion_body_text(request: (Seq<char>, Seq<char>, Seq<char>, Sampling)) -> Seq<
    char,
> {
    let (model, system, user, sampling) = request;
    match sampling {
        Sampling::MaxTokens(n) => "{\"max_tokens\":"@ + decimal_text(n as nat) + ",\"messages\":"@
            + messages_text(system, user) + ",\"model\":"@ + json_string_literal(model) + "}"@,
        Sampling::ZeroTemperature => "{\"messages\":"@ + messages_text(system, user)
            + ",\"model\":"@ + json_string_literal(model) + ",\"temperature\":0.0}"@,
    }
}

impl CompletionRequest {
    /// The JSON body that is posted for this completion.
    pub fn body(&self) -> (res: String)
        ensures
            res@ == completion_body_text(self@),
    {
        let mut res = String::new();
        match self.sampling {
            Sampling::MaxTokens(n) => {
                res.append("{\"max_tokens\":");
                res.append(decimal(n).as_str());
                res.append(",");
            },
            Sampling::ZeroTemperature => {
                res.append("{");
            },
        }
        res.append("\"messages\":");
        res.append("[{\"content\":");
        res.append(json_quoted(self.system.as_str()).as_str());
        res.append(",\"role\":\"system\"},{\"content\":");
        res.append(json_quoted(self.user.as_str()).as_str());
        res.append(",\"role\":\"user\"}]");
        res.append(",\"model\":");
        res.append(json_quoted(self.model.as_str()).as_str());
        match self.sampling {
            Sampling::MaxTokens(_) => {
                res.append("}");
            },
            Sampling::ZeroTemperature => {
                res.append(",\"temperature\":0.0}");
            },
        }
        proof {
            reveal_strlit("{\"max_tokens\":");
            reveal_strlit(",");
            reveal_strlit("{");
            reveal_strlit("\"messages\":");
            reveal_strlit(",\"messages\":");
            reveal_strlit("{\"messages\":");
            reveal_strlit("}");
            reveal_strlit(",\"temperature\":0.0}");
        }
        assert(res@ =~= completion_body_text(self@));
        res
    }
}

pub const COMPLETIONS_URL: &'static str = "https://api.openai.com/v1/chat/completions";

pub const TRANSCRIPTIONS_URL: &'static str = "https://api.openai.com/v1/audio/transcriptions";

pub const BEARER_PREFIX: &'static str = "Bearer ";

/// How the answer to a post is read before it is decoded as JSON.
#[derive(Clone, Copy, Debug, PartialEq, Eq, Structural)]
pub enum ReplyReading {
    /// Decoded as JSON straight from the response (its failures are the transport's).
    Json,
    /// Read whole as text first, then decoded (its failures are the decoder's).
    Text,
}

/// A JSON post to the completion service.
#[derive(Debug)]
pub struct ApiRequest {
    pub url: String,
    /// The value of the `Authorization` header.
    pub authorization: String,
    /// The JSON body, sent as `application/json`.
    pub body: String,
    pub reading: ReplyReading,
}

impl View for ApiRequest {
    type V = (Seq<char>, Seq<char>, Seq<char>, ReplyReading);

    open spec fn view(&self) -> Self::V {
        (self.url@, self.authorization@, self.body@, self.reading)
    }
}

/// The post that asks the service for `request`, signed with `api_key`.
pub open spec fn completion_post_view(
    api_key: Seq<char>,
    request: (Seq<char>, Seq<char>, Seq<char>, Sampling),
    reading: ReplyReading,
) -> (Seq<char>, Seq<char>, Seq<char>, ReplyReading) {
    (COMPLETIONS_URL@, BEARER_PREFIX@ + api_key, completion_body_text(request), reading)
}

/// The post that asks the completion service for `request`, signed with `api_key`,
/// whose answer is read as `reading` says.
pub fn completion_post(api_key: &str, request: &CompletionRequest, reading: ReplyReading) -> (res:
    ApiRequest)
    ensures
        res@ == completion_post_view(api_key@, request@, reading),
{
    ApiRequest {
        url: owned(COMPLETIONS_URL),
        authorization: concat2(BEARER_PREFIX, api_key),
        body: request.body(),
        reading,
    }
}

pub const WHISPER_MODEL: &'static str = "whisper-1";

pub const TRANSCRIPTION_PROMPT: &'static str = "Transcribe and format it into a pleading";

pub const UPLOAD_FILE_NAME: &'static str = "audio.mp3";

pub const UPLOAD_MIME_TYPE: &'static str = "audio/mpeg";

/// A multipart upload of a recording to the transcription service: the text parts
/// `model` and `prompt`, and the file streamed from `file_path` as part `file`.
#[derive(Debug)]
pub struct AudioUpload {
    pub url: String,
    /// Sent as a bearer token.
    pub api_key: String,
    pub model: String,
    pub prompt: String,
    pub file_path: String,
    /// The file name that the `file` part declares.
    pub file_name: String,
    /// The media type that the `file` part declares.
    pub mime_type: String,
}

impl View for AudioUpload {
    type V = (Seq<char>, Seq<char>, Seq<char>, Seq<char>, Seq<char>, Seq<char>, Seq<char>);

    open spec fn view(&self) -> Self::V {
        (
            self.url@,
            self.api_key@,
            self.model@,
            self.prompt@,
            self.file_path@,
            self.file_name@,
            self.mime_type@,
        )
    }
}

/// The upload that asks for a transcript of the recording at `file_path`.
pub open spec fn transcription_upload_view(api_key: Seq<char>, file_path: Seq<char>) -> (
    Seq<char>,
    Seq<char>,
    Seq<char>,
    Seq<char>,
    Seq<char>,
    Seq<char>,
    Seq<char>,
) {
    (
        TRANSCRIPTIONS_URL@,
        api_key,
        WHISPER_MODEL@,
        TRANSCRIPTION_PROMPT@,
        file_path,
        UPLOAD_FILE_NAME@,
        UPLOAD_MIME_TYPE@,
    )
}

/// The upload that asks for a transcript of the recording at `file_path`.
pub fn transcription_upload(api_key: &str, file_path: &str) -> (res: AudioUpload)
    ensures
        res@ == transcription_upload_view(api_key@, file_path@),
{
    AudioUpload {
        url: owned(TRANSCRIPTIONS_URL),
        api_key: owned(api_key),
        model: owned(WHISPER_MODEL),
        prompt: owned(TRANSCRIPTION_PROMPT),
        file_path: owned(file_path),
        file_name: owned(UPLOAD_FILE_NAME),
        mime_type: owned(UPLOAD_MIME_TYPE),
    }
}

} // verus!
