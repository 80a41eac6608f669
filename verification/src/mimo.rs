//! The Xiaomi MiMo speech-recognition provider (`mimo-v2.5-asr`): an
//! OpenAI-style chat/completions endpoint that takes WAV audio as a base64
//! data URL, authenticates with an `api-key` header, and answers with the
//! transcript in `choices[0].message.content`.

use vstd::prelude::*;
use crate::json::{Json, JsonValue, items_view, json_view, lemma_items_view};
use crate::text::{byte_len, byte_prefix, decimal_chars, push_decimal, trim, trim_chars, utf8_prefix};
use crate::wav::{pcm_to_wav, wav_file, wav_fits};
use vstd::string::StringExecFns;
use vstd::utf8::{encode_utf8, is_char_boundary};

verus! {

/// The chat/completions endpoint of the provider.
pub const API_URL: &'static str = "https://api.xiaomimimo.com/v1/chat/completions";

/// The request header that carries the key.
pub const AUTH_HEADER: &'static str = "api-key";

/// Settings of a speech-recognition provider: its key and its extra,
/// provider-specific options (a JSON object).
#[derive(Debug)]
pub struct AsrProviderConfig {
    pub api_key: String,
    pub extra: Json,
}

/// A transcript and how long the provider took to produce it.
#[derive(Debug, Clone)]
pub struct AsrResult {
    pub text: String,
    pub elapsed_ms: u64,
}

/// The outcome of a connection check.
#[derive(Debug, Clone)]
pub struct TestResult {
    pub ok: bool,
    pub message: String,
    pub elapsed_ms: u64,
    pub detail: String,
}

/// The recognition language: the trimmed `language` option when it is a
/// non-empty string, else `auto`.
pub open spec fn spec_resolve_language(extra: JsonValue) -> Seq<char> {
    match extra.get_key("language"@) {
        Some(JsonValue::Str(s)) => if trim_chars(s).len() > 0 {
            trim_chars(s)
        } else {
            "auto"@
        },
        _ => "auto"@,
    }
}

/// Reads the recognition language (`auto`, `zh` or `en`) from the provider's
/// extra options; `auto` when it is missing, not a string, or blank.
pub fn resolve_language(config: &AsrProviderConfig) -> (lang: String)
    ensures
        lang@ == spec_resolve_language(config.extra@),
{
    match config.extra.get("language") {
        Some(v) => match v.as_str() {
            Some(s) => {
                let t = trim(s);
                if t.is_empty() {
                    "auto".to_owned()
                } else {
                    t.to_owned()
                }
            },
            None => "auto".to_owned(),
        },
        None => "auto".to_owned(),
    }
}

/// The recognition language is never blank: it is `auto` or a non-empty
/// trimmed setting.
pub proof fn lemma_language_never_blank(extra: JsonValue)
    ensures
        spec_resolve_language(extra).len() > 0,
        spec_resolve_language(extra) == "auto"@ || spec_resolve_language(extra) == trim_chars(
            extra.get_key("language"@)->0->Str_0,
        ),
{
    reveal_strlit("auto");
}

/// The request body: model `mimo-v2.5-asr`, one user message whose content
/// is an `input_audio` part carrying `data_url`, and the language option.
pub open spec fn request_body(data_url: Seq<char>, language: Seq<char>) -> JsonValue {
    JsonValue::Object(
        seq![
            ("model"@, JsonValue::Str("mimo-v2.5-asr"@)),
            (
                "messages"@,
                JsonValue::Array(
                    seq![
                        JsonValue::Object(
                            seq![
                                ("role"@, JsonValue::Str("user"@)),
                                (
                                    "content"@,
                                    JsonValue::Array(
                                        seq![
                                            JsonValue::Object(
                                                seq![
                                                    ("type"@, JsonValue::Str("input_audio"@)),
                                                    (
                                                        "input_audio"@,
                                                        JsonValue::Object(
                                                            seq![("data"@, JsonValue::Str(data_url))],
                                                        ),
                                                    ),
                                                ],
                                            ),
                                        ],
                                    ),
                                ),
                            ],
                        ),
                    ],
                ),
            ),
            ("asr_options"@, JsonValue::Object(seq![("language"@, JsonValue::Str(language))])),
        ],
    )
}

/// Builds the chat/completions request body for one recording.
pub fn build_body(data_url: &str, language: &str) -> (body: Json)
    ensures
        body@ == request_body(data_url@, language@),
{
    let audio = Json::object2(
        "type",
        Json::text("input_audio"),
        "input_audio",
        Json::object1("data", Json::text(data_url)),
    );
    let message = Json::object2("role", Json::text("user"), "content", Json::array1(audio));
    Json::object3(
        "model",
        Json::text("mimo-v2.5-asr"),
        "messages",
        Json::array1(message),
        "asr_options",
        Json::object1("language", Json::text(language)),
    )
}

/// `choices[0].message.content` of a reply.
pub open spec fn reply_content(reply: JsonValue) -> Option<JsonValue> {
    match reply.get_key("choices"@) {
        Some(choices) => match choices.get_index(0) {
            Some(choice) => match choice.get_key("message"@) {
                Some(message) => message.get_key("content"@),
                None => None,
            },
            None => None,
        },
        None => None,
    }
}

/// The text of one content part: its `text` member when that is a string,
/// else the part itself when it is a string.
pub open spec fn segment_text(segment: JsonValue) -> Seq<char> {
    match segment.get_key("text"@) {
        Some(JsonValue::Str(t)) => t,
        _ => match segment {
            JsonValue::Str(s) => s,
            _ => Seq::empty(),
        },
    }
}

/// The texts of the content parts, joined without separator.
pub open spec fn joined_segments(segments: Seq<JsonValue>) -> Seq<char>
    decreases segments.len(),
{
    if segments.len() == 0 {
        Seq::empty()
    } else {
        joined_segments(segments.drop_last()) + segment_text(segments.last())
    }
}

/// The transcript of a reply: the content when it is a string, the joined
/// texts of its parts when it is an array, else empty.
pub open spec fn reply_text(reply: JsonValue) -> Seq<char> {
    match reply_content(reply) {
        Some(JsonValue::Str(s)) => s,
        Some(JsonValue::Array(parts)) => joined_segments(parts),
        _ => Seq::empty(),
    }
}

/// A reply whose first choice's message has `content`.
pub open spec fn reply_with(content: JsonValue) -> JsonValue {
    JsonValue::Object(
        seq![
            (
                "choices"@,
                JsonValue::Array(
                    seq![
                        JsonValue::Object(
                            seq![("message"@, JsonValue::Object(seq![("content"@, content)]))],
                        ),
                    ],
                ),
            ),
        ],
    )
}

/// When `choices[0].message.content` is a string, the transcript is that
/// string unchanged, whatever its length or characters; a reply without such
/// a content gives no transcript.
pub proof fn lemma_string_content_is_the_transcript(reply: JsonValue, s: Seq<char>)
    ensures
        (exists|choices: JsonValue, choice: JsonValue, message: JsonValue|
            reply.get_key("choices"@) == Some(choices) && choices.get_index(0) == Some(choice)
                && choice.get_key("message"@) == Some(message) && message.get_key("content"@)
                == Some(JsonValue::Str(s))) ==> reply_text(reply) == s,
        reply.get_key("choices"@) is None ==> reply_text(reply).len() == 0,
        reply_text(reply_with(JsonValue::Str(s))) == s,
{
}

/// A content given in parts is transcribed part by part: adding a string
/// part (or a part whose `text` is a string) at the end adds exactly that
/// text at the end of the transcript, and other parts add nothing.
pub proof fn lemma_parts_append(parts: Seq<JsonValue>, t: Seq<char>, other: JsonValue)
    ensures
        reply_text(reply_with(JsonValue::Array(parts.push(JsonValue::Str(t))))) == reply_text(
            reply_with(JsonValue::Array(parts)),
        ) + t,
        reply_text(
            reply_with(
                JsonValue::Array(
                    parts.push(JsonValue::Object(seq![("text"@, JsonValue::Str(t))])),
                ),
            ),
        ) == reply_text(reply_with(JsonValue::Array(parts))) + t,
        (other is Null || other is Bool || other is Number) ==> reply_text(
            reply_with(JsonValue::Array(parts.push(other))),
        ) == reply_text(reply_with(JsonValue::Array(parts))),
        reply_text(reply_with(JsonValue::Array(Seq::empty()))).len() == 0,
{
    assert(parts.push(JsonValue::Str(t)).drop_last() =~= parts);
    assert(parts.push(JsonValue::Object(seq![("text"@, JsonValue::Str(t))])).drop_last() =~= parts);
    assert(parts.push(other).drop_last() =~= parts);
}

fn segment_to_string(segment: &Json) -> (t: String)
    ensures
        t@ == segment_text(segment@),
{
    match segment.get("text") {
        Some(t) => match t.as_str() {
            Some(s) => {
                return s.to_owned();
            },
            None => {},
        },
        None => {},
    }
    match segment.as_str() {
        Some(s) => s.to_owned(),
        None => String::new(),
    }
}

fn content_of(data: &Json) -> (c: Option<&Json>)
    ensures
        match c {
            Some(v) => reply_content(data@) == Some(v@),
            None => reply_content(data@) is None,
        },
{
    let choices = data.get("choices")?;
    let choice = choices.get_index(0)?;
    let message = choice.get("message")?;
    message.get("content")
}

/// Reads the transcript out of a chat/completions reply: the content of the
/// first choice, whether it is a string or an array of text parts.
pub fn extract_text(data: &Json) -> (text: String)
    ensures
        text@ == reply_text(data@),
{
    match content_of(data) {
        Some(content) => match content {
            Json::Str(s) => s.clone(),
            Json::Array(parts) => {
                proof {
                    lemma_items_view(parts@);
                }
                let ghost pv = items_view(parts@);
                let mut out = String::new();
                let mut i: usize = 0;
                while i < parts.len()
                    invariant
                        i <= parts@.len(),
                        pv == items_view(parts@),
                        pv.len() == parts@.len(),
                        forall|j: int| 0 <= j < parts@.len() ==> #[trigger] pv[j] == json_view(parts@[j]),
                        out@ == joined_segments(pv.take(i as int)),
                    decreases parts@.len() - i,
                {
                    let t = segment_to_string(&parts[i]);
                    proof {
                        assert(pv.take(i + 1).drop_last() =~= pv.take(i as int));
                        assert(pv[i as int] == json_view(parts@[i as int]));
                    }
                    out.append(t.as_str());
                    i = i + 1;
                }
                proof {
                    assert(pv.take(i as int) =~= pv);
                }
                out
            },
            _ => String::new(),
        },
        None => String::new(),
    }
}

/// Why standard base64 decoding rejected its input (the variants of
/// `base64::DecodeError`).
#[derive(Debug, Clone, Copy, PartialEq, Eq)]
pub enum Base64DecodeError {
    /// A symbol outside the alphabet, or misplaced padding: offset and byte.
    InvalidByte(usize, u8),
    /// An impossible number of symbols.
    InvalidLength(usize),
    /// A last symbol with nonzero bits that would be discarded: offset and byte.
    InvalidLastSymbol(usize, u8),
    /// Absent or non-canonical padding.
    InvalidPadding,
}

/// What `base64::engine::general_purpose::STANDARD` decodes `input` to.
pub uninterp spec fn base64_standard_decode(input: Seq<char>) -> Result<Seq<u8>, Base64DecodeError>;

/// What `base64::engine::general_purpose::STANDARD` encodes `bytes` to.
pub uninterp spec fn base64_standard_encode(bytes: Seq<u8>) -> Seq<char>;

/// `Engine::decode` of `base64::engine::general_purpose::STANDARD` (RFC 4648
/// alphabet, canonical padding required): the decoded bytes, or the reason of
/// the rejection, as named by `base64_standard_decode`.
#[verifier::external_body]
fn decode_base64(input: &str) -> (r: Result<Vec<u8>, Base64DecodeError>)
    ensures
        match r {
            Ok(v) => base64_standard_decode(input@) == Ok::<Seq<u8>, Base64DecodeError>(v@),
            Err(e) => base64_standard_decode(input@) == Err::<Seq<u8>, Base64DecodeError>(e),
        },
{
    match base64::Engine::decode(&base64::engine::general_purpose::STANDARD, input) {
        Ok(v) => Ok(v),
        Err(base64::DecodeError::InvalidByte(i, b)) => Err(Base64DecodeError::InvalidByte(i, b)),
        Err(base64::DecodeError::InvalidLength(n)) => Err(Base64DecodeError::InvalidLength(n)),
        Err(base64::DecodeError::InvalidLastSymbol(i, b)) => Err(
            Base64DecodeError::InvalidLastSymbol(i, b),
        ),
        Err(base64::DecodeError::InvalidPadding) => Err(Base64DecodeError::InvalidPadding),
    }
}

/// `Engine::encode` of `base64::engine::general_purpose::STANDARD` (RFC 4648
/// alphabet, with padding), as named by `base64_standard_encode`. It panics
/// when the encoded length overflows `usize`, which the bound rules out.
#[verifier::external_body]
fn encode_base64(bytes: &[u8]) -> (s: String)
    requires
        bytes@.len() <= 3 * (usize::MAX / 4),
    ensures
        s@ == base64_standard_encode(bytes@),
{
    base64::Engine::encode(&base64::engine::general_purpose::STANDARD, bytes)
}

/// How `base64::DecodeError` displays itself.
pub open spec fn decode_error_text(e: Base64DecodeError) -> Seq<char> {
    match e {
        Base64DecodeError::InvalidByte(i, b) => "Invalid symbol "@ + decimal_chars(b as nat)
            + ", offset "@ + decimal_chars(i as nat) + "."@,
        Base64DecodeError::InvalidLength(n) => "Invalid input length: "@ + decimal_chars(n as nat),
        Base64DecodeError::InvalidLastSymbol(i, b) => "Invalid last symbol "@ + decimal_chars(
            b as nat,
        ) + ", offset "@ + decimal_chars(i as nat) + "."@,
        Base64DecodeError::InvalidPadding => "Invalid padding"@,
    }
}

impl Base64DecodeError {
    /// The error's display text.
    pub fn message(&self) -> (m: String)
        ensures
            m@ == decode_error_text(*self),
    {
        match self {
            Base64DecodeError::InvalidByte(i, b) => {
                let mut m = "Invalid symbol ".to_owned();
                push_decimal(&mut m, *b as u64);
                m.append(", offset ");
                push_decimal(&mut m, *i as u64);
                m.append(".");
                m
            },
            Base64DecodeError::InvalidLength(n) => {
                let mut m = "Invalid input length: ".to_owned();
                push_decimal(&mut m, *n as u64);
                m
            },
            Base64DecodeError::InvalidLastSymbol(i, b) => {
                let mut m = "Invalid last symbol ".to_owned();
                push_decimal(&mut m, *b as u64);
                m.append(", offset ");
                push_decimal(&mut m, *i as u64);
                m.append(".");
                m
            },
            Base64DecodeError::InvalidPadding => "Invalid padding".to_owned(),
        }
    }
}

/// An HTTP request to the provider: JSON `body` posted to `url` with `api_key`
/// in the `api-key` header, abandoned after `timeout_secs` seconds.
#[derive(Debug)]
pub struct AsrRequest {
    pub url: String,
    pub api_key: String,
    pub body: Json,
    pub timeout_secs: u64,
}

/// The `data:` URL that carries a WAV file as base64.
pub open spec fn wav_data_url(wav: Seq<u8>) -> Seq<char> {
    "data:audio/wav;base64,"@ + base64_standard_encode(wav)
}

/// Whether `pcm_len` bytes at `sample_rate` Hz can be framed and encoded.
pub open spec fn request_fits(pcm_len: nat, sample_rate: nat) -> bool {
    &&& wav_fits(pcm_len, sample_rate)
    &&& pcm_len + 44 <= 3 * (usize::MAX / 4)
}

/// `req` posts the WAV framing of `pcm` at `sample_rate` Hz, in `language`,
/// with `api_key`, and gives up after `timeout_secs` seconds.
pub open spec fn is_audio_request(
    req: AsrRequest,
    pcm: Seq<u8>,
    sample_rate: nat,
    language: Seq<char>,
    api_key: Seq<char>,
    timeout_secs: u64,
) -> bool {
    &&& req.url@ == API_URL@
    &&& req.api_key@ == api_key
    &&& req.timeout_secs == timeout_secs
    &&& req.body@ == request_body(wav_data_url(wav_file(pcm, sample_rate)), language)
}

fn audio_request(pcm: &[u8], sample_rate: u32, language: &str, api_key: &str, timeout_secs: u64) -> (req: AsrRequest)
    requires
        request_fits(pcm@.len(), sample_rate as nat),
    ensures
        is_audio_request(req, pcm@, sample_rate as nat, language@, api_key@, timeout_secs),
{
    let wav = pcm_to_wav(pcm, sample_rate);
    let wav_b64 = encode_base64(wav.as_slice());
    let mut data_url = "data:audio/wav;base64,".to_owned();
    data_url.append(wav_b64.as_str());
    AsrRequest {
        url: API_URL.to_owned(),
        api_key: api_key.to_owned(),
        body: build_body(data_url.as_str(), language),
        timeout_secs,
    }
}

/// The request that transcribes `pcm` (16-bit mono at `sample_rate` Hz) with
/// the language of `config`; the provider gets 60 seconds.
pub fn transcription_request(pcm: &[u8], sample_rate: u32, config: &AsrProviderConfig) -> (req:
    AsrRequest)
    requires
        request_fits(pcm@.len(), sample_rate as nat),
    ensures
        is_audio_request(
            req,
            pcm@,
            sample_rate as nat,
            spec_resolve_language(config.extra@),
            config.api_key@,
            60,
        ),
{
    let language = resolve_language(config);
    audio_request(pcm, sample_rate, language.as_str(), config.api_key.as_str(), 60)
}

/// What a transcription does next: answer at once, or send a request.
#[derive(Debug)]
pub enum TranscribeStep {
    Done(AsrResult),
    Send(AsrRequest),
}

/// Starts a transcription of base64-encoded PCM. Undecodable audio is an
/// error naming the decoder's complaint; empty audio is an empty transcript
/// at once; other audio becomes the request of `transcription_request`.
/// `None` where the audio or the sample rate is too large to be framed.
pub fn prepare_transcription(audio_pcm_b64: &str, sample_rate: u32, config: &AsrProviderConfig) -> (r:
    Option<Result<TranscribeStep, String>>)
    ensures
        match base64_standard_decode(audio_pcm_b64@) {
            Err(e) => r matches Some(Err(m)) && m@ == "base64 解码失败: "@ + decode_error_text(e),
            Ok(pcm) => if pcm.len() == 0 {
                r matches Some(Ok(TranscribeStep::Done(res))) && res.text@.len() == 0
                    && res.elapsed_ms == 0
            } else if request_fits(pcm.len(), sample_rate as nat) {
                r matches Some(Ok(TranscribeStep::Send(req))) && is_audio_request(
                    req,
                    pcm,
                    sample_rate as nat,
                    spec_resolve_language(config.extra@),
                    config.api_key@,
                    60,
                )
            } else {
                r is None
            },
        },
{
    let pcm = match decode_base64(audio_pcm_b64) {
        Ok(pcm) => pcm,
        Err(e) => {
            let mut m = "base64 解码失败: ".to_owned();
            m.append(e.message().as_str());
            return Some(Err(m));
        },
    };
    if pcm.len() == 0 {
        return Some(Ok(TranscribeStep::Done(AsrResult { text: String::new(), elapsed_ms: 0 })));
    }
    let fits = pcm.len() <= u32::MAX as usize - 36 && pcm.len() <= usize::MAX - 44 && sample_rate
        <= u32::MAX / 2 && pcm.len() <= 3 * (usize::MAX / 4) - 44;
    if !fits {
        return None;
    }
    Some(Ok(TranscribeStep::Send(transcription_request(pcm.as_slice(), sample_rate, config))))
}

/// The part of `body` in its first `limit` bytes (all of it when shorter).
pub open spec fn excerpt(body: Seq<char>, limit: nat) -> Seq<char> {
    utf8_prefix(body, if byte_len(body) < limit { byte_len(body) } else { limit })
}

/// Whether the first `limit` bytes of `body` end on a character boundary
/// (and the body's length fits `usize`, as that of any string in memory does).
pub open spec fn excerpt_ok(body: Seq<char>, limit: nat) -> bool {
    &&& byte_len(body) <= usize::MAX
    &&& is_char_boundary(encode_utf8(body), if byte_len(body) < limit { byte_len(body) as int } else { limit as int })
}

fn excerpt_of(body: &str, limit: usize) -> (r: String)
    requires
        excerpt_ok(body@, limit as nat),
    ensures
        r@ == excerpt(body@, limit as nat),
{
    let n = if body.len() < limit { body.len() } else { limit };
    byte_prefix(body, n)
}

/// How the provider answered a transcription request.
#[derive(Debug)]
pub enum TranscribeReply {
    /// The request could not be sent or got no reply.
    SendFailed(String),
    /// A status other than success, with its text (such as `401 Unauthorized`) and the body.
    Rejected { status: String, body: String },
    /// A success whose body is not JSON.
    Unparsable(String),
    /// A success with a JSON body.
    Parsed(Json),
}

/// The outcome of a transcription request: the transcript of a JSON reply,
/// or an error message for each kind of failure (at most 300 bytes of the
/// body of a rejection).
pub fn finish_transcription(reply: TranscribeReply, elapsed_ms: u64) -> (r: Result<AsrResult, String>)
    requires
        match reply {
            TranscribeReply::Rejected { body, .. } => excerpt_ok(body@, 300),
            _ => true,
        },
    ensures
        match reply {
            TranscribeReply::SendFailed(d) => r matches Err(m) && m@ == "请求失败: "@ + d@,
            TranscribeReply::Rejected { status, body } => r matches Err(m) && m@ == "MiMo ASR 错误 "@
                + status@ + ": "@ + excerpt(body@, 300),
            TranscribeReply::Unparsable(d) => r matches Err(m) && m@ == "解析响应失败: "@ + d@,
            TranscribeReply::Parsed(data) => r matches Ok(res) && res.text@ == reply_text(data@)
                && res.elapsed_ms == elapsed_ms,
        },
{
    match reply {
        TranscribeReply::SendFailed(d) => {
            let mut m = "请求失败: ".to_owned();
            m.append(d.as_str());
            Err(m)
        },
        TranscribeReply::Rejected { status, body } => {
            let mut m = "MiMo ASR 错误 ".to_owned();
            m.append(status.as_str());
            m.append(": ");
            m.append(excerpt_of(body.as_str(), 300).as_str());
            Err(m)
        },
        TranscribeReply::Unparsable(d) => {
            let mut m = "解析响应失败: ".to_owned();
            m.append(d.as_str());
            Err(m)
        },
        TranscribeReply::Parsed(data) => Ok(AsrResult { text: extract_text(&data), elapsed_ms }),
    }
}

/// Half a second of silence at 16 kHz.
pub open spec fn probe_silence() -> Seq<u8> {
    Seq::new(16000, |i: int| 0u8)
}

/// The request of a connection check: half a second of silence at 16 kHz,
/// language `auto`, 15 seconds to answer.
pub fn connection_test_request(config: &AsrProviderConfig) -> (req: AsrRequest)
    ensures
        is_audio_request(req, probe_silence(), 16000, "auto"@, config.api_key@, 15),
{
    let silence: Vec<u8> = vec![0u8; 16000];
    assert(silence@ =~= probe_silence());
    audio_request(silence.as_slice(), 16000, "auto", config.api_key.as_str(), 15)
}

/// How the provider answered a connection check.
#[derive(Debug)]
pub enum ProbeReply {
    SendFailed(String),
    Rejected { status: String, body: String },
    Accepted,
}

/// The verdict of a connection check: success with the round-trip time, or
/// the status and at most 100 bytes of the body, or the transport error.
pub fn connection_test_result(reply: ProbeReply, elapsed_ms: u64) -> (t: TestResult)
    requires
        match reply {
            ProbeReply::Rejected { body, .. } => excerpt_ok(body@, 100),
            _ => true,
        },
    ensures
        t.elapsed_ms == elapsed_ms,
        t.detail@.len() == 0,
        t.ok == (reply is Accepted),
        match reply {
            ProbeReply::Accepted => t.message@ == "连接成功 ("@ + decimal_chars(elapsed_ms as nat)
                + "ms)"@,
            ProbeReply::Rejected { status, body } => t.message@ == "API 错误 "@ + status@ + ": "@
                + excerpt(body@, 100),
            ProbeReply::SendFailed(d) => t.message@ == "连接失败: "@ + d@,
        },
{
    match reply {
        ProbeReply::Accepted => {
            let mut m = "连接成功 (".to_owned();
            push_decimal(&mut m, elapsed_ms);
            m.append("ms)");
            TestResult { ok: true, message: m, elapsed_ms, detail: String::new() }
        },
        ProbeReply::Rejected { status, body } => {
            let mut m = "API 错误 ".to_owned();
            m.append(status.as_str());
            m.append(": ");
            m.append(excerpt_of(body.as_str(), 100).as_str());
            TestResult { ok: false, message: m, elapsed_ms, detail: String::new() }
        },
        ProbeReply::SendFailed(d) => {
            let mut m = "连接失败: ".to_owned();
            m.append(d.as_str());
            TestResult { ok: false, message: m, elapsed_ms, detail: String::new() }
        },
    }
}

} // verus!
