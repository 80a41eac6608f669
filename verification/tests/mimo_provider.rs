use asr_client::json::Json;
use asr_client::mimo::{
    build_body, connection_test_request, connection_test_result, extract_text,
    finish_transcription, prepare_transcription, resolve_language, transcription_request,
    AsrProviderConfig, Base64DecodeError, ProbeReply, TranscribeReply, TranscribeStep, API_URL,
};
use asr_client::wav::pcm_to_wav;
use base64::Engine;

fn obj(members: Vec<(&str, Json)>) -> Json {
    Json::Object(members.into_iter().map(|(k, v)| (k.to_string(), v)).collect())
}

fn s(t: &str) -> Json {
    Json::Str(t.to_string())
}

fn config(extra: Json) -> AsrProviderConfig {
    AsrProviderConfig { api_key: "SECRET-REDACTED".to_string(), extra }
}

fn b64(bytes: &[u8]) -> String {
    base64::engine::general_purpose::STANDARD.encode(bytes)
}

fn data_of(body: &Json) -> &str {
    body.get("messages")
        .and_then(|m| m.get_index(0))
        .and_then(|m| m.get("content"))
        .and_then(|c| c.get_index(0))
        .and_then(|c| c.get("input_audio"))
        .and_then(|a| a.get("data"))
        .and_then(|d| d.as_str())
        .unwrap()
}

fn language_of(body: &Json) -> &str {
    body.get("asr_options").and_then(|o| o.get("language")).and_then(|l| l.as_str()).unwrap()
}

#[test]
fn language_defaults_to_auto() {
    assert_eq!(resolve_language(&config(obj(vec![]))), "auto");
    assert_eq!(resolve_language(&config(Json::Null)), "auto");
    assert_eq!(resolve_language(&config(obj(vec![("language", Json::Bool(true))]))), "auto");
    assert_eq!(resolve_language(&config(obj(vec![("language", s("   "))]))), "auto");
    assert_eq!(resolve_language(&config(obj(vec![("language", s(""))]))), "auto");
}

#[test]
fn language_is_trimmed() {
    assert_eq!(resolve_language(&config(obj(vec![("language", s("  zh \n"))]))), "zh");
    assert_eq!(resolve_language(&config(obj(vec![("language", s("\u{3000}en\u{a0}"))]))), "en");
    assert_eq!(resolve_language(&config(obj(vec![("language", s("e n"))]))), "e n");
}

#[test]
fn request_body_layout() {
    let body = build_body("data:x", "zh");
    assert_eq!(body.get("model").and_then(|m| m.as_str()), Some("mimo-v2.5-asr"));
    let msg = body.get("messages").and_then(|m| m.get_index(0)).unwrap();
    assert_eq!(msg.get("role").and_then(|r| r.as_str()), Some("user"));
    let part = msg.get("content").and_then(|c| c.get_index(0)).unwrap();
    assert_eq!(part.get("type").and_then(|t| t.as_str()), Some("input_audio"));
    assert_eq!(data_of(&body), "data:x");
    assert_eq!(language_of(&body), "zh");
    assert!(body.get("messages").and_then(|m| m.get_index(1)).is_none());
}

fn reply(content: Json) -> Json {
    obj(vec![("choices", Json::Array(vec![obj(vec![("message", obj(vec![("content", content)]))])]))])
}

#[test]
fn transcript_from_string_content() {
    assert_eq!(extract_text(&reply(s("你好 world"))), "你好 world");
}

#[test]
fn transcript_from_parts() {
    let parts = Json::Array(vec![
        obj(vec![("type", s("text")), ("text", s("ab"))]),
        s("cd"),
        obj(vec![("text", Json::Bool(true))]),
        Json::Null,
        obj(vec![("text", s("ef"))]),
    ]);
    assert_eq!(extract_text(&reply(parts)), "abcdef");
}

#[test]
fn transcript_missing_is_empty() {
    assert_eq!(extract_text(&obj(vec![])), "");
    assert_eq!(extract_text(&obj(vec![("choices", Json::Array(vec![]))])), "");
    assert_eq!(extract_text(&reply(Json::Null)), "");
}

#[test]
fn invalid_base64_is_reported() {
    match prepare_transcription("!!!!", 16000, &config(Json::Null)) {
        Some(Err(m)) => assert_eq!(m, "base64 解码失败: Invalid symbol 33, offset 0."),
        other => panic!("unexpected {:?}", other),
    }
    match prepare_transcription("AAA", 16000, &config(Json::Null)) {
        Some(Err(m)) => assert_eq!(m, "base64 解码失败: Invalid padding"),
        other => panic!("unexpected {:?}", other),
    }
    match prepare_transcription("A", 16000, &config(Json::Null)) {
        Some(Err(m)) => assert_eq!(m, "base64 解码失败: Invalid input length: 1"),
        other => panic!("unexpected {:?}", other),
    }
    match prepare_transcription("AB==", 16000, &config(Json::Null)) {
        Some(Err(m)) => assert_eq!(m, "base64 解码失败: Invalid last symbol 66, offset 1."),
        other => panic!("unexpected {:?}", other),
    }
}

#[test]
fn decode_error_messages() {
    assert_eq!(Base64DecodeError::InvalidByte(12, 200).message(), "Invalid symbol 200, offset 12.");
    assert_eq!(Base64DecodeError::InvalidLength(5).message(), "Invalid input length: 5");
    assert_eq!(Base64DecodeError::InvalidPadding.message(), "Invalid padding");
}

#[test]
fn empty_audio_is_an_empty_transcript() {
    match prepare_transcription("", 16000, &config(Json::Null)) {
        Some(Ok(TranscribeStep::Done(r))) => {
            assert_eq!(r.text, "");
            assert_eq!(r.elapsed_ms, 0);
        }
        other => panic!("unexpected {:?}", other),
    }
}

#[test]
fn audio_becomes_a_request() {
    let pcm = vec![1u8, 2, 3, 4, 5, 6];
    let cfg = config(obj(vec![("language", s(" en "))]));
    match prepare_transcription(&b64(&pcm), 16000, &cfg) {
        Some(Ok(TranscribeStep::Send(req))) => {
            assert_eq!(req.url, API_URL);
            assert_eq!(req.url, "https://api.xiaomimimo.com/v1/chat/completions");
            assert_eq!(req.api_key, "SECRET-REDACTED");
            assert_eq!(req.timeout_secs, 60);
            let expected = format!("data:audio/wav;base64,{}", b64(&pcm_to_wav(&pcm, 16000)));
            assert_eq!(data_of(&req.body), expected);
            assert_eq!(language_of(&req.body), "en");
        }
        other => panic!("unexpected {:?}", other),
    }
}

#[test]
fn request_decodes_back_to_the_wav() {
    let pcm: Vec<u8> = (0..300u32).map(|i| (i % 256) as u8).collect();
    let req = transcription_request(&pcm, 22050, &config(Json::Null));
    let data = data_of(&req.body);
    let encoded = data.strip_prefix("data:audio/wav;base64,").unwrap();
    let wav = base64::engine::general_purpose::STANDARD.decode(encoded).unwrap();
    assert_eq!(wav, pcm_to_wav(&pcm, 22050));
    assert_eq!(language_of(&req.body), "auto");
}

#[test]
fn too_fast_sample_rate_is_not_framed() {
    assert!(prepare_transcription(&b64(&[1, 2]), 0x8000_0000, &config(Json::Null)).is_none());
}

#[test]
fn finishing_a_transcription() {
    match finish_transcription(TranscribeReply::Parsed(reply(s("hi"))), 42) {
        Ok(r) => {
            assert_eq!(r.text, "hi");
            assert_eq!(r.elapsed_ms, 42);
        }
        Err(e) => panic!("{}", e),
    }
    match finish_transcription(TranscribeReply::SendFailed("timed out".to_string()), 1) {
        Err(m) => assert_eq!(m, "请求失败: timed out"),
        Ok(_) => panic!("expected an error"),
    }
    match finish_transcription(TranscribeReply::Unparsable("EOF".to_string()), 1) {
        Err(m) => assert_eq!(m, "解析响应失败: EOF"),
        Ok(_) => panic!("expected an error"),
    }
    let rejected = TranscribeReply::Rejected {
        status: "401 Unauthorized".to_string(),
        body: "bad key".to_string(),
    };
    match finish_transcription(rejected, 1) {
        Err(m) => assert_eq!(m, "MiMo ASR 错误 401 Unauthorized: bad key"),
        Ok(_) => panic!("expected an error"),
    }
}

#[test]
fn rejection_body_is_cut_at_300_bytes() {
    let body = "x".repeat(500);
    match finish_transcription(TranscribeReply::Rejected { status: "500".to_string(), body }, 1) {
        Err(m) => assert_eq!(m, format!("MiMo ASR 错误 500: {}", "x".repeat(300))),
        Ok(_) => panic!("expected an error"),
    }
    // 100 three-byte characters end exactly at byte 300
    let body = "错".repeat(150);
    match finish_transcription(TranscribeReply::Rejected { status: "500".to_string(), body }, 1) {
        Err(m) => assert_eq!(m, format!("MiMo ASR 错误 500: {}", "错".repeat(100))),
        Ok(_) => panic!("expected an error"),
    }
}

#[test]
fn connection_test_request_is_half_a_second_of_silence() {
    let req = connection_test_request(&config(obj(vec![("language", s("zh"))])));
    assert_eq!(req.timeout_secs, 15);
    assert_eq!(req.url, API_URL);
    assert_eq!(language_of(&req.body), "auto");
    let expected = format!("data:audio/wav;base64,{}", b64(&pcm_to_wav(&vec![0u8; 16000], 16000)));
    assert_eq!(data_of(&req.body), expected);
}

#[test]
fn connection_test_verdicts() {
    let ok = connection_test_result(ProbeReply::Accepted, 123);
    assert!(ok.ok);
    assert_eq!(ok.message, "连接成功 (123ms)");
    assert_eq!(ok.elapsed_ms, 123);
    assert_eq!(ok.detail, "");
    let zero = connection_test_result(ProbeReply::Accepted, 0);
    assert_eq!(zero.message, "连接成功 (0ms)");
    let bad = connection_test_result(
        ProbeReply::Rejected { status: "403 Forbidden".to_string(), body: "y".repeat(150) },
        9,
    );
    assert!(!bad.ok);
    assert_eq!(bad.message, format!("API 错误 403 Forbidden: {}", "y".repeat(100)));
    assert_eq!(bad.elapsed_ms, 9);
    let failed = connection_test_result(ProbeReply::SendFailed("dns".to_string()), 7);
    assert!(!failed.ok);
    assert_eq!(failed.message, "连接失败: dns");
    assert_eq!(failed.elapsed_ms, 7);
}
