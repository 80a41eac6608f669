use asr_client::catalog::{get_available_models, hf, hf_mirror, ms, qwen3_ms};

#[test]
fn url_builders() {
    assert_eq!(hf("a/b", "c.txt"), "https://huggingface.co/a/b/resolve/main/c.txt");
    assert_eq!(hf_mirror("a/b", "c.txt"), "https://hf-mirror.com/a/b/resolve/main/c.txt");
    assert_eq!(ms("a/b", "c.txt"), "https://modelscope.cn/models/a/b/resolve/master/c.txt");
    assert_eq!(
        qwen3_ms("tokenizer/vocab.json"),
        "https://modelscope.cn/models/zengshuishui/Qwen3-ASR-onnx/resolve/master/tokenizer/vocab.json"
    );
}

#[test]
fn catalog_has_two_models_in_order() {
    let models = get_available_models();
    assert_eq!(models.len(), 2);
    assert_eq!(models[0].id, "sensevoice-small");
    assert_eq!(models[1].id, "qwen3-asr-0.6b");
}

#[test]
fn sensevoice_entry() {
    let m = &get_available_models()[0];
    assert_eq!(m.name, "SenseVoice Small (INT8)");
    assert_eq!(m.model_type, "sensevoice");
    assert_eq!(m.total_size_bytes, 228 * 1024 * 1024);
    assert_eq!(m.speed_tenths, 85);
    assert_eq!(m.accuracy_tenths, 70);
    assert!(m.recommended);
    assert_eq!(m.languages, vec!["zh", "en", "ja", "ko", "yue"]);
    assert!(m.archive_url.is_none());
    let names: Vec<&str> = m.sources.iter().map(|s| s.source.as_str()).collect();
    assert_eq!(names, vec!["ModelScope", "HuggingFace", "HuggingFace Mirror"]);
    assert_eq!(
        m.sources[0].files[0].url,
        "https://modelscope.cn/models/xiaowangge/sherpa-onnx-sense-voice-small/resolve/master/model_q8.onnx"
    );
    assert_eq!(m.sources[0].files[0].name, "model.int8.onnx");
    assert_eq!(
        m.sources[1].files[1].url,
        "https://huggingface.co/csukuangfj/sherpa-onnx-sense-voice-zh-en-ja-ko-yue-2024-07-17/resolve/main/tokens.txt"
    );
    assert_eq!(
        m.sources[2].files[0].url,
        "https://hf-mirror.com/csukuangfj/sherpa-onnx-sense-voice-zh-en-ja-ko-yue-2024-07-17/resolve/main/model.int8.onnx"
    );
    for s in &m.sources {
        for f in &s.files {
            assert_eq!(f.size_bytes, 0);
            assert!(f.sha256.is_none());
        }
    }
}

#[test]
fn qwen3_entry() {
    let m = &get_available_models()[1];
    assert_eq!(m.name, "Qwen3-ASR 0.6B (INT8)");
    assert_eq!(m.description, "内存占用 2.3G 左右 · 多语种支持 · 速度较慢");
    assert_eq!(m.total_size_bytes, 940 * 1024 * 1024);
    assert_eq!(m.speed_tenths, 30);
    assert_eq!(m.accuracy_tenths, 75);
    assert!(!m.recommended);
    assert_eq!(m.languages, vec!["zh", "en", "yue", "ja", "ko"]);
    assert_eq!(m.sources.len(), 1);
    let files: Vec<&str> = m.sources[0].files.iter().map(|f| f.name.as_str()).collect();
    assert_eq!(
        files,
        vec![
            "conv_frontend.onnx",
            "encoder.int8.onnx",
            "decoder.int8.onnx",
            "tokenizer/merges.txt",
            "tokenizer/vocab.json",
            "tokenizer/tokenizer_config.json"
        ]
    );
    assert_eq!(
        m.sources[0].files[2].url,
        "https://modelscope.cn/models/zengshuishui/Qwen3-ASR-onnx/resolve/master/model_0.6B/decoder.int8.onnx"
    );
}

#[test]
fn exactly_one_recommended_model_and_ratings_in_range() {
    let models = get_available_models();
    assert_eq!(models.iter().filter(|m| m.recommended).count(), 1);
    for m in &models {
        assert!(m.speed_tenths <= 100 && m.accuracy_tenths <= 100);
    }
}
