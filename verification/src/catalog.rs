//! The catalog of downloadable speech-recognition models.

use vstd::prelude::*;

verus! {

/// One file of a model and where to fetch it.
#[derive(Debug, Clone)]
pub struct ModelFile {
    pub name: String,
    pub url: String,
    pub size_bytes: u64,
    pub sha256: Option<String>,
}

/// A mirror from which all files of a model can be fetched.
#[derive(Debug, Clone)]
pub struct DownloadSource {
    pub source: String,
    pub files: Vec<ModelFile>,
}

/// A model that can be downloaded. The speed and accuracy ratings are on a
/// scale of 0 to 10 and are kept in tenths (`85` is a rating of 8.5).
#[derive(Debug, Clone)]
pub struct ModelInfo {
    pub id: String,
    pub name: String,
    pub description: String,
    pub model_type: String,
    pub total_size_bytes: u64,
    pub languages: Vec<String>,
    pub sources: Vec<DownloadSource>,
    pub archive_url: Option<String>,
    pub speed_tenths: u8,
    pub accuracy_tenths: u8,
    pub recommended: bool,
}

/// A model present on this machine.
#[derive(Debug, Clone)]
pub struct LocalModelInfo {
    pub id: String,
    pub name: String,
    pub model_type: String,
    pub total_size_bytes: u64,
    pub path: String,
    pub complete: bool,
}

pub struct ModelFileView {
    pub name: Seq<char>,
    pub url: Seq<char>,
    pub size_bytes: u64,
    pub sha256: Option<Seq<char>>,
}

pub struct DownloadSourceView {
    pub source: Seq<char>,
    pub files: Seq<ModelFileView>,
}

pub struct ModelInfoView {
    pub id: Seq<char>,
    pub name: Seq<char>,
    pub description: Seq<char>,
    pub model_type: Seq<char>,
    pub total_size_bytes: u64,
    pub languages: Seq<Seq<char>>,
    pub sources: Seq<DownloadSourceView>,
    pub archive_url: Option<Seq<char>>,
    pub speed_tenths: u8,
    pub accuracy_tenths: u8,
    pub recommended: bool,
}

pub open spec fn opt_string_view(s: Option<String>) -> Option<Seq<char>> {
    match s {
        Some(t) => Some(t@),
        None => None,
    }
}

impl View for ModelFile {
    type V = ModelFileView;

    open spec fn view(&self) -> ModelFileView {
        ModelFileView {
            name: self.name@,
            url: self.url@,
            size_bytes: self.size_bytes,
            sha256: opt_string_view(self.sha256),
        }
    }
}

impl View for DownloadSource {
    type V = DownloadSourceView;

    open spec fn view(&self) -> DownloadSourceView {
        DownloadSourceView { source: self.source@, files: self.files@.map_values(|f: ModelFile| f@) }
    }
}

impl View for ModelInfo {
    type V = ModelInfoView;

    open spec fn view(&self) -> ModelInfoView {
        ModelInfoView {
            id: self.id@,
            name: self.name@,
            description: self.description@,
            model_type: self.model_type@,
            total_size_bytes: self.total_size_bytes,
            languages: self.languages@.map_values(|l: String| l@),
            sources: self.sources@.map_values(|s: DownloadSource| s@),
            archive_url: opt_string_view(self.archive_url),
            speed_tenths: self.speed_tenths,
            accuracy_tenths: self.accuracy_tenths,
            recommended: self.recommended,
        }
    }
}

/// The download URL of `file` in the Hugging Face repository `repo`.
pub open spec fn hf_url(repo: Seq<char>, file: Seq<char>) -> Seq<char> {
    "https://huggingface.co/"@ + repo + "/resolve/main/"@ + file
}

/// The download URL of `file` in the repository `repo` on the Hugging Face mirror.
pub open spec fn hf_mirror_url(repo: Seq<char>, file: Seq<char>) -> Seq<char> {
    "https://hf-mirror.com/"@ + repo + "/resolve/main/"@ + file
}

/// The download URL of `file` in the ModelScope repository `repo`.
pub open spec fn ms_url(repo: Seq<char>, file: Seq<char>) -> Seq<char> {
    "https://modelscope.cn/models/"@ + repo + "/resolve/master/"@ + file
}

/// The ModelScope repository that holds the Qwen3-ASR ONNX export.
pub open spec fn qwen3_ms_repo() -> Seq<char> {
    "zengshuishui/Qwen3-ASR-onnx"@
}

fn join3(a: &str, b: &str, c: &str, d: &str) -> (r: String)
    ensures
        r@ == a@ + b@ + c@ + d@,
{
    let mut r = a.to_owned();
    r.append(b);
    r.append(c);
    r.append(d);
    r
}

/// The Hugging Face download URL of `file` in `repo`.
pub fn hf(repo: &str, file: &str) -> (url: String)
    ensures
        url@ == hf_url(repo@, file@),
{
    join3("https://huggingface.co/", repo, "/resolve/main/", file)
}

/// The Hugging Face mirror download URL of `file` in `repo`.
pub fn hf_mirror(repo: &str, file: &str) -> (url: String)
    ensures
        url@ == hf_mirror_url(repo@, file@),
{
    join3("https://hf-mirror.com/", repo, "/resolve/main/", file)
}

/// The ModelScope download URL of `file` in `repo`.
pub fn ms(repo: &str, file: &str) -> (url: String)
    ensures
        url@ == ms_url(repo@, file@),
{
    join3("https://modelscope.cn/models/", repo, "/resolve/master/", file)
}

/// The ModelScope download URL of `file` in the Qwen3-ASR ONNX repository
/// (int8 0.6B model and shared tokenizer).
pub fn qwen3_ms(file: &str) -> (url: String)
    ensures
        url@ == ms_url(qwen3_ms_repo(), file@),
{
    ms("zengshuishui/Qwen3-ASR-onnx", file)
}

/// A file of known name and URL whose size and digest are not recorded.
pub open spec fn file_view(name: Seq<char>, url: Seq<char>) -> ModelFileView {
    ModelFileView { name, url, size_bytes: 0, sha256: None }
}

pub open spec fn sensevoice_hf_repo() -> Seq<char> {
    "csukuangfj/sherpa-onnx-sense-voice-zh-en-ja-ko-yue-2024-07-17"@
}

pub open spec fn sensevoice_ms_repo() -> Seq<char> {
    "xiaowangge/sherpa-onnx-sense-voice-small"@
}

/// SenseVoice Small (INT8): Chinese, English, Japanese, Korean and Cantonese,
/// recommended, from ModelScope, Hugging Face and the Hugging Face mirror.
pub open spec fn sensevoice_small() -> ModelInfoView {
    ModelInfoView {
        id: "sensevoice-small"@,
        name: "SenseVoice Small (INT8)"@,
        description: "内存占用 600M 左右 · 中英日韩粤 · 速度极快，日常首选"@,
        model_type: "sensevoice"@,
        total_size_bytes: 239075328,  // 228 MiB
        languages: seq!["zh"@, "en"@, "ja"@, "ko"@, "yue"@],
        sources: seq![
            DownloadSourceView {
                source: "ModelScope"@,
                files: seq![
                    file_view("model.int8.onnx"@, ms_url(sensevoice_ms_repo(), "model_q8.onnx"@)),
                    file_view("tokens.txt"@, ms_url(sensevoice_ms_repo(), "tokens.txt"@)),
                ],
            },
            DownloadSourceView {
                source: "HuggingFace"@,
                files: seq![
                    file_view("model.int8.onnx"@, hf_url(sensevoice_hf_repo(), "model.int8.onnx"@)),
                    file_view("tokens.txt"@, hf_url(sensevoice_hf_repo(), "tokens.txt"@)),
                ],
            },
            DownloadSourceView {
                source: "HuggingFace Mirror"@,
                files: seq![
                    file_view(
                        "model.int8.onnx"@,
                        hf_mirror_url(sensevoice_hf_repo(), "model.int8.onnx"@),
                    ),
                    file_view("tokens.txt"@, hf_mirror_url(sensevoice_hf_repo(), "tokens.txt"@)),
                ],
            },
        ],
        archive_url: None,
        speed_tenths: 85,
        accuracy_tenths: 70,
        recommended: true,
    }
}

/// Qwen3-ASR 0.6B (INT8): a speech LLM, six files from ModelScope.
pub open spec fn qwen3_asr() -> ModelInfoView {
    ModelInfoView {
        id: "qwen3-asr-0.6b"@,
        name: "Qwen3-ASR 0.6B (INT8)"@,
        description: "内存占用 2.3G 左右 · 多语种支持 · 速度较慢"@,
        model_type: "qwen3-asr"@,
        total_size_bytes: 985661440,  // 940 MiB
        languages: seq!["zh"@, "en"@, "yue"@, "ja"@, "ko"@],
        sources: seq![
            DownloadSourceView {
                source: "ModelScope"@,
                files: seq![
                    file_view(
                        "conv_frontend.onnx"@,
                        ms_url(qwen3_ms_repo(), "model_0.6B/conv_frontend.onnx"@),
                    ),
                    file_view(
                        "encoder.int8.onnx"@,
                        ms_url(qwen3_ms_repo(), "model_0.6B/encoder.int8.onnx"@),
                    ),
                    file_view(
                        "decoder.int8.onnx"@,
                        ms_url(qwen3_ms_repo(), "model_0.6B/decoder.int8.onnx"@),
                    ),
                    file_view("tokenizer/merges.txt"@, ms_url(qwen3_ms_repo(), "tokenizer/merges.txt"@)),
                    file_view("tokenizer/vocab.json"@, ms_url(qwen3_ms_repo(), "tokenizer/vocab.json"@)),
                    file_view(
                        "tokenizer/tokenizer_config.json"@,
                        ms_url(qwen3_ms_repo(), "tokenizer/tokenizer_config.json"@),
                    ),
                ],
            },
        ],
        archive_url: None,
        speed_tenths: 30,
        accuracy_tenths: 75,
        recommended: false,
    }
}

/// The models offered for download, in display order.
pub open spec fn model_catalog() -> Seq<ModelInfoView> {
    seq![sensevoice_small(), qwen3_asr()]
}

/// The catalog is well formed: model ids are distinct, ratings lie on the
/// 0 to 10 scale, exactly one model (SenseVoice Small) is recommended, and
/// every model can be fetched from at least one source with files.
pub proof fn lemma_catalog_well_formed()
    ensures
        forall|i: int, j: int|
            0 <= i < j < model_catalog().len() ==> model_catalog()[i].id != model_catalog()[j].id,
        forall|i: int|
            0 <= i < model_catalog().len() ==> (#[trigger] model_catalog()[i]).speed_tenths <= 100
                && model_catalog()[i].accuracy_tenths <= 100 && model_catalog()[i].sources.len() > 0
                && model_catalog()[i].sources[0].files.len() > 0,
        forall|i: int|
            0 <= i < model_catalog().len() ==> ((#[trigger] model_catalog()[i]).recommended <==> i
                == 0),
{
    reveal_strlit("sensevoice-small");
    reveal_strlit("qwen3-asr-0.6b");
    assert(model_catalog()[0].id != model_catalog()[1].id) by {
        assert(model_catalog()[0].id[0] != model_catalog()[1].id[0]);
    }
}

/// Whether `s` ends with `suffix`.
pub open spec fn ends_with(s: Seq<char>, suffix: Seq<char>) -> bool {
    suffix.len() <= s.len() && s.subrange(s.len() - suffix.len(), s.len() as int) == suffix
}

/// Whether `source` names a Hugging Face hub (the hub or its mirror).
pub open spec fn is_hub_source(source: Seq<char>) -> bool {
    source == "HuggingFace"@ || source == "HuggingFace Mirror"@
}

proof fn lemma_hub_url_ends_with(prefix: Seq<char>, repo: Seq<char>, name: Seq<char>)
    ensures
        ends_with(prefix + repo + "/resolve/main/"@ + name, "/resolve/main/"@ + name),
{
    let u = prefix + repo + "/resolve/main/"@ + name;
    let suffix = "/resolve/main/"@ + name;
    assert(u =~= (prefix + repo) + suffix);
    assert(u.subrange(u.len() - suffix.len(), u.len() as int) =~= suffix);
}

/// A file of a Hugging Face hub source is fetched under its own name: its URL
/// ends in `/resolve/main/` followed by the file's name, so a model is never
/// saved under the name of another file of the repository.
pub proof fn lemma_hub_files_keep_their_names()
    ensures
        forall|i: int, j: int, k: int|
            0 <= i < model_catalog().len() && 0 <= j < model_catalog()[i].sources.len() && 0 <= k
                < model_catalog()[i].sources[j].files.len() && is_hub_source(
                model_catalog()[i].sources[j].source,
            ) ==> ends_with(
                (#[trigger] model_catalog()[i].sources[j].files[k]).url,
                "/resolve/main/"@ + model_catalog()[i].sources[j].files[k].name,
            ),
{
    reveal_strlit("ModelScope");
    reveal_strlit("HuggingFace");
    reveal_strlit("HuggingFace Mirror");
    assert(!is_hub_source("ModelScope"@)) by {
        assert("ModelScope"@.len() != "HuggingFace"@.len());
        assert("ModelScope"@.len() != "HuggingFace Mirror"@.len());
    }
    let hf = "https://huggingface.co/"@;
    let mirror = "https://hf-mirror.com/"@;
    let repo = sensevoice_hf_repo();
    lemma_hub_url_ends_with(hf, repo, "model.int8.onnx"@);
    lemma_hub_url_ends_with(hf, repo, "tokens.txt"@);
    lemma_hub_url_ends_with(mirror, repo, "model.int8.onnx"@);
    lemma_hub_url_ends_with(mirror, repo, "tokens.txt"@);
    assert forall|i: int, j: int, k: int|
        0 <= i < model_catalog().len() && 0 <= j < model_catalog()[i].sources.len() && 0 <= k
            < model_catalog()[i].sources[j].files.len() && is_hub_source(
            model_catalog()[i].sources[j].source,
        ) implies ends_with(
        (#[trigger] model_catalog()[i].sources[j].files[k]).url,
        "/resolve/main/"@ + model_catalog()[i].sources[j].files[k].name,
    ) by {
        if i == 0 {
            assert(j == 1 || j == 2);
            assert(k == 0 || k == 1);
        } else {
            assert(i == 1 && j == 0);
        }
    }
}

fn model_file(name: &str, url: String) -> (f: ModelFile)
    ensures
        f@ == file_view(name@, url@),
{
    ModelFile { name: name.to_owned(), url, size_bytes: 0, sha256: None }
}

fn string_list(items: &[&str]) -> (v: Vec<String>)
    ensures
        v@.map_values(|l: String| l@) == items@.map_values(|s: &str| s@),
{
    let mut v: Vec<String> = Vec::new();
    let mut i: usize = 0;
    while i < items.len()
        invariant
            i <= items@.len(),
            v@.len() == i,
            forall|j: int| 0 <= j < i ==> #[trigger] v@[j]@ == items@[j]@,
        decreases items@.len() - i,
    {
        v.push(items[i].to_owned());
        i = i + 1;
    }
    assert(v@.map_values(|l: String| l@) =~= items@.map_values(|s: &str| s@));
    v
}

fn source2(source: &str, a: ModelFile, b: ModelFile) -> (d: DownloadSource)
    ensures
        d@ == (DownloadSourceView { source: source@, files: seq![a@, b@] }),
{
    let mut files: Vec<ModelFile> = Vec::new();
    files.push(a);
    files.push(b);
    let d = DownloadSource { source: source.to_owned(), files };
    assert(d@.files =~= seq![a@, b@]);
    d
}

fn build_sensevoice_small() -> (m: ModelInfo)
    ensures
        m@ == sensevoice_small(),
{
    let hf_repo = "csukuangfj/sherpa-onnx-sense-voice-zh-en-ja-ko-yue-2024-07-17";
    let ms_repo = "xiaowangge/sherpa-onnx-sense-voice-small";
    let langs = string_list(&["zh", "en", "ja", "ko", "yue"]);
    let s1 = source2(
        "ModelScope",
        model_file("model.int8.onnx", ms(ms_repo, "model_q8.onnx")),
        model_file("tokens.txt", ms(ms_repo, "tokens.txt")),
    );
    let s2 = source2(
        "HuggingFace",
        model_file("model.int8.onnx", hf(hf_repo, "model.int8.onnx")),
        model_file("tokens.txt", hf(hf_repo, "tokens.txt")),
    );
    let s3 = source2(
        "HuggingFace Mirror",
        model_file("model.int8.onnx", hf_mirror(hf_repo, "model.int8.onnx")),
        model_file("tokens.txt", hf_mirror(hf_repo, "tokens.txt")),
    );
    let mut sources: Vec<DownloadSource> = Vec::new();
    sources.push(s1);
    sources.push(s2);
    sources.push(s3);
    let m = ModelInfo {
        id: "sensevoice-small".to_owned(),
        name: "SenseVoice Small (INT8)".to_owned(),
        description: "内存占用 600M 左右 · 中英日韩粤 · 速度极快，日常首选".to_owned(),
        model_type: "sensevoice".to_owned(),
        total_size_bytes: 228 * 1024 * 1024,
        speed_tenths: 85,
        accuracy_tenths: 70,
        recommended: true,
        languages: langs,
        sources,
        archive_url: None,
    };
    assert(m@.sources =~= sensevoice_small().sources);
    assert(m@.languages =~= sensevoice_small().languages);
    m
}

fn build_qwen3_asr() -> (m: ModelInfo)
    ensures
        m@ == qwen3_asr(),
{
    let langs = string_list(&["zh", "en", "yue", "ja", "ko"]);
    let mut files: Vec<ModelFile> = Vec::new();
    files.push(model_file("conv_frontend.onnx", qwen3_ms("model_0.6B/conv_frontend.onnx")));
    files.push(model_file("encoder.int8.onnx", qwen3_ms("model_0.6B/encoder.int8.onnx")));
    files.push(model_file("decoder.int8.onnx", qwen3_ms("model_0.6B/decoder.int8.onnx")));
    files.push(model_file("tokenizer/merges.txt", qwen3_ms("tokenizer/merges.txt")));
    files.push(model_file("tokenizer/vocab.json", qwen3_ms("tokenizer/vocab.json")));
    files.push(
        model_file("tokenizer/tokenizer_config.json", qwen3_ms("tokenizer/tokenizer_config.json")),
    );
    let s1 = DownloadSource { source: "ModelScope".to_owned(), files };
    assert(s1@ == qwen3_asr().sources[0]) by {
        assert(s1@.files =~= qwen3_asr().sources[0].files);
    }
    let mut sources: Vec<DownloadSource> = Vec::new();
    sources.push(s1);
    let m = ModelInfo {
        id: "qwen3-asr-0.6b".to_owned(),
        name: "Qwen3-ASR 0.6B (INT8)".to_owned(),
        description: "内存占用 2.3G 左右 · 多语种支持 · 速度较慢".to_owned(),
        model_type: "qwen3-asr".to_owned(),
        total_size_bytes: 940 * 1024 * 1024,
        speed_tenths: 30,
        accuracy_tenths: 75,
        recommended: false,
        languages: langs,
        sources,
        archive_url: None,
    };
    assert(m@.sources =~= qwen3_asr().sources);
    assert(m@.languages =~= qwen3_asr().languages);
    m
}

/// The models offered for download: SenseVoice Small, then Qwen3-ASR 0.6B.
pub fn get_available_models() -> (models: Vec<ModelInfo>)
    ensures
        models@.map_values(|m: ModelInfo| m@) == model_catalog(),
{
    let mut models: Vec<ModelInfo> = Vec::new();
    models.push(build_sensevoice_small());
    models.push(build_qwen3_asr());
    assert(models@.map_values(|m: ModelInfo| m@) =~= model_catalog());
    models
}

} // verus!
