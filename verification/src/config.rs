//! Building a backend-tagged engine configuration from caller options.
//!
//! The engine takes a fixed-shape configuration structure in which every
//! backend of a model family has its own slot; unset slots must be
//! zero-valued so the engine treats them as disabled.  The caller-facing
//! option structs here carry owned strings and optional overrides; each
//! `build_*` function substitutes the documented defaults and fills exactly
//! one backend slot, leaving every other slot at its placeholder.
//!
//! The engine reads some tuning fields as its own 32-bit floating-point
//! numbers.  This layer never computes with them, so it carries each one as
//! the raw bit pattern (`*_bits`) that the unverified shell reinterprets at
//! the boundary; the all-zero pattern is the engine's "unset" value.

use vstd::prelude::*;

use crate::marshal::{marshaled, text_ok, TransientStrings};

verus! {

/// What a string-valued option contributes: the override, or the default.
pub open spec fn provider_choice(p: Option<String>, default: Seq<char>) -> Seq<char> {
    match p {
        Some(s) => s@,
        None => default,
    }
}

/// An optional text, with the empty text standing in when absent.
pub open spec fn text_or_empty(o: Option<String>) -> Seq<char> {
    match o {
        Some(s) => s@,
        None => Seq::empty(),
    }
}

/// The thread-count override, or the family's documented default.
pub open spec fn threads_choice(t: Option<i32>, default: i32) -> i32 {
    match t {
        Some(n) => n,
        None => default,
    }
}

/// The engine's integer debug flag for an optional boolean override.
pub open spec fn debug_flag(d: Option<bool>) -> i32 {
    if d == Some(true) {
        1i32
    } else {
        0i32
    }
}

// ---------------------------------------------------------------------------
// Caller-facing options
// ---------------------------------------------------------------------------

/// Options for a whisper recognition handle.
#[derive(Debug)]
pub struct WhisperConfig {
    pub decoder: String,
    pub encoder: String,
    pub tokens: String,
    pub language: String,
    pub debug: Option<bool>,
    pub provider: Option<String>,
    pub num_threads: Option<i32>,
    pub bpe_vocab: Option<String>,
}

impl Default for WhisperConfig {
    /// Empty model paths, English, one thread, everything else unset.
    fn default() -> (c: WhisperConfig)
        ensures
            c.decoder@ == Seq::<char>::empty(),
            c.encoder@ == Seq::<char>::empty(),
            c.tokens@ == Seq::<char>::empty(),
            c.language@ == "en"@,
            c.debug is None,
            c.provider is None,
            c.num_threads == Some(1i32),
            c.bpe_vocab is None,
    {
        WhisperConfig {
            decoder: String::new(),
            encoder: String::new(),
            tokens: String::new(),
            language: String::from_str("en"),
            debug: None,
            provider: None,
            num_threads: Some(1),
            bpe_vocab: None,
        }
    }
}

/// Options for an audio-tagging handle.
#[derive(Debug, Default, Clone)]
pub struct AudioTagConfig {
    pub model: String,
    pub labels: String,
    pub top_k: i32,
    pub debug: Option<bool>,
    pub num_threads: Option<i32>,
    pub provider: Option<String>,
    pub ced: Option<String>,
}

/// Execution-provider options shared by the synthesis family.
#[derive(Debug, Default, Clone)]
pub struct OnnxConfig {
    pub provider: String,
    pub num_threads: i32,
    pub debug: bool,
}

/// Text-normalization options shared by the synthesis family.  An empty
/// rule path means the engine gets a null pointer for that rule set.
#[derive(Debug, Default, Clone)]
pub struct CommonTtsConfig {
    pub rule_fsts: String,
    pub rule_fars: String,
    pub max_num_sentences: i32,
    pub silence_scale_bits: u32,
}

/// Options for a zipvoice synthesis handle.
#[derive(Debug, Default)]
pub struct ZipVoiceTtsConfig {
    pub tokens: String,
    pub text_model: String,
    pub flow_matching_model: String,
    pub vocoder: String,
    pub data_dir: String,
    pub pinyin_dict: String,
    pub feat_scale_bits: u32,
    pub t_shift_bits: u32,
    pub target_rms_bits: u32,
    pub guidance_scale_bits: u32,
    pub onnx_config: OnnxConfig,
    pub tts_config: CommonTtsConfig,
}

// ---------------------------------------------------------------------------
// Recognition: fixed-shape configuration
// ---------------------------------------------------------------------------

/// The whisper backend slot.
pub struct WhisperSlot {
    pub encoder: String,
    pub decoder: String,
    pub language: String,
    pub task: String,
    pub tail_paddings: i32,
}

impl WhisperSlot {
    /// Carries caller data: both model paths are present.
    pub open spec fn is_populated(&self) -> bool {
        self.encoder@.len() > 0 && self.decoder@.len() > 0
    }
}

/// The transducer backend slot; `None` is the engine's null pointer.
pub struct TransducerSlot {
    pub encoder: Option<String>,
    pub decoder: Option<String>,
    pub joiner: Option<String>,
}

impl TransducerSlot {
    pub open spec fn is_unset(&self) -> bool {
        self.encoder is None && self.decoder is None && self.joiner is None
    }
}

/// A backend slot holding one model path; `None` is the null pointer.
pub struct SingleModelSlot {
    pub model: Option<String>,
}

impl SingleModelSlot {
    pub open spec fn is_unset(&self) -> bool {
        self.model is None
    }
}

/// The sense-voice backend slot.  The engine takes empty strings, not null
/// pointers, for its unset text fields.
pub struct SenseVoiceSlot {
    pub model: String,
    pub language: String,
    pub use_itn: i32,
}

impl SenseVoiceSlot {
    pub open spec fn is_unset(&self) -> bool {
        self.model@.len() == 0 && self.language@.len() == 0 && self.use_itn == 0
    }
}

/// The model section of the recognizer configuration: one slot per backend.
pub struct OfflineModelConfig {
    pub transducer: TransducerSlot,
    pub paraformer: SingleModelSlot,
    pub nemo_ctc: SingleModelSlot,
    pub whisper: WhisperSlot,
    pub tdnn: SingleModelSlot,
    pub sense_voice: SenseVoiceSlot,
    pub telespeech_ctc: Option<String>,
    pub tokens: String,
    pub num_threads: i32,
    pub debug: i32,
    pub provider: String,
    pub model_type: Option<String>,
    pub modeling_unit: Option<String>,
    pub bpe_vocab: String,
}

/// How many recognition backend slots carry data.
pub open spec fn populated_recognition_backends(m: OfflineModelConfig) -> int {
    (if m.whisper.is_populated() { 1int } else { 0int })
        + (if !m.transducer.is_unset() { 1int } else { 0int })
        + (if !m.paraformer.is_unset() { 1int } else { 0int })
        + (if !m.nemo_ctc.is_unset() { 1int } else { 0int })
        + (if !m.tdnn.is_unset() { 1int } else { 0int })
        + (if !m.sense_voice.is_unset() { 1int } else { 0int })
        + (if m.telespeech_ctc is Some { 1int } else { 0int })
}

/// Exactly one backend slot is non-placeholder; every other slot holds the
/// zero value the engine reads as "disabled".
pub open spec fn exactly_one_recognition_backend(m: OfflineModelConfig) -> bool {
    populated_recognition_backends(m) == 1
}

/// Feature extraction settings.
pub struct FeatureSetup {
    pub sample_rate: i32,
    pub feature_dim: i32,
}

/// Language-model rescoring settings; unset for greedy decoding.
pub struct LmSetup {
    pub model: Option<String>,
    pub scale_bits: u32,
}

/// The full fixed-shape recognizer configuration handed to the create call.
pub struct OfflineRecognizerConfig {
    pub feat: FeatureSetup,
    pub model: OfflineModelConfig,
    pub lm: LmSetup,
    pub decoding_method: String,
    pub max_active_paths: i32,
    pub hotwords_file: Option<String>,
    pub hotwords_score_bits: u32,
    pub rule_fsts: Option<String>,
    pub rule_fars: Option<String>,
    pub blank_penalty_bits: u32,
}

/// Assemble the recognizer configuration for a whisper model: fill the
/// whisper slot from the caller options, substitute the documented defaults
/// (two threads, the process default provider, debug off), and zero every
/// other backend slot.  Nothing fails here: a bad model path is only
/// discovered when the engine's create call returns null.
pub fn build_recognizer_config(cfg: WhisperConfig, default_provider: &str) -> (flat:
    OfflineRecognizerConfig)
    ensures
        flat.model.whisper.encoder@ == cfg.encoder@,
        flat.model.whisper.decoder@ == cfg.decoder@,
        flat.model.whisper.language@ == cfg.language@,
        flat.model.whisper.task@ == "transcribe"@,
        flat.model.whisper.tail_paddings == 0,
        flat.model.transducer.is_unset(),
        flat.model.paraformer.is_unset(),
        flat.model.nemo_ctc.is_unset(),
        flat.model.tdnn.is_unset(),
        flat.model.sense_voice.is_unset(),
        flat.model.telespeech_ctc is None,
        flat.model.model_type is None,
        flat.model.modeling_unit is None,
        flat.model.tokens@ == cfg.tokens@,
        flat.model.bpe_vocab@ == text_or_empty(cfg.bpe_vocab),
        flat.model.provider@ == provider_choice(cfg.provider, default_provider@),
        flat.model.num_threads == threads_choice(cfg.num_threads, 2),
        flat.model.debug == debug_flag(cfg.debug),
        flat.feat.sample_rate == 16000,
        flat.feat.feature_dim == 512,
        flat.lm.model is None,
        flat.lm.scale_bits == 0,
        flat.decoding_method@ == "greedy_search"@,
        flat.max_active_paths == 0,
        flat.hotwords_file is None,
        flat.hotwords_score_bits == 0,
        flat.rule_fsts is None,
        flat.rule_fars is None,
        flat.blank_penalty_bits == 0,
        cfg.encoder@.len() > 0 && cfg.decoder@.len() > 0 ==> exactly_one_recognition_backend(
            flat.model,
        ),
{
    let debug: i32 = match cfg.debug {
        Some(true) => 1,
        _ => 0,
    };
    let provider: String = match cfg.provider {
        Some(p) => p,
        None => String::from_str(default_provider),
    };
    let num_threads: i32 = match cfg.num_threads {
        Some(n) => n,
        None => 2,
    };
    let bpe_vocab: String = match cfg.bpe_vocab {
        Some(v) => v,
        None => String::new(),
    };
    let whisper = WhisperSlot {
        encoder: cfg.encoder,
        decoder: cfg.decoder,
        language: cfg.language,
        task: String::from_str("transcribe"),
        tail_paddings: 0,
    };
    let model = OfflineModelConfig {
        transducer: TransducerSlot { encoder: None, decoder: None, joiner: None },
        paraformer: SingleModelSlot { model: None },
        nemo_ctc: SingleModelSlot { model: None },
        whisper,
        tdnn: SingleModelSlot { model: None },
        sense_voice: SenseVoiceSlot {
            model: String::new(),
            language: String::new(),
            use_itn: 0,
        },
        telespeech_ctc: None,
        tokens: cfg.tokens,
        num_threads,
        debug,
        provider,
        model_type: None,
        modeling_unit: None,
        bpe_vocab,
    };
    OfflineRecognizerConfig {
        feat: FeatureSetup { sample_rate: 16000, feature_dim: 512 },
        model,
        lm: LmSetup { model: None, scale_bits: 0 },
        decoding_method: String::from_str("greedy_search"),
        max_active_paths: 0,
        hotwords_file: None,
        hotwords_score_bits: 0,
        rule_fsts: None,
        rule_fars: None,
        blank_penalty_bits: 0,
    }
}

/// The marshaled images the recognizer configuration references, in the
/// order they are staged.
pub open spec fn recognizer_staged(flat: OfflineRecognizerConfig) -> Seq<Seq<u8>> {
    seq![
        marshaled(flat.model.provider@),
        marshaled(flat.model.bpe_vocab@),
        marshaled(flat.model.whisper.decoder@),
        marshaled(flat.model.whisper.encoder@),
        marshaled(flat.model.whisper.language@),
        marshaled(flat.model.whisper.task@),
        marshaled(flat.model.sense_voice.model@),
        marshaled(flat.model.sense_voice.language@),
        marshaled(flat.model.tokens@),
        marshaled(flat.decoding_method@),
    ]
}

/// Marshal every string the recognizer configuration references into the
/// transient set that must outlive the create call.
pub fn stage_recognizer_strings(flat: &OfflineRecognizerConfig, strings: &mut TransientStrings)
    requires
        !old(strings).is_released(),
        old(strings).wf(),
        text_ok(flat.model.provider@),
        text_ok(flat.model.bpe_vocab@),
        text_ok(flat.model.whisper.decoder@),
        text_ok(flat.model.whisper.encoder@),
        text_ok(flat.model.whisper.language@),
        text_ok(flat.model.whisper.task@),
        text_ok(flat.model.sense_voice.model@),
        text_ok(flat.model.sense_voice.language@),
        text_ok(flat.model.tokens@),
        text_ok(flat.decoding_method@),
    ensures
        final(strings).entries() == old(strings).entries() + recognizer_staged(*flat),
        !final(strings).is_released(),
        final(strings).wf(),
{
    strings.add(flat.model.provider.as_str());
    strings.add(flat.model.bpe_vocab.as_str());
    strings.add(flat.model.whisper.decoder.as_str());
    strings.add(flat.model.whisper.encoder.as_str());
    strings.add(flat.model.whisper.language.as_str());
    strings.add(flat.model.whisper.task.as_str());
    strings.add(flat.model.sense_voice.model.as_str());
    strings.add(flat.model.sense_voice.language.as_str());
    strings.add(flat.model.tokens.as_str());
    strings.add(flat.decoding_method.as_str());
    assert(strings.entries() =~= old(strings).entries() + recognizer_staged(*flat));
}

// ---------------------------------------------------------------------------
// Audio tagging: fixed-shape configuration
// ---------------------------------------------------------------------------

/// The model section of the tagging configuration.  The zipformer and ced
/// backends are mutually exclusive; the engine takes an empty path, not a
/// null pointer, for the one not in use.
pub struct TaggingModelConfig {
    pub zipformer_model: String,
    pub ced: String,
    pub num_threads: i32,
    pub debug: i32,
    pub provider: String,
}

/// Exactly one tagging backend carries a model path.
pub open spec fn exactly_one_tagging_backend(m: TaggingModelConfig) -> bool {
    (m.zipformer_model@.len() > 0 && m.ced@.len() == 0) || (m.zipformer_model@.len() == 0
        && m.ced@.len() > 0)
}

/// The full fixed-shape tagging configuration handed to the create call.
pub struct TaggingConfig {
    pub model: TaggingModelConfig,
    pub labels: String,
    pub top_k: i32,
}

/// Assemble the tagging configuration: caller data into the zipformer and
/// ced paths, documented defaults (one thread, default provider, debug off)
/// for the overrides left unset.
pub fn build_tagging_config(cfg: AudioTagConfig, default_provider: &str) -> (flat: TaggingConfig)
    ensures
        flat.model.zipformer_model@ == cfg.model@,
        flat.model.ced@ == text_or_empty(cfg.ced),
        flat.model.num_threads == threads_choice(cfg.num_threads, 1),
        flat.model.debug == debug_flag(cfg.debug),
        flat.model.provider@ == provider_choice(cfg.provider, default_provider@),
        flat.labels@ == cfg.labels@,
        flat.top_k == cfg.top_k,
        cfg.model@.len() > 0 && text_or_empty(cfg.ced).len() == 0 ==> exactly_one_tagging_backend(
            flat.model,
        ),
        cfg.model@.len() == 0 && text_or_empty(cfg.ced).len() > 0 ==> exactly_one_tagging_backend(
            flat.model,
        ),
{
    let ced: String = match cfg.ced {
        Some(c) => c,
        None => String::new(),
    };
    let provider: String = match cfg.provider {
        Some(p) => p,
        None => String::from_str(default_provider),
    };
    let num_threads: i32 = match cfg.num_threads {
        Some(n) => n,
        None => 1,
    };
    let debug: i32 = match cfg.debug {
        Some(true) => 1,
        _ => 0,
    };
    TaggingConfig {
        model: TaggingModelConfig {
            zipformer_model: cfg.model,
            ced,
            num_threads,
            debug,
            provider,
        },
        labels: cfg.labels,
        top_k: cfg.top_k,
    }
}

/// The marshaled images the tagging configuration references, in staging
/// order.
pub open spec fn tagging_staged(flat: TaggingConfig) -> Seq<Seq<u8>> {
    seq![
        marshaled(flat.model.zipformer_model@),
        marshaled(flat.model.ced@),
        marshaled(flat.labels@),
        marshaled(flat.model.provider@),
    ]
}

/// Marshal every string the tagging configuration references.
pub fn stage_tagging_strings(flat: &TaggingConfig, strings: &mut TransientStrings)
    requires
        !old(strings).is_released(),
        old(strings).wf(),
        text_ok(flat.model.zipformer_model@),
        text_ok(flat.model.ced@),
        text_ok(flat.labels@),
        text_ok(flat.model.provider@),
    ensures
        final(strings).entries() == old(strings).entries() + tagging_staged(*flat),
        !final(strings).is_released(),
        final(strings).wf(),
{
    strings.add(flat.model.zipformer_model.as_str());
    strings.add(flat.model.ced.as_str());
    strings.add(flat.labels.as_str());
    strings.add(flat.model.provider.as_str());
    assert(strings.entries() =~= old(strings).entries() + tagging_staged(*flat));
}

// ---------------------------------------------------------------------------
// Synthesis: fixed-shape configuration
// ---------------------------------------------------------------------------

/// The vits backend slot, zero-filled when unused.
pub struct VitsSlot {
    pub model: Option<String>,
    pub lexicon: Option<String>,
    pub tokens: Option<String>,
    pub data_dir: Option<String>,
    pub noise_scale_bits: u32,
    pub noise_scale_w_bits: u32,
    pub length_scale_bits: u32,
    pub dict_dir: Option<String>,
}

impl VitsSlot {
    pub open spec fn is_unset(&self) -> bool {
        &&& self.model is None
        &&& self.lexicon is None
        &&& self.tokens is None
        &&& self.data_dir is None
        &&& self.noise_scale_bits == 0
        &&& self.noise_scale_w_bits == 0
        &&& self.length_scale_bits == 0
        &&& self.dict_dir is None
    }
}

/// The matcha backend slot, zero-filled when unused.
pub struct MatchaSlot {
    pub acoustic_model: Option<String>,
    pub vocoder: Option<String>,
    pub lexicon: Option<String>,
    pub tokens: Option<String>,
    pub data_dir: Option<String>,
    pub noise_scale_bits: u32,
    pub length_scale_bits: u32,
    pub dict_dir: Option<String>,
}

impl MatchaSlot {
    pub open spec fn is_unset(&self) -> bool {
        &&& self.acoustic_model is None
        &&& self.vocoder is None
        &&& self.lexicon is None
        &&& self.tokens is None
        &&& self.data_dir is None
        &&& self.noise_scale_bits == 0
        &&& self.length_scale_bits == 0
        &&& self.dict_dir is None
    }
}

/// The kokoro backend slot, zero-filled when unused.
pub struct KokoroSlot {
    pub model: Option<String>,
    pub voices: Option<String>,
    pub tokens: Option<String>,
    pub data_dir: Option<String>,
    pub length_scale_bits: u32,
    pub dict_dir: Option<String>,
    pub lexicon: Option<String>,
    pub lang: Option<String>,
}

impl KokoroSlot {
    pub open spec fn is_unset(&self) -> bool {
        &&& self.model is None
        &&& self.voices is None
        &&& self.tokens is None
        &&& self.data_dir is None
        &&& self.length_scale_bits == 0
        &&& self.dict_dir is None
        &&& self.lexicon is None
        &&& self.lang is None
    }
}

/// The kitten backend slot, zero-filled when unused.
pub struct KittenSlot {
    pub model: Option<String>,
    pub voices: Option<String>,
    pub tokens: Option<String>,
    pub data_dir: Option<String>,
    pub length_scale_bits: u32,
}

impl KittenSlot {
    pub open spec fn is_unset(&self) -> bool {
        &&& self.model is None
        &&& self.voices is None
        &&& self.tokens is None
        &&& self.data_dir is None
        &&& self.length_scale_bits == 0
    }
}

/// The zipvoice backend slot.
pub struct ZipvoiceSlot {
    pub tokens: String,
    pub text_model: String,
    pub flow_matching_model: String,
    pub vocoder: String,
    pub data_dir: String,
    pub pinyin_dict: String,
    pub feat_scale_bits: u32,
    pub t_shift_bits: u32,
    pub target_rms_bits: u32,
    pub guidance_scale_bits: u32,
}

impl ZipvoiceSlot {
    /// Carries caller data: the model artifacts are present.
    pub open spec fn is_populated(&self) -> bool {
        self.tokens@.len() > 0 && self.text_model@.len() > 0 && self.flow_matching_model@.len()
            > 0 && self.vocoder@.len() > 0
    }
}

/// The model section of the synthesis configuration: one slot per backend.
pub struct TtsModelConfig {
    pub vits: VitsSlot,
    pub matcha: MatchaSlot,
    pub kokoro: KokoroSlot,
    pub kitten: KittenSlot,
    pub zipvoice: ZipvoiceSlot,
    pub num_threads: i32,
    pub debug: i32,
    pub provider: String,
}

/// How many synthesis backend slots carry data.
pub open spec fn populated_tts_backends(m: TtsModelConfig) -> int {
    (if m.zipvoice.is_populated() { 1int } else { 0int })
        + (if !m.vits.is_unset() { 1int } else { 0int })
        + (if !m.matcha.is_unset() { 1int } else { 0int })
        + (if !m.kokoro.is_unset() { 1int } else { 0int })
        + (if !m.kitten.is_unset() { 1int } else { 0int })
}

/// Exactly one synthesis backend slot is non-placeholder.
pub open spec fn exactly_one_tts_backend(m: TtsModelConfig) -> bool {
    populated_tts_backends(m) == 1
}

/// The full fixed-shape synthesis configuration handed to the create call.
pub struct TtsConfig {
    pub model: TtsModelConfig,
    pub rule_fsts: Option<String>,
    pub max_num_sentences: i32,
    pub rule_fars: Option<String>,
    pub silence_scale_bits: u32,
}

/// Assemble the synthesis configuration for a zipvoice model: caller data
/// into the zipvoice slot, the remaining four backend slots zero-filled,
/// and empty rule paths turned into the engine's null pointer.
pub fn build_zipvoice_config(cfg: ZipVoiceTtsConfig) -> (flat: TtsConfig)
    ensures
        flat.model.zipvoice.tokens@ == cfg.tokens@,
        flat.model.zipvoice.text_model@ == cfg.text_model@,
        flat.model.zipvoice.flow_matching_model@ == cfg.flow_matching_model@,
        flat.model.zipvoice.vocoder@ == cfg.vocoder@,
        flat.model.zipvoice.data_dir@ == cfg.data_dir@,
        flat.model.zipvoice.pinyin_dict@ == cfg.pinyin_dict@,
        flat.model.zipvoice.feat_scale_bits == cfg.feat_scale_bits,
        flat.model.zipvoice.t_shift_bits == cfg.t_shift_bits,
        flat.model.zipvoice.target_rms_bits == cfg.target_rms_bits,
        flat.model.zipvoice.guidance_scale_bits == cfg.guidance_scale_bits,
        flat.model.vits.is_unset(),
        flat.model.matcha.is_unset(),
        flat.model.kokoro.is_unset(),
        flat.model.kitten.is_unset(),
        flat.model.num_threads == cfg.onnx_config.num_threads,
        flat.model.debug == debug_flag(Some(cfg.onnx_config.debug)),
        flat.model.provider@ == cfg.onnx_config.provider@,
        cfg.tts_config.rule_fsts@.len() == 0 ==> flat.rule_fsts is None,
        cfg.tts_config.rule_fsts@.len() > 0 ==> (flat.rule_fsts matches Some(s) && s@
            == cfg.tts_config.rule_fsts@),
        cfg.tts_config.rule_fars@.len() == 0 ==> flat.rule_fars is None,
        cfg.tts_config.rule_fars@.len() > 0 ==> (flat.rule_fars matches Some(s) && s@
            == cfg.tts_config.rule_fars@),
        flat.max_num_sentences == cfg.tts_config.max_num_sentences,
        flat.silence_scale_bits == cfg.tts_config.silence_scale_bits,
        cfg.tokens@.len() > 0 && cfg.text_model@.len() > 0 && cfg.flow_matching_model@.len() > 0
            && cfg.vocoder@.len() > 0 ==> exactly_one_tts_backend(flat.model),
{
    let debug: i32 = if cfg.onnx_config.debug {
        1
    } else {
        0
    };
    let rule_fsts: Option<String> = if cfg.tts_config.rule_fsts.as_str().is_empty() {
        None
    } else {
        Some(cfg.tts_config.rule_fsts)
    };
    let rule_fars: Option<String> = if cfg.tts_config.rule_fars.as_str().is_empty() {
        None
    } else {
        Some(cfg.tts_config.rule_fars)
    };
    let model = TtsModelConfig {
        vits: VitsSlot {
            model: None,
            lexicon: None,
            tokens: None,
            data_dir: None,
            noise_scale_bits: 0,
            noise_scale_w_bits: 0,
            length_scale_bits: 0,
            dict_dir: None,
        },
        matcha: MatchaSlot {
            acoustic_model: None,
            vocoder: None,
            lexicon: None,
            tokens: None,
            data_dir: None,
            noise_scale_bits: 0,
            length_scale_bits: 0,
            dict_dir: None,
        },
        kokoro: KokoroSlot {
            model: None,
            voices: None,
            tokens: None,
            data_dir: None,
            length_scale_bits: 0,
            dict_dir: None,
            lexicon: None,
            lang: None,
        },
        kitten: KittenSlot {
            model: None,
            voices: None,
            tokens: None,
            data_dir: None,
            length_scale_bits: 0,
        },
        zipvoice: ZipvoiceSlot {
            tokens: cfg.tokens,
            text_model: cfg.text_model,
            flow_matching_model: cfg.flow_matching_model,
            vocoder: cfg.vocoder,
            data_dir: cfg.data_dir,
            pinyin_dict: cfg.pinyin_dict,
            feat_scale_bits: cfg.feat_scale_bits,
            t_shift_bits: cfg.t_shift_bits,
            target_rms_bits: cfg.target_rms_bits,
            guidance_scale_bits: cfg.guidance_scale_bits,
        },
        num_threads: cfg.onnx_config.num_threads,
        debug,
        provider: cfg.onnx_config.provider,
    };
    TtsConfig {
        model,
        rule_fsts,
        max_num_sentences: cfg.tts_config.max_num_sentences,
        rule_fars,
        silence_scale_bits: cfg.tts_config.silence_scale_bits,
    }
}

/// The marshaled images the synthesis configuration references, in staging
/// order: the zipvoice artifacts, the provider, then each rule path that is
/// set.
pub open spec fn zipvoice_staged(flat: TtsConfig) -> Seq<Seq<u8>> {
    let base = seq![
        marshaled(flat.model.zipvoice.tokens@),
        marshaled(flat.model.zipvoice.text_model@),
        marshaled(flat.model.zipvoice.flow_matching_model@),
        marshaled(flat.model.zipvoice.vocoder@),
        marshaled(flat.model.zipvoice.data_dir@),
        marshaled(flat.model.zipvoice.pinyin_dict@),
        marshaled(flat.model.provider@),
    ];
    let with_fsts = match flat.rule_fsts {
        Some(s) => base.push(marshaled(s@)),
        None => base,
    };
    match flat.rule_fars {
        Some(s) => with_fsts.push(marshaled(s@)),
        None => with_fsts,
    }
}

/// Marshal every string the synthesis configuration references.
pub fn stage_zipvoice_strings(flat: &TtsConfig, strings: &mut TransientStrings)
    requires
        !old(strings).is_released(),
        old(strings).wf(),
        text_ok(flat.model.zipvoice.tokens@),
        text_ok(flat.model.zipvoice.text_model@),
        text_ok(flat.model.zipvoice.flow_matching_model@),
        text_ok(flat.model.zipvoice.vocoder@),
        text_ok(flat.model.zipvoice.data_dir@),
        text_ok(flat.model.zipvoice.pinyin_dict@),
        text_ok(flat.model.provider@),
        flat.rule_fsts matches Some(s) ==> text_ok(s@),
        flat.rule_fars matches Some(s) ==> text_ok(s@),
    ensures
        final(strings).entries() == old(strings).entries() + zipvoice_staged(*flat),
        !final(strings).is_released(),
        final(strings).wf(),
{
    strings.add(flat.model.zipvoice.tokens.as_str());
    strings.add(flat.model.zipvoice.text_model.as_str());
    strings.add(flat.model.zipvoice.flow_matching_model.as_str());
    strings.add(flat.model.zipvoice.vocoder.as_str());
    strings.add(flat.model.zipvoice.data_dir.as_str());
    strings.add(flat.model.zipvoice.pinyin_dict.as_str());
    strings.add(flat.model.provider.as_str());
    match &flat.rule_fsts {
        Some(s) => {
            strings.add(s.as_str());
        },
        None => {},
    }
    match &flat.rule_fars {
        Some(s) => {
            strings.add(s.as_str());
        },
        None => {},
    }
    assert(strings.entries() =~= old(strings).entries() + zipvoice_staged(*flat));
}

} // verus!
