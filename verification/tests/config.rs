use sherpa_rs::config::{
    build_recognizer_config, build_tagging_config, build_zipvoice_config, stage_recognizer_strings,
    stage_tagging_strings, stage_zipvoice_strings, AudioTagConfig, CommonTtsConfig, OnnxConfig,
    WhisperConfig, ZipVoiceTtsConfig,
};
use sherpa_rs::marshal::TransientStrings;

#[test]
fn whisper_defaults_match_documentation() {
    let c = WhisperConfig::default();
    assert_eq!(c.decoder, "");
    assert_eq!(c.encoder, "");
    assert_eq!(c.tokens, "");
    assert_eq!(c.language, "en");
    assert!(c.debug.is_none());
    assert!(c.provider.is_none());
    assert_eq!(c.num_threads, Some(1));
    assert!(c.bpe_vocab.is_none());
}

#[test]
fn whisper_build_fills_only_the_whisper_slot() {
    let cfg = WhisperConfig {
        decoder: "tiny-decoder.onnx".into(),
        encoder: "tiny-encoder.onnx".into(),
        tokens: "tiny-tokens.txt".into(),
        language: "en".into(),
        debug: Some(true),
        provider: None,
        num_threads: None,
        bpe_vocab: None,
    };
    let flat = build_recognizer_config(cfg, "cpu");
    assert_eq!(flat.model.whisper.encoder, "tiny-encoder.onnx");
    assert_eq!(flat.model.whisper.decoder, "tiny-decoder.onnx");
    assert_eq!(flat.model.whisper.language, "en");
    assert_eq!(flat.model.whisper.task, "transcribe");
    assert_eq!(flat.model.whisper.tail_paddings, 0);
    // every other backend slot stays at its zero placeholder
    assert!(flat.model.transducer.encoder.is_none());
    assert!(flat.model.transducer.decoder.is_none());
    assert!(flat.model.transducer.joiner.is_none());
    assert!(flat.model.paraformer.model.is_none());
    assert!(flat.model.nemo_ctc.model.is_none());
    assert!(flat.model.tdnn.model.is_none());
    assert_eq!(flat.model.sense_voice.model, "");
    assert_eq!(flat.model.sense_voice.language, "");
    assert_eq!(flat.model.sense_voice.use_itn, 0);
    assert!(flat.model.telespeech_ctc.is_none());
    // documented defaults
    assert_eq!(flat.model.num_threads, 2);
    assert_eq!(flat.model.debug, 1);
    assert_eq!(flat.model.provider, "cpu");
    assert_eq!(flat.model.tokens, "tiny-tokens.txt");
    assert_eq!(flat.model.bpe_vocab, "");
    assert_eq!(flat.feat.sample_rate, 16000);
    assert_eq!(flat.feat.feature_dim, 512);
    assert_eq!(flat.decoding_method, "greedy_search");
    assert_eq!(flat.max_active_paths, 0);
    assert!(flat.hotwords_file.is_none());
    assert_eq!(flat.hotwords_score_bits, 0);
    assert!(flat.rule_fsts.is_none());
    assert!(flat.rule_fars.is_none());
    assert_eq!(flat.blank_penalty_bits, 0);
}

#[test]
fn whisper_overrides_beat_defaults() {
    let cfg = WhisperConfig {
        decoder: "d".into(),
        encoder: "e".into(),
        tokens: "t".into(),
        language: "de".into(),
        debug: Some(false),
        provider: Some("cuda".into()),
        num_threads: Some(7),
        bpe_vocab: Some("vocab.txt".into()),
    };
    let flat = build_recognizer_config(cfg, "cpu");
    assert_eq!(flat.model.provider, "cuda");
    assert_eq!(flat.model.num_threads, 7);
    assert_eq!(flat.model.debug, 0);
    assert_eq!(flat.model.bpe_vocab, "vocab.txt");
}

#[test]
fn recognizer_strings_staged_in_call_order() {
    let cfg = WhisperConfig {
        decoder: "d.onnx".into(),
        encoder: "e.onnx".into(),
        tokens: "t.txt".into(),
        language: "en".into(),
        debug: None,
        provider: None,
        num_threads: None,
        bpe_vocab: None,
    };
    let flat = build_recognizer_config(cfg, "cpu");
    let mut pool = TransientStrings::new();
    stage_recognizer_strings(&flat, &mut pool);
    assert_eq!(pool.len(), 10);
    assert_eq!(pool.entry(0).as_bytes(), &b"cpu\0".to_vec());
    assert_eq!(pool.entry(1).as_bytes(), &b"\0".to_vec());
    assert_eq!(pool.entry(2).as_bytes(), &b"d.onnx\0".to_vec());
    assert_eq!(pool.entry(3).as_bytes(), &b"e.onnx\0".to_vec());
    assert_eq!(pool.entry(4).as_bytes(), &b"en\0".to_vec());
    assert_eq!(pool.entry(5).as_bytes(), &b"transcribe\0".to_vec());
    assert_eq!(pool.entry(6).as_bytes(), &b"\0".to_vec());
    assert_eq!(pool.entry(7).as_bytes(), &b"\0".to_vec());
    assert_eq!(pool.entry(8).as_bytes(), &b"t.txt\0".to_vec());
    assert_eq!(pool.entry(9).as_bytes(), &b"greedy_search\0".to_vec());
}

#[test]
fn tagging_build_uses_zipformer_and_defaults() {
    let cfg = AudioTagConfig {
        model: "zipformer.onnx".into(),
        labels: "labels.csv".into(),
        top_k: 5,
        debug: None,
        num_threads: None,
        provider: None,
        ced: None,
    };
    let flat = build_tagging_config(cfg, "cpu");
    assert_eq!(flat.model.zipformer_model, "zipformer.onnx");
    assert_eq!(flat.model.ced, "");
    assert_eq!(flat.model.num_threads, 1);
    assert_eq!(flat.model.debug, 0);
    assert_eq!(flat.model.provider, "cpu");
    assert_eq!(flat.labels, "labels.csv");
    assert_eq!(flat.top_k, 5);
}

#[test]
fn tagging_ced_backend_fills_only_ced() {
    let cfg = AudioTagConfig {
        model: String::new(),
        labels: "labels.csv".into(),
        top_k: 3,
        debug: Some(true),
        num_threads: Some(4),
        provider: Some("cuda".into()),
        ced: Some("ced.onnx".into()),
    };
    let flat = build_tagging_config(cfg, "cpu");
    assert_eq!(flat.model.zipformer_model, "");
    assert_eq!(flat.model.ced, "ced.onnx");
    assert_eq!(flat.model.num_threads, 4);
    assert_eq!(flat.model.debug, 1);
    assert_eq!(flat.model.provider, "cuda");
}

#[test]
fn tagging_strings_staged_in_call_order() {
    let cfg = AudioTagConfig {
        model: "m.onnx".into(),
        labels: "l.csv".into(),
        top_k: 2,
        debug: None,
        num_threads: None,
        provider: None,
        ced: None,
    };
    let flat = build_tagging_config(cfg, "cpu");
    let mut pool = TransientStrings::new();
    stage_tagging_strings(&flat, &mut pool);
    assert_eq!(pool.len(), 4);
    assert_eq!(pool.entry(0).as_bytes(), &b"m.onnx\0".to_vec());
    assert_eq!(pool.entry(1).as_bytes(), &b"\0".to_vec());
    assert_eq!(pool.entry(2).as_bytes(), &b"l.csv\0".to_vec());
    assert_eq!(pool.entry(3).as_bytes(), &b"cpu\0".to_vec());
}

#[test]
fn zipvoice_build_fills_only_the_zipvoice_slot() {
    let cfg = ZipVoiceTtsConfig {
        tokens: "tokens.txt".into(),
        text_model: "text_encoder.onnx".into(),
        flow_matching_model: "fm_decoder.onnx".into(),
        vocoder: "vocos.onnx".into(),
        data_dir: "espeak-ng-data".into(),
        pinyin_dict: "pinyin.raw".into(),
        feat_scale_bits: 1.0f32.to_bits(),
        t_shift_bits: 1.0f32.to_bits(),
        target_rms_bits: 0.5f32.to_bits(),
        guidance_scale_bits: 1.0f32.to_bits(),
        onnx_config: OnnxConfig { provider: "cpu".into(), num_threads: 2, debug: false },
        tts_config: CommonTtsConfig {
            rule_fsts: String::new(),
            rule_fars: String::new(),
            max_num_sentences: 0,
            silence_scale_bits: 0,
        },
    };
    let flat = build_zipvoice_config(cfg);
    assert_eq!(flat.model.zipvoice.tokens, "tokens.txt");
    assert_eq!(flat.model.zipvoice.text_model, "text_encoder.onnx");
    assert_eq!(flat.model.zipvoice.flow_matching_model, "fm_decoder.onnx");
    assert_eq!(flat.model.zipvoice.vocoder, "vocos.onnx");
    assert_eq!(flat.model.zipvoice.data_dir, "espeak-ng-data");
    assert_eq!(flat.model.zipvoice.pinyin_dict, "pinyin.raw");
    assert_eq!(flat.model.zipvoice.feat_scale_bits, 1.0f32.to_bits());
    assert_eq!(flat.model.zipvoice.target_rms_bits, 0.5f32.to_bits());
    // the four unused synthesis backends are zero-filled
    assert!(flat.model.vits.model.is_none());
    assert!(flat.model.vits.lexicon.is_none());
    assert!(flat.model.vits.tokens.is_none());
    assert!(flat.model.vits.data_dir.is_none());
    assert_eq!(flat.model.vits.noise_scale_bits, 0);
    assert_eq!(flat.model.vits.noise_scale_w_bits, 0);
    assert_eq!(flat.model.vits.length_scale_bits, 0);
    assert!(flat.model.vits.dict_dir.is_none());
    assert!(flat.model.matcha.acoustic_model.is_none());
    assert!(flat.model.matcha.vocoder.is_none());
    assert!(flat.model.kokoro.model.is_none());
    assert!(flat.model.kokoro.voices.is_none());
    assert!(flat.model.kitten.model.is_none());
    assert!(flat.model.kitten.voices.is_none());
    // empty rule paths become the engine's null pointer
    assert!(flat.rule_fsts.is_none());
    assert!(flat.rule_fars.is_none());
    assert_eq!(flat.model.num_threads, 2);
    assert_eq!(flat.model.debug, 0);
    assert_eq!(flat.model.provider, "cpu");
}

#[test]
fn zipvoice_rule_paths_survive_when_set() {
    let cfg = ZipVoiceTtsConfig {
        tokens: "t".into(),
        text_model: "tm".into(),
        flow_matching_model: "fm".into(),
        vocoder: "v".into(),
        data_dir: "d".into(),
        pinyin_dict: "p".into(),
        feat_scale_bits: 0,
        t_shift_bits: 0,
        target_rms_bits: 0,
        guidance_scale_bits: 0,
        onnx_config: OnnxConfig::default(),
        tts_config: CommonTtsConfig {
            rule_fsts: "rules.fst".into(),
            rule_fars: "rules.far".into(),
            max_num_sentences: 1,
            silence_scale_bits: 0,
        },
    };
    let flat = build_zipvoice_config(cfg);
    assert_eq!(flat.rule_fsts.as_deref(), Some("rules.fst"));
    assert_eq!(flat.rule_fars.as_deref(), Some("rules.far"));
    let mut pool = TransientStrings::new();
    stage_zipvoice_strings(&flat, &mut pool);
    assert_eq!(pool.len(), 9);
    assert_eq!(pool.entry(0).as_bytes(), &b"t\0".to_vec());
    assert_eq!(pool.entry(6).as_bytes(), &b"\0".to_vec());
    assert_eq!(pool.entry(7).as_bytes(), &b"rules.fst\0".to_vec());
    assert_eq!(pool.entry(8).as_bytes(), &b"rules.far\0".to_vec());
}
