use sherpa_rs::error::Error;
use sherpa_rs::extract::{
    audio_copy_len, check_result_present, check_tag_entry, extract_tags, AudioBuffer,
    WhisperRecognizerResult,
};

#[test]
fn duration_is_floor_of_count_over_rate() {
    let b = AudioBuffer::from_engine(vec![0u32; 32000], 16000);
    assert_eq!(b.duration(), 2);
    let b = AudioBuffer::from_engine(vec![0u32; 16001], 16000);
    assert_eq!(b.duration(), 1);
    let b = AudioBuffer::from_engine(vec![0u32; 15999], 16000);
    assert_eq!(b.duration(), 0);
    let b = AudioBuffer::from_engine(Vec::new(), 24000);
    assert_eq!(b.duration(), 0);
    assert_eq!(b.sample_rate, 24000);
}

#[test]
fn null_result_short_circuits_before_any_field() {
    assert!(matches!(check_result_present(0), Err(Error::NullResult)));
    assert!(check_result_present(0x4000).is_ok());
}

#[test]
fn negative_count_short_circuits_before_buffer_check() {
    // both the count and the buffer pointer are bad: the count decides
    assert!(matches!(audio_copy_len(-1, 0), Err(Error::NegativeCount)));
    assert!(matches!(audio_copy_len(-7, 0x4000), Err(Error::NegativeCount)));
}

#[test]
fn positive_count_with_null_buffer_is_refused() {
    assert!(matches!(audio_copy_len(3, 0), Err(Error::NullBuffer)));
}

#[test]
fn valid_header_yields_the_exact_copy_length() {
    assert_eq!(audio_copy_len(0, 0).unwrap(), 0);
    assert_eq!(audio_copy_len(2048, 0x4000).unwrap(), 2048);
}

#[test]
fn tag_entry_pointer_is_guarded() {
    assert!(matches!(check_tag_entry(0), Err(Error::NullBuffer)));
    assert!(check_tag_entry(0x4000).is_ok());
}

#[test]
fn tags_keep_engine_order_exactly() {
    let names = vec![
        String::from("Music"),
        String::from("Speech"),
        String::from("Animal"),
    ];
    let tags = extract_tags(names, 3).unwrap();
    assert_eq!(tags, vec!["Music", "Speech", "Animal"]);
}

#[test]
fn tag_count_mismatch_is_refused() {
    assert!(matches!(
        extract_tags(vec![String::from("a")], 2),
        Err(Error::NullBuffer)
    ));
    assert!(matches!(extract_tags(Vec::new(), -1), Err(Error::NegativeCount)));
}

#[test]
fn transcript_is_copied_verbatim() {
    let r = WhisperRecognizerResult::from_text(String::from(" the transcript "));
    assert_eq!(r.text, " the transcript ");
}

#[test]
fn every_error_describes_its_stage() {
    let all = [
        Error::ConstructionFailure,
        Error::NullResult,
        Error::NegativeCount,
        Error::NullBuffer,
        Error::EmptySamples,
        Error::InvalidSampleRate,
    ];
    for e in all {
        assert!(!e.describe().is_empty());
    }
}
