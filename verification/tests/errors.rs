use fastembed_bridge::c_text::holds_nul;
use fastembed_bridge::{
    batch_option, fastembed_error_free, model_identifier, or_failure, report, ErrorKind,
    FastEmbedError,
};

#[test]
fn from_string_keeps_a_plain_message() {
    let e = FastEmbedError::from_string(ErrorKind::InferenceFailure, "went wrong".to_string());
    assert_eq!(e.kind, ErrorKind::InferenceFailure);
    assert_eq!(e.message, "went wrong");
}

#[test]
fn from_string_keeps_the_empty_message() {
    let e = FastEmbedError::from_string(ErrorKind::NullArgument, String::new());
    assert_eq!(e.message, "");
}

#[test]
fn from_string_replaces_a_message_with_a_nul() {
    let e = FastEmbedError::from_string(ErrorKind::InferenceFailure, "went\0wrong".to_string());
    assert_eq!(e.kind, ErrorKind::InferenceFailure);
    assert_eq!(e.message, "Invalid error message");
}

#[test]
fn with_detail_joins_prefix_and_detail() {
    let e = FastEmbedError::with_detail(ErrorKind::ModelResolutionFailure, "Failed: ", "no file");
    assert_eq!(e.kind, ErrorKind::ModelResolutionFailure);
    assert_eq!(e.message, "Failed: no file");
}

#[test]
fn with_detail_replaces_a_detail_with_a_nul() {
    let e = FastEmbedError::with_detail(ErrorKind::InferenceFailure, "Failed: ", "a\0b");
    assert_eq!(e.message, "Invalid error message");
}

#[test]
fn null_argument_has_its_message() {
    let e = FastEmbedError::null_argument();
    assert_eq!(e.kind, ErrorKind::NullArgument);
    assert_eq!(e.message, "Null pointer provided");
}

#[test]
fn holds_nul_finds_the_terminator() {
    assert!(!holds_nul(""));
    assert!(!holds_nul("plain text"));
    assert!(holds_nul("\0"));
    assert!(holds_nul("at the end\0"));
    assert!(holds_nul("in \0 between"));
}

#[test]
fn report_fills_an_empty_slot() {
    let mut slot: Option<Box<FastEmbedError>> = None;
    report(Some(&mut slot), FastEmbedError::null_argument());
    let held = slot.unwrap();
    assert_eq!(held.kind, ErrorKind::NullArgument);
    assert_eq!(held.message, "Null pointer provided");
}

#[test]
fn report_replaces_what_the_slot_held() {
    let mut slot = Some(FastEmbedError::from_string(ErrorKind::NullElement, "old".to_string()));
    report(
        Some(&mut slot),
        FastEmbedError::from_string(ErrorKind::InferenceFailure, "new".to_string()),
    );
    let held = slot.unwrap();
    assert_eq!(held.kind, ErrorKind::InferenceFailure);
    assert_eq!(held.message, "new");
}

#[test]
fn report_without_a_slot_does_nothing() {
    report(None, FastEmbedError::null_argument());
}

#[test]
fn error_free_tells_null_from_live() {
    assert!(!fastembed_error_free(None));
    assert!(fastembed_error_free(Some(FastEmbedError::null_argument())));
}

#[test]
fn or_failure_passes_success_on() {
    let r = or_failure(Ok::<u32, String>(7), ErrorKind::InferenceFailure, "Failed: ");
    assert_eq!(r.ok().unwrap(), 7);
}

#[test]
fn or_failure_words_the_failure() {
    let r = or_failure(
        Err::<u32, String>("disk full".to_string()),
        ErrorKind::ModelResolutionFailure,
        "Failed to create text embedding: ",
    );
    let e = r.err().unwrap();
    assert_eq!(e.kind, ErrorKind::ModelResolutionFailure);
    assert_eq!(e.message, "Failed to create text embedding: disk full");
}

#[test]
fn batch_option_reads_zero_as_the_engines_choice() {
    assert_eq!(batch_option(0), None);
}

#[test]
fn batch_option_passes_any_positive_size_on() {
    assert_eq!(batch_option(1), Some(1));
    assert_eq!(batch_option(256), Some(256));
    assert_eq!(batch_option(usize::MAX), Some(usize::MAX));
}

#[test]
fn model_identifier_falls_back_to_the_default() {
    let name = model_identifier(None, "BAAI/bge-small-en-v1.5").ok().unwrap();
    assert_eq!(name, "BAAI/bge-small-en-v1.5");
}

#[test]
fn model_identifier_reads_the_callers_bytes() {
    let name = model_identifier(Some(b"BGEBaseENV15"), "BAAI/bge-small-en-v1.5").ok().unwrap();
    assert_eq!(name, "BGEBaseENV15");
}

#[test]
fn model_identifier_rejects_bad_bytes() {
    let e = model_identifier(Some(&[0x42, 0xff]), "default").err().unwrap();
    assert_eq!(e.kind, ErrorKind::InvalidEncoding);
    assert_eq!(e.message, "Invalid model name: invalid utf-8 sequence of 1 bytes from index 1");
}
