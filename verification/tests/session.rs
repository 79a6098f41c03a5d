//! Tests of session construction and the degenerate-content rule.
use altjtalk::{has_speakable_content, AltJTalk, AltJTalkConfig, AltJTalkError};

#[test]
fn invalid_model_path_yields_a_configuration_error() {
    let result = AltJTalk::from_config(AltJTalkConfig {
        dictionary: "/nonexistent/dictionary".to_string(),
        model: "/nonexistent/model.htsvoice".to_string(),
    });
    match result {
        Err(AltJTalkError::ConfigurationError(_)) => {},
        Err(other) => panic!("wrong error kind: {:?}", other),
        Ok(_) => panic!("a session must not exist for an invalid model path"),
    }
}

#[test]
fn invalid_model_content_yields_a_configuration_error() {
    // A path that exists but does not hold a voice model.
    let result = AltJTalk::from_config(AltJTalkConfig {
        dictionary: "/nonexistent/dictionary".to_string(),
        model: "/etc/hostname".to_string(),
    });
    match result {
        Err(AltJTalkError::ConfigurationError(_)) => {},
        Err(other) => panic!("wrong error kind: {:?}", other),
        Ok(_) => panic!("a session must not exist for a malformed model"),
    }
}

#[test]
fn label_sequences_of_up_to_two_labels_have_no_speakable_content() {
    let none: Vec<String> = Vec::new();
    assert!(!has_speakable_content(&none));
    let one = vec!["sil".to_string()];
    assert!(!has_speakable_content(&one));
    let two = vec!["sil".to_string(), "sil".to_string()];
    assert!(!has_speakable_content(&two));
    let three = vec!["sil".to_string(), "a".to_string(), "sil".to_string()];
    assert!(has_speakable_content(&three));
}
