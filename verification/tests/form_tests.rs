use groq_transcribe::form::{api_key_from_env, api_url, build_form, prepare_request};
use groq_transcribe::wav::encode_wav;
use groq_transcribe::errors::TranscribeError;

#[test]
fn language_auto_is_omitted() {
    let form = build_form(vec![1, 2, 3], Some("auto".to_string()));
    assert_eq!(form.fields.len(), 3);
    assert!(form.fields.iter().all(|f| f.name != "language"));
}

#[test]
fn language_absent_is_omitted() {
    let form = build_form(vec![], None);
    assert_eq!(form.fields.len(), 3);
    assert!(form.fields.iter().all(|f| f.name != "language"));
}

#[test]
fn language_hint_is_forwarded_verbatim() {
    let form = build_form(vec![], Some("es".to_string()));
    assert_eq!(form.fields.len(), 4);
    assert_eq!(form.fields[3].name, "language");
    assert_eq!(form.fields[3].value, "es");
}

#[test]
fn fixed_fields_and_file_metadata() {
    let wav = vec![9, 8, 7];
    let form = build_form(wav.clone(), None);
    assert_eq!(form.wav, wav);
    assert_eq!(form.file_name, "audio.wav");
    assert_eq!(form.mime_type, "audio/wav");
    assert_eq!(form.fields[0].name, "model");
    assert_eq!(form.fields[0].value, "whisper-large-v3");
    assert_eq!(form.fields[1].name, "temperature");
    assert_eq!(form.fields[1].value, "0");
    assert_eq!(form.fields[2].name, "response_format");
    assert_eq!(form.fields[2].value, "json");
}

#[test]
fn missing_key_is_a_configuration_error() {
    match api_key_from_env(None) {
        Err(TranscribeError::ConfigurationError { message }) => {
            assert!(message.contains("GROQ_API_KEY"));
            assert!(message.contains("https://console.groq.com/keys"));
        }
        _ => panic!("a missing key must yield a ConfigurationError"),
    }
}

#[test]
fn present_key_is_returned() {
    match api_key_from_env(Some("k-123".to_string())) {
        Ok(key) => assert_eq!(key, "k-123"),
        Err(_) => panic!("a present key must be accepted"),
    }
}

#[test]
fn prepare_request_fails_before_any_work_without_a_key() {
    let samples: Vec<i16> = vec![1, 2, 3];
    match prepare_request(&samples, Some("es".to_string()), None) {
        Err(TranscribeError::ConfigurationError { .. }) => {}
        _ => panic!("a missing key must yield a ConfigurationError"),
    }
}

#[test]
fn prepare_request_assembles_url_key_and_wav() {
    let samples: Vec<i16> = vec![4, -4, 444];
    let prepared = prepare_request(&samples, None, Some("k-9".to_string())).unwrap();
    assert_eq!(prepared.url, api_url());
    assert_eq!(prepared.url, "https://api.groq.com/openai/v1/audio/transcriptions");
    assert_eq!(prepared.api_key, "k-9");
    assert_eq!(prepared.form.wav, encode_wav(&samples));
    assert_eq!(prepared.form.fields.len(), 3);
}

#[test]
fn non_sentinel_nonempty_language_reaches_the_prepared_form() {
    let samples: Vec<i16> = vec![];
    let prepared = prepare_request(&samples, Some("de".to_string()), Some("k".to_string())).unwrap();
    assert_eq!(prepared.form.fields.len(), 4);
    assert_eq!(prepared.form.fields[3].name, "language");
    assert_eq!(prepared.form.fields[3].value, "de");
}
