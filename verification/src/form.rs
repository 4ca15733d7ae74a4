//! Building the transcription request: API-key resolution and the multipart
//! form description (file part metadata plus text fields). The caller turns
//! this description into an actual HTTP request; everything decided here is
//! verified.

use vstd::prelude::*;
use crate::errors::TranscribeError;
use crate::wav::{MAX_WAV_SAMPLES, samples_to_wav, spec_wav_bytes};

verus! {

/// One text field of the multipart form.
pub struct TextField {
    pub name: String,
    pub value: String,
}

/// The multipart form to submit: WAV bytes as the file part, plus the text
/// fields in order.
pub struct TranscriptionForm {
    pub wav: Vec<u8>,
    pub file_name: String,
    pub mime_type: String,
    pub fields: Vec<TextField>,
}

/// Everything needed to issue the HTTP call.
pub struct PreparedRequest {
    pub url: String,
    pub api_key: String,
    pub form: TranscriptionForm,
}

/// A language hint is forwarded exactly when one was given and it is not the
/// auto-detection sentinel.
pub open spec fn spec_language_included(language: Option<String>) -> bool {
    &&& language is Some
    &&& language->0@ != "auto"@
}

/// The form for the given WAV bytes and language hint: file part named
/// "audio.wav" with MIME "audio/wav", then the fixed model, temperature and
/// response-format fields, then the language field exactly when included.
pub open spec fn spec_is_transcription_form(
    f: TranscriptionForm,
    wav: Seq<u8>,
    language: Option<String>,
) -> bool {
    &&& f.wav@ == wav
    &&& f.file_name@ == "audio.wav"@
    &&& f.mime_type@ == "audio/wav"@
    &&& f.fields@.len() == (if spec_language_included(language) {
        4int
    } else {
        3int
    })
    &&& f.fields@[0].name@ == "model"@
    &&& f.fields@[0].value@ == "whisper-large-v3"@
    &&& f.fields@[1].name@ == "temperature"@
    &&& f.fields@[1].value@ == "0"@
    &&& f.fields@[2].name@ == "response_format"@
    &&& f.fields@[2].value@ == "json"@
    &&& (spec_language_included(language) ==> f.fields@[3].name@ == "language"@
        && f.fields@[3].value@ == language->0@)
}

/// The remediation hint returned when the API key is not configured.
pub open spec fn spec_missing_key_message() -> Seq<char> {
    "GROQ_API_KEY environment variable not set. Please set it with your Groq API key from https://console.groq.com/keys"@
}

/// The fixed endpoint of the transcription service.
pub fn api_url() -> (r: &'static str)
    ensures
        r@ == "https://api.groq.com/openai/v1/audio/transcriptions"@,
{
    "https://api.groq.com/openai/v1/audio/transcriptions"
}

/// Turn the environment's value of the API-key variable into a key, or a
/// `ConfigurationError` carrying a remediation hint when it is unset.
pub fn api_key_from_env(value: Option<String>) -> (r: Result<String, TranscribeError>)
    ensures
        value is Some ==> r is Ok && r->Ok_0@ == value->0@,
        value is None ==> (r matches Err(TranscribeError::ConfigurationError { message }) &&
            message@ == spec_missing_key_message()),
{
    match value {
        Some(key) => Ok(key),
        None => Err(TranscribeError::ConfigurationError {
            message: String::from_str(
                "GROQ_API_KEY environment variable not set. Please set it with your Groq API key from https://console.groq.com/keys",
            ),
        }),
    }
}

/// Assemble the multipart form description for the given WAV bytes and
/// optional language hint.
pub fn build_form(wav: Vec<u8>, language: Option<String>) -> (f: TranscriptionForm)
    ensures
        spec_is_transcription_form(f, wav@, language),
{
    let mut fields: Vec<TextField> = Vec::new();
    fields.push(TextField {
        name: String::from_str("model"),
        value: String::from_str("whisper-large-v3"),
    });
    fields.push(TextField {
        name: String::from_str("temperature"),
        value: String::from_str("0"),
    });
    fields.push(TextField {
        name: String::from_str("response_format"),
        value: String::from_str("json"),
    });
    let auto: String = String::from_str("auto");
    match language {
        Some(lang) => {
            if !(lang == auto) {
                fields.push(TextField { name: String::from_str("language"), value: lang });
            }
        },
        None => {},
    }
    TranscriptionForm {
        wav,
        file_name: String::from_str("audio.wav"),
        mime_type: String::from_str("audio/wav"),
        fields,
    }
}

/// Prepare a complete request: resolve the API key first (no request exists
/// without one), then encode the samples and assemble the form.
pub fn prepare_request(
    samples: &Vec<i16>,
    language: Option<String>,
    api_key_env: Option<String>,
) -> (r: Result<PreparedRequest, TranscribeError>)
    ensures
        api_key_env is None ==> (r matches Err(TranscribeError::ConfigurationError { message })
            && message@ == spec_missing_key_message()),
        api_key_env is Some && samples@.len() > MAX_WAV_SAMPLES ==> (r matches Err(
            TranscribeError::EncodingError { .. },
        )),
        api_key_env is Some && samples@.len() <= MAX_WAV_SAMPLES ==> r is Ok && ({
            &&& r->Ok_0.url@ == "https://api.groq.com/openai/v1/audio/transcriptions"@
            &&& r->Ok_0.api_key@ == api_key_env->0@
            &&& spec_is_transcription_form(r->Ok_0.form, spec_wav_bytes(samples@), language)
        }),
{
    let api_key = match api_key_from_env(api_key_env) {
        Ok(key) => key,
        Err(e) => {
            return Err(e);
        },
    };
    let wav = match samples_to_wav(samples) {
        Ok(bytes) => bytes,
        Err(e) => {
            return Err(e);
        },
    };
    let form = build_form(wav, language);
    Ok(PreparedRequest { url: String::from_str(api_url()), api_key, form })
}

/// The submitted form omits the language field when the hint is absent or the
/// auto-detection sentinel, and carries it verbatim otherwise.
pub proof fn lemma_language_field_presence(
    f: TranscriptionForm,
    wav: Seq<u8>,
    language: Option<String>,
)
    requires
        spec_is_transcription_form(f, wav, language),
    ensures
        !spec_language_included(language) ==> forall|i: int|
            0 <= i < f.fields@.len() ==> f.fields@[i].name@ != "language"@,
        spec_language_included(language) ==> exists|i: int|
            0 <= i < f.fields@.len() && f.fields@[i].name@ == "language"@
                && f.fields@[i].value@ == language->0@,
{
    reveal_strlit("model");
    reveal_strlit("temperature");
    reveal_strlit("response_format");
    reveal_strlit("language");
    if spec_language_included(language) {
        assert(f.fields@[3].name@ == "language"@);
    } else {
        assert("model"@.len() == 5);
        assert("temperature"@.len() == 11);
        assert("response_format"@.len() == 15);
        assert("language"@.len() == 8);
        assert(f.fields@[0].name@ != "language"@);
        assert(f.fields@[1].name@ != "language"@);
        assert(f.fields@[2].name@ != "language"@);
        assert forall|i: int| 0 <= i < f.fields@.len() implies f.fields@[i].name@
            != "language"@ by {
            assert(i == 0 || i == 1 || i == 2);
        }
    }
}

} // verus!
