//! Interpreting the service's HTTP response: non-success statuses become
//! `RemoteApiError`, a body without the expected string member becomes
//! `DeserializationError`, and a transcription is returned with surrounding
//! whitespace trimmed.

use vstd::prelude::*;
use crate::errors::TranscribeError;

verus! {

/// An HTTP status in the success class.
pub open spec fn spec_is_success_status(status: u16) -> bool {
    200 <= status < 300
}

/// The Unicode white-space characters, the set that surrounding whitespace is
/// trimmed from.
pub open spec fn spec_is_whitespace(c: char) -> bool {
    let u = c as u32;
    ||| u == 0x09
    ||| u == 0x0A
    ||| u == 0x0B
    ||| u == 0x0C
    ||| u == 0x0D
    ||| u == 0x20
    ||| u == 0x85
    ||| u == 0xA0
    ||| u == 0x1680
    ||| (0x2000 <= u && u <= 0x200A)
    ||| u == 0x2028
    ||| u == 0x2029
    ||| u == 0x202F
    ||| u == 0x205F
    ||| u == 0x3000
}

fn is_whitespace_char(c: char) -> (b: bool)
    ensures
        b == spec_is_whitespace(c),
{
    let u = c as u32;
    u == 0x09 || u == 0x0A || u == 0x0B || u == 0x0C || u == 0x0D || u == 0x20 || u == 0x85
        || u == 0xA0 || u == 0x1680 || (0x2000 <= u && u <= 0x200A) || u == 0x2028 || u == 0x2029
        || u == 0x202F || u == 0x205F || u == 0x3000
}

/// The sequence with its leading whitespace removed.
pub open spec fn spec_trim_start(s: Seq<char>) -> Seq<char>
    decreases s.len(),
{
    if s.len() > 0 && spec_is_whitespace(s[0]) {
        spec_trim_start(s.subrange(1, s.len() as int))
    } else {
        s
    }
}

/// The sequence with its trailing whitespace removed.
pub open spec fn spec_trim_end(s: Seq<char>) -> Seq<char>
    decreases s.len(),
{
    if s.len() > 0 && spec_is_whitespace(s.last()) {
        spec_trim_end(s.drop_last())
    } else {
        s
    }
}

/// The sequence with leading and trailing whitespace removed.
pub open spec fn spec_trim(s: Seq<char>) -> Seq<char> {
    spec_trim_end(spec_trim_start(s))
}

proof fn lemma_trim_start_at(s: Seq<char>, i: int)
    requires
        0 <= i <= s.len(),
        forall|k: int| 0 <= k < i ==> spec_is_whitespace(s[k]),
        i == s.len() || !spec_is_whitespace(s[i]),
    ensures
        spec_trim_start(s) == s.subrange(i, s.len() as int),
    decreases i,
{
    if i == 0 {
        assert(s.subrange(0, s.len() as int) =~= s);
    } else {
        let t = s.subrange(1, s.len() as int);
        assert(spec_is_whitespace(s[0]));
        lemma_trim_start_at(t, i - 1);
        assert(t.subrange(i - 1, t.len() as int) =~= s.subrange(i, s.len() as int));
    }
}

proof fn lemma_trim_end_at(s: Seq<char>, j: int)
    requires
        0 <= j <= s.len(),
        forall|k: int| j <= k < s.len() ==> spec_is_whitespace(s[k]),
        j == 0 || !spec_is_whitespace(s[j - 1]),
    ensures
        spec_trim_end(s) == s.subrange(0, j),
    decreases s.len() - j,
{
    if j == s.len() {
        assert(s.subrange(0, j) =~= s);
    } else {
        assert(spec_is_whitespace(s.last()));
        lemma_trim_end_at(s.drop_last(), j);
        assert(s.drop_last().subrange(0, j) =~= s.subrange(0, j));
    }
}

/// Remove leading and trailing whitespace.
pub fn trim_whitespace(s: &str) -> (r: String)
    ensures
        r@ == spec_trim(s@),
{
    let n: usize = s.unicode_len();
    let mut i: usize = 0;
    while i < n && is_whitespace_char(s.get_char(i))
        invariant
            i <= n,
            n == s@.len(),
            forall|k: int| 0 <= k < i ==> spec_is_whitespace(s@[k]),
        decreases n - i,
    {
        i = i + 1;
    }
    let mut j: usize = n;
    while j > i && is_whitespace_char(s.get_char(j - 1))
        invariant
            i <= j <= n,
            n == s@.len(),
            forall|k: int| j <= k < n ==> spec_is_whitespace(s@[k]),
        decreases j,
    {
        j = j - 1;
    }
    let t = s.substring_char(i, j);
    proof {
        lemma_trim_start_at(s@, i as int);
        let m = s@.subrange(i as int, n as int);
        lemma_trim_end_at(m, j - i);
        assert(m.subrange(0, j - i) =~= s@.subrange(i as int, j as int));
    }
    String::from_str(t)
}

/// What reading the string member named `key` out of the JSON document `body`
/// yields; the result is a function of the two texts alone.
pub uninterp spec fn spec_json_string_field(body: Seq<char>, key: Seq<char>) -> Option<Seq<char>>;

/// Relies on serde_json::from_str, serde_json::Value::get and the
/// Value::String variant: parsing a JSON document and reading one string
/// member of its top-level object is a function of the two texts alone.
#[verifier::external_body]
fn json_string_field(body: &str, key: &str) -> (r: Option<String>)
    ensures
        r is Some <==> spec_json_string_field(body@, key@) is Some,
        r is Some ==> r->0@ == spec_json_string_field(body@, key@)->0,
{
    match serde_json::from_str::<serde_json::Value>(body) {
        Ok(v) => match v.get(key) {
            Some(serde_json::Value::String(t)) => Some(t.clone()),
            _ => None,
        },
        Err(_) => None,
    }
}

/// Turn the extracted transcription member, if any, into the final result:
/// the text trimmed of surrounding whitespace, or a `DeserializationError`
/// when the member was absent.
pub fn parsed_text_to_result(parsed: Option<String>) -> (r: Result<String, TranscribeError>)
    ensures
        parsed is Some ==> r is Ok && r->Ok_0@ == spec_trim(parsed->0@),
        parsed is None ==> (r matches Err(TranscribeError::DeserializationError { message })
            && message@ == "response body lacks a text member"@),
{
    match parsed {
        Some(text) => Ok(trim_whitespace(text.as_str())),
        None => Err(TranscribeError::DeserializationError {
            message: String::from_str("response body lacks a text member"),
        }),
    }
}

/// Interpret one HTTP response: a non-success status yields a
/// `RemoteApiError` carrying that status and the body verbatim; a success
/// whose body lacks the text member yields a `DeserializationError`; a
/// success with the member yields the trimmed text.
pub fn interpret_response(status: u16, body: String) -> (r: Result<String, TranscribeError>)
    ensures
        !spec_is_success_status(status) ==> (r matches Err(
            TranscribeError::RemoteApiError { status: st, body: b },
        ) && st == status && b@ == body@),
        spec_is_success_status(status) && spec_json_string_field(body@, "text"@) is Some ==> r
            is Ok && r->Ok_0@ == spec_trim(spec_json_string_field(body@, "text"@)->0),
        spec_is_success_status(status) && spec_json_string_field(body@, "text"@) is None ==> (
        r matches Err(TranscribeError::DeserializationError { .. })),
{
    if !(200 <= status && status < 300) {
        return Err(TranscribeError::RemoteApiError { status, body });
    }
    let parsed = json_string_field(body.as_str(), "text");
    parsed_text_to_result(parsed)
}

} // verus!
