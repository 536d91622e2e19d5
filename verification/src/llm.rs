//! The language model's assessment: finding the JSON object in its reply and
//! the parts of it that the library reads.

use vstd::prelude::*;
use crate::json::{
    as_text, json_as_str, json_document, json_error_text, json_member, json_text_valid, member,
    read_json, JsonError,
};
use crate::text::{chars_of, string_from_chars};

verus! {

/// The model's assessment of one ticker: a score out of a hundred and the
/// reason given for it.
#[derive(Clone, Debug)]
pub struct LlmSignal {
    pub score: u8,
    pub explanation: String,
}

/// Whether `i` is the first position of `c` in `s`.
pub open spec fn first_at(s: Seq<char>, c: char, i: int) -> bool {
    &&& 0 <= i < s.len()
    &&& s[i] == c
    &&& forall|j: int| 0 <= j < i ==> s[j] != c
}

/// Whether `i` is the last position of `c` in `s`.
pub open spec fn last_at(s: Seq<char>, c: char, i: int) -> bool {
    &&& 0 <= i < s.len()
    &&& s[i] == c
    &&& forall|j: int| i < j < s.len() ==> s[j] != c
}

/// Whether the reply has an opening and a closing brace at all.
pub open spec fn has_braces(s: Seq<char>) -> bool {
    s.contains('{') && s.contains('}')
}

/// Whether the span from the first `{` to the last `}` can be cut out: the
/// last `}` stands at most one place before the first `{` (where it stands
/// just before, the span is empty).
pub open spec fn span_cuttable(s: Seq<char>) -> bool {
    forall|a: int, b: int| first_at(s, '{', a) && last_at(s, '}', b) ==> a <= b + 1
}

/// The positions of the first `{` and of the last `}` in `text`, where it
/// has both.
pub fn json_bounds(text: &str) -> (r: Option<(usize, usize)>)
    ensures
        r is None <==> !has_braces(text@),
        r matches Some((a, b)) ==> first_at(text@, '{', a as int) && last_at(text@, '}', b as int),
{
    let v = chars_of(text);
    let mut a: usize = 0;
    while a < v.len() && v[a] != '{'
        invariant
            a <= v.len(),
            v@ == text@,
            forall|j: int| 0 <= j < a ==> v@[j] != '{',
        decreases v.len() - a,
    {
        a = a + 1;
    }
    if a == v.len() {
        return None;
    }
    let mut b: usize = v.len();
    while b > 0 && v[b - 1] != '}'
        invariant
            b <= v.len(),
            v@ == text@,
            forall|j: int| b <= j < v.len() ==> v@[j] != '}',
        decreases b,
    {
        b = b - 1;
    }
    if b == 0 {
        return None;
    }
    assert(text@[a as int] == '{');
    assert(text@[b - 1] == '}');
    Some((a, b - 1))
}

/// The text from the first `{` to the last `}` of `text`, both included:
/// the JSON object that the model was asked to reply with. Nothing where
/// `text` lacks either brace.
pub fn extract_json_object(text: &str) -> (r: Option<String>)
    requires
        span_cuttable(text@),
    ensures
        r is None <==> !has_braces(text@),
        r matches Some(t) ==> exists|a: int, b: int|
            first_at(text@, '{', a) && last_at(text@, '}', b) && t@ == text@.subrange(a, b + 1),
{
    match json_bounds(text) {
        None => None,
        Some((a, b)) => {
            let v = chars_of(text);
            let mut out: Vec<char> = Vec::new();
            let mut k: usize = a;
            while k <= b
                invariant
                    a <= k <= b + 1,
                    b < v.len(),
                    out@ =~= v@.subrange(a as int, k as int),
                decreases b + 1 - k,
            {
                out.push(v[k]);
                k = k + 1;
            }
            let t = string_from_chars(out);
            assert(first_at(text@, '{', a as int) && last_at(text@, '}', b as int)
                && t@ == text@.subrange(a as int, b + 1));
            Some(t)
        },
    }
}

/// The explanation to report: the reply's own where it gave one as text,
/// else `"No explanation"`.
pub fn explanation_or_default(given: Option<String>) -> (r: String)
    ensures
        r@ == match given {
            Some(e) => e@,
            None => "No explanation"@,
        },
{
    match given {
        Some(e) => e,
        None => "No explanation".to_string(),
    }
}


/// Why the model's reply gave no assessment.
#[derive(Clone, Debug, PartialEq, Eq)]
pub enum ReplyError {
    /// The chat response held no message text.
    NoContent,
    /// The reply holds no `{` or no `}`.
    NoJson,
    /// The text from the first `{` to the last `}` is not a JSON document;
    /// `serde_json`'s message.
    Malformed(String),
}

impl ReplyError {
    /// The message this error is reported with.
    pub fn message(&self) -> (r: String)
        ensures
            match *self {
                ReplyError::NoContent => r@ == "No LLM content"@,
                ReplyError::NoJson => r@ == "No JSON"@,
                ReplyError::Malformed(m) => r@ == m@,
            },
    {
        match self {
            ReplyError::NoContent => "No LLM content".to_string(),
            ReplyError::NoJson => "No JSON".to_string(),
            ReplyError::Malformed(m) => m.clone(),
        }
    }
}

/// The message text of a chat response: `response["message"]["content"]`
/// where it is a string.
pub open spec fn content_of(response: serde_json::Value) -> Option<Seq<char>> {
    json_as_str(json_member(json_member(response, "message"@), "content"@))
}

/// The message text of a chat response.
pub fn reply_content(response: &serde_json::Value) -> (r: Result<String, ReplyError>)
    ensures
        match r {
            Ok(t) => content_of(*response) == Some(t@),
            Err(e) => content_of(*response) is None && e == ReplyError::NoContent,
        },
{
    match as_text(member(member(response, "message"), "content")) {
        Some(t) => Ok(t),
        None => Err(ReplyError::NoContent),
    }
}

/// The explanation of a reply document: `doc["explanation"]` where it is a
/// string, else `"No explanation"`.
pub fn reply_explanation(doc: &serde_json::Value) -> (r: String)
    ensures
        r@ == match json_as_str(json_member(*doc, "explanation"@)) {
            Some(e) => e,
            None => "No explanation"@,
        },
{
    explanation_or_default(as_text(member(doc, "explanation")))
}

/// Reads the JSON object in the model's reply: the text from the first
/// `{` to the last `}`, read as a JSON document.
pub fn parse_reply(text: &str) -> (r: Result<serde_json::Value, ReplyError>)
    requires
        span_cuttable(text@),
    ensures
        !has_braces(text@) ==> r == Err::<serde_json::Value, ReplyError>(ReplyError::NoJson),
        has_braces(text@) ==> exists|a: int, b: int| {
            &&& first_at(text@, '{', a)
            &&& last_at(text@, '}', b)
            &&& (r is Ok <==> json_text_valid(text@.subrange(a, b + 1)))
            &&& (r matches Ok(v) ==> v == json_document(text@.subrange(a, b + 1)))
            &&& (r matches Err(e) ==> (e matches ReplyError::Malformed(m)
                && m@ == json_error_text(text@.subrange(a, b + 1))))
        },
{
    match extract_json_object(text) {
        None => Err(ReplyError::NoJson),
        Some(candidate) => match read_json(candidate.as_str()) {
            Ok(v) => Ok(v),
            Err(JsonError::Malformed(m)) => Err(ReplyError::Malformed(m)),
        },
    }
}

} // verus!
