//! The text exchanged with the suggestion service: the request built from the
//! prompt and the staged diff, and the clean-up of each suggestion that comes
//! back.
use vstd::prelude::*;

verus! {

/// Unicode's White_Space characters, which `char::is_whitespace` accepts.
pub open spec fn is_white_space(c: char) -> bool {
    let u = c as u32;
    ||| 0x9 <= u <= 0xd
    ||| u == 0x20
    ||| u == 0x85
    ||| u == 0xa0
    ||| u == 0x1680
    ||| 0x2000 <= u <= 0x200a
    ||| u == 0x2028
    ||| u == 0x2029
    ||| u == 0x202f
    ||| u == 0x205f
    ||| u == 0x3000
}

/// The text without its leading whitespace.
pub open spec fn trim_start_of(s: Seq<char>) -> Seq<char>
    decreases s.len(),
{
    if s.len() > 0 && is_white_space(s[0]) {
        trim_start_of(s.drop_first())
    } else {
        s
    }
}

/// The text without its trailing whitespace.
pub open spec fn trim_end_of(s: Seq<char>) -> Seq<char>
    decreases s.len(),
{
    if s.len() > 0 && is_white_space(s.last()) {
        trim_end_of(s.drop_last())
    } else {
        s
    }
}

/// The text without its leading and trailing whitespace.
pub open spec fn trim_of(s: Seq<char>) -> Seq<char> {
    trim_end_of(trim_start_of(s))
}

/// True where every character of the text is whitespace.
pub open spec fn all_white_space(s: Seq<char>) -> bool {
    forall|i: int| 0 <= i < s.len() ==> is_white_space(#[trigger] s[i])
}

/// The escape serde_json writes for one character of a string: a backslash
/// sequence for the quote, the backslash and the control characters, the
/// character itself otherwise.
pub open spec fn json_escape(c: char) -> Seq<char> {
    let u = c as u32;
    if c == '"' {
        "\\\""@
    } else if c == '\\' {
        "\\\\"@
    } else if u == 0x8 {
        "\\b"@
    } else if u == 0x9 {
        "\\t"@
    } else if u == 0xa {
        "\\n"@
    } else if u == 0xc {
        "\\f"@
    } else if u == 0xd {
        "\\r"@
    } else if u < 0x20 {
        "\\u00"@ + seq!["0123456789abcdef"@[(u / 16) as int], "0123456789abcdef"@[(u % 16) as int]]
    } else {
        seq![c]
    }
}

/// Every character of the text escaped, in order.
pub open spec fn json_escaped(s: Seq<char>) -> Seq<char>
    decreases s.len(),
{
    if s.len() == 0 {
        Seq::empty()
    } else {
        json_escape(s[0]) + json_escaped(s.drop_first())
    }
}

/// The JSON string literal that serde_json writes for a text.
pub open spec fn json_string_of(s: Seq<char>) -> Seq<char> {
    "\""@ + json_escaped(s) + "\""@
}

/// Relies on `str::trim`: the text without its leading and trailing
/// characters that `char::is_whitespace` accepts.
#[verifier::external_body]
fn trimmed(s: &str) -> (r: &str)
    ensures
        r@ == trim_of(s@),
{
    s.trim()
}

/// Relies on `serde_json::to_string` applied to a `str`: the text as one
/// JSON string, quotes and escapes included. Writing a `str` into the
/// `Vec` that `to_string` fills cannot fail.
#[verifier::external_body]
fn json_string(s: &str) -> (r: Option<String>)
    ensures
        r is Some,
        r matches Some(q) ==> q@ == json_string_of(s@),
{
    serde_json::to_string(s).ok()
}

/// Nothing but whitespace is left after trimming exactly where the text
/// holds nothing else.
pub proof fn lemma_trim_empty_iff_white(s: Seq<char>)
    ensures
        (trim_of(s).len() == 0) == all_white_space(s),
{
    lemma_trim_start(s);
    let t = trim_start_of(s);
    if t.len() > 0 {
        lemma_trim_end_keeps_first(t);
    }
}

/// Trimming the start leaves nothing exactly where all is whitespace, and
/// otherwise leaves a text that starts with something else.
proof fn lemma_trim_start(s: Seq<char>)
    ensures
        (trim_start_of(s).len() == 0) == all_white_space(s),
        trim_start_of(s).len() > 0 ==> !is_white_space(trim_start_of(s)[0]),
    decreases s.len(),
{
    if s.len() > 0 && is_white_space(s[0]) {
        lemma_trim_start(s.drop_first());
        if all_white_space(s.drop_first()) {
            assert forall|i: int| 0 <= i < s.len() implies is_white_space(#[trigger] s[i]) by {
                if i > 0 {
                    assert(s[i] == s.drop_first()[i - 1]);
                }
            }
        } else {
            let k = choose|k: int| 0 <= k < s.drop_first().len() && !is_white_space(#[trigger] s.drop_first()[k]);
            assert(s[k + 1] == s.drop_first()[k]);
        }
    } else if s.len() > 0 {
        assert(!is_white_space(s[0]));
    }
}

/// Trimming the end of a text that starts with something other than
/// whitespace keeps that first character.
proof fn lemma_trim_end_keeps_first(t: Seq<char>)
    requires
        t.len() > 0,
        !is_white_space(t[0]),
    ensures
        trim_end_of(t).len() > 0,
    decreases t.len(),
{
    if is_white_space(t.last()) {
        assert(t.len() > 1);
        assert(t.drop_last()[0] == t[0]);
        lemma_trim_end_keeps_first(t.drop_last());
    }
}

/// The text with one pair of surrounding double quotes removed, where it both
/// starts and ends with one; otherwise the text itself.
pub open spec fn unquoted(s: Seq<char>) -> Seq<char> {
    if s.len() >= 2 && s[0] == '"' && s[s.len() - 1] == '"' {
        s.subrange(1, s.len() - 1)
    } else {
        s
    }
}

/// A suggestion as it is offered: trimmed, then without surrounding quotes.
pub open spec fn cleaned(raw: Seq<char>) -> Seq<char> {
    unquoted(trim_of(raw))
}

/// The instruction put between the prompt and the diff, up to the opening
/// fence of the diff.
pub open spec fn instruction() -> Seq<char> {
    "\nReturn only a single line of text no more than 50 characters. Do not include an explanation.\n\n```\n"@
}

/// The closing fence after the diff.
pub open spec fn closing_fence() -> Seq<char> {
    "\n```"@
}

/// The user message sent to the service: the prompt, the instruction, and
/// the diff fenced as a code block.
pub open spec fn request_content_of(prompt: Seq<char>, diff: Seq<char>) -> Seq<char> {
    prompt + instruction() + diff + closing_fence()
}

/// The opening of the request body, up to the model.
pub open spec fn body_head() -> Seq<char> {
    "{\"model\":"@
}

/// The part of the request body between the model and the user message.
pub open spec fn body_middle() -> Seq<char> {
    ",\"messages\":[{\"role\":\"system\",\"content\":\"You are a helpful assistant.\"},{\"role\":\"user\",\"content\":"@
}

/// The end of the request body, asking for five suggestions.
pub open spec fn body_tail() -> Seq<char> {
    "}],\"n\":5}"@
}

/// The JSON request body around an already encoded model name and message.
pub open spec fn body_of(model_json: Seq<char>, content_json: Seq<char>) -> Seq<char> {
    body_head() + model_json + body_middle() + content_json + body_tail()
}

/// Removes one pair of surrounding double quotes, if the text has one.
pub fn strip_quotes(s: &str) -> (r: String)
    ensures
        r@ == unquoted(s@),
{
    let n = s.unicode_len();
    if n >= 2 && s.get_char(0) == '"' && s.get_char(n - 1) == '"' {
        String::from_str(s.substring_char(1, n - 1))
    } else {
        String::from_str(s)
    }
}

/// Trims a raw suggestion and removes one pair of surrounding quotes.
pub fn clean_suggestion(raw: &str) -> (r: String)
    ensures
        r@ == cleaned(raw@),
{
    strip_quotes(trimmed(raw))
}

/// Cleans every suggestion, keeping their order.
pub fn clean_suggestions(raw: &Vec<String>) -> (r: Vec<String>)
    ensures
        r@.len() == raw@.len(),
        forall|i: int| 0 <= i < raw@.len() ==> #[trigger] r@[i]@ == cleaned(raw@[i]@),
{
    let mut out: Vec<String> = Vec::new();
    let mut i: usize = 0;
    while i < raw.len()
        invariant
            i <= raw@.len(),
            out@.len() == i,
            forall|j: int| 0 <= j < i ==> #[trigger] out@[j]@ == cleaned(raw@[j]@),
        decreases raw@.len() - i,
    {
        out.push(clean_suggestion(raw[i].as_str()));
        i = i + 1;
    }
    out
}

/// True where the diff holds nothing but whitespace, so there is nothing to
/// commit.
pub fn is_blank(diff: &str) -> (r: bool)
    ensures
        r == (trim_of(diff@).len() == 0),
        r == all_white_space(diff@),
{
    proof {
        lemma_trim_empty_iff_white(diff@);
    }
    trimmed(diff).is_empty()
}

/// The user message for the service, built from the prompt and the diff.
pub fn request_content(prompt: &str, diff: &str) -> (r: String)
    ensures
        r@ == request_content_of(prompt@, diff@),
{
    let mut out = String::from_str(prompt);
    out.append("\nReturn only a single line of text no more than 50 characters. Do not include an explanation.\n\n```\n");
    out.append(diff);
    out.append("\n```");
    out
}

/// The JSON request body around an encoded model name and an encoded user
/// message.
pub fn frame_request(model_json: &str, content_json: &str) -> (r: String)
    ensures
        r@ == body_of(model_json@, content_json@),
{
    let mut out = String::from_str("{\"model\":");
    out.append(model_json);
    out.append(",\"messages\":[{\"role\":\"system\",\"content\":\"You are a helpful assistant.\"},{\"role\":\"user\",\"content\":");
    out.append(content_json);
    out.append("}],\"n\":5}");
    out
}

/// The JSON request body for a model and a user message.
pub fn request_body(model: &str, content: &str) -> (r: String)
    ensures
        r@ == body_of(json_string_of(model@), json_string_of(content@)),
{
    let model_json = json_string(model).unwrap();
    let content_json = json_string(content).unwrap();
    frame_request(model_json.as_str(), content_json.as_str())
}

} // verus!
