use vstd::prelude::*;

use crate::text::{lower_seq, str_eq_ignore_ascii_case};

verus! {

/// A lowercase hexadecimal digit.
pub open spec fn hex_digit(n: int) -> char {
    if n < 10 {
        ((('0' as u8) + n as u8) as char)
    } else {
        ((('a' as u8) + (n - 10) as u8) as char)
    }
}

/// How one character appears inside a JSON string literal: quote and
/// backslash escaped, the common control characters as short escapes, the
/// remaining control characters as `\u00XX`, everything else as itself.
pub open spec fn escape_char(c: char) -> Seq<char> {
    if c == '"' {
        seq!['\\', '"']
    } else if c == '\\' {
        seq!['\\', '\\']
    } else if c == '\u{8}' {
        seq!['\\', 'b']
    } else if c == '\u{c}' {
        seq!['\\', 'f']
    } else if c == '\n' {
        seq!['\\', 'n']
    } else if c == '\r' {
        seq!['\\', 'r']
    } else if c == '\t' {
        seq!['\\', 't']
    } else if (c as u32) < 32 {
        seq!['\\', 'u', '0', '0', hex_digit((c as u32 / 16) as int), hex_digit((c as u32 % 16) as int)]
    } else {
        seq![c]
    }
}

/// A text escaped for inclusion in a JSON string literal.
pub open spec fn json_escaped(s: Seq<char>) -> Seq<char>
    decreases s.len(),
{
    if s.len() == 0 {
        Seq::empty()
    } else {
        escape_char(s[0]) + json_escaped(s.skip(1))
    }
}

/// Escaping distributes over concatenation.
pub proof fn lemma_escape_append(a: Seq<char>, b: Seq<char>)
    ensures
        json_escaped(a + b) == json_escaped(a) + json_escaped(b),
    decreases a.len(),
{
    if a.len() == 0 {
        assert(a + b =~= b);
        assert(json_escaped(a) + json_escaped(b) =~= json_escaped(b));
    } else {
        assert((a + b)[0] == a[0]);
        assert((a + b).skip(1) =~= a.skip(1) + b);
        lemma_escape_append(a.skip(1), b);
        assert(escape_char(a[0]) + (json_escaped(a.skip(1)) + json_escaped(b)) =~= (escape_char(
            a[0],
        ) + json_escaped(a.skip(1))) + json_escaped(b));
    }
}

/// One character's escape, as a string.
fn hex_digit_str(n: u8) -> (r: &'static str)
    requires
        n < 16,
    ensures
        r@ == seq![hex_digit(n as int)],
{
    proof {
        reveal_strlit("0");
        reveal_strlit("1");
        reveal_strlit("2");
        reveal_strlit("3");
        reveal_strlit("4");
        reveal_strlit("5");
        reveal_strlit("6");
        reveal_strlit("7");
        reveal_strlit("8");
        reveal_strlit("9");
        reveal_strlit("a");
        reveal_strlit("b");
        reveal_strlit("c");
        reveal_strlit("d");
        reveal_strlit("e");
        reveal_strlit("f");
    }
    let r: &'static str = match n {
        0 => "0",
        1 => "1",
        2 => "2",
        3 => "3",
        4 => "4",
        5 => "5",
        6 => "6",
        7 => "7",
        8 => "8",
        9 => "9",
        10 => "a",
        11 => "b",
        12 => "c",
        13 => "d",
        14 => "e",
        _ => "f",
    };
    proof {
        assert(r@ =~= seq![hex_digit(n as int)]);
    }
    r
}

/// Escape a text for inclusion in a JSON string literal.
pub fn json_escape(text: &str) -> (r: String)
    ensures
        r@ == json_escaped(text@),
{
    proof {
        reveal_strlit("\\\"");
        reveal_strlit("\\\\");
        reveal_strlit("\\b");
        reveal_strlit("\\f");
        reveal_strlit("\\n");
        reveal_strlit("\\r");
        reveal_strlit("\\t");
        reveal_strlit("\\u00");
    }
    let n = text.unicode_len();
    let mut r = String::new();
    let mut i: usize = 0;
    while i < n
        invariant
            i <= n,
            n == text@.len(),
            r@ == json_escaped(text@.take(i as int)),
            "\\\""@ == seq!['\\', '"'],
            "\\\\"@ == seq!['\\', '\\'],
            "\\b"@ == seq!['\\', 'b'],
            "\\f"@ == seq!['\\', 'f'],
            "\\n"@ == seq!['\\', 'n'],
            "\\r"@ == seq!['\\', 'r'],
            "\\t"@ == seq!['\\', 't'],
            "\\u00"@ == seq!['\\', 'u', '0', '0'],
        decreases n - i,
    {
        let c = text.get_char(i);
        if c == '"' {
            r.append("\\\"");
        } else if c == '\\' {
            r.append("\\\\");
        } else if c == '\u{8}' {
            r.append("\\b");
        } else if c == '\u{c}' {
            r.append("\\f");
        } else if c == '\n' {
            r.append("\\n");
        } else if c == '\r' {
            r.append("\\r");
        } else if c == '\t' {
            r.append("\\t");
        } else if (c as u32) < 32 {
            r.append("\\u00");
            r.append(hex_digit_str(((c as u32) / 16) as u8));
            r.append(hex_digit_str(((c as u32) % 16) as u8));
        } else {
            let piece = text.substring_char(i, i + 1);
            r.append(piece);
        }
        proof {
            assert(text@.take(i + 1) =~= text@.take(i as int) + seq![text@[i as int]]);
            lemma_escape_append(text@.take(i as int), seq![text@[i as int]]);
            assert((seq![text@[i as int]]).skip(1) =~= Seq::<char>::empty());
            assert(json_escaped(Seq::<char>::empty()) == Seq::<char>::empty());
            assert((seq![text@[i as int]])[0] == text@[i as int]);
            assert(json_escaped(seq![text@[i as int]]) =~= escape_char(text@[i as int]));
            assert(r@ =~= json_escaped(text@.take(i + 1)));
        }
        i = i + 1;
    }
    proof {
        assert(text@.take(n as int) =~= text@);
    }
    r
}

/// The JSON body of a translation request: the text as a one-element array,
/// and the source and target language codes.
pub open spec fn translate_body(text: Seq<char>, source: Seq<char>, target: Seq<char>) -> Seq<
    char,
> {
    "{\"text\":[\""@ + json_escaped(text) + "\"],\"source_lang\":\""@ + json_escaped(source)
        + "\",\"target_lang\":\""@ + json_escaped(target) + "\"}"@
}

/// Serialize a translation request body.
pub fn build_translate_body(text: &str, source_lang: &str, target_lang: &str) -> (r: String)
    ensures
        r@ == translate_body(text@, source_lang@, target_lang@),
{
    let mut r = String::from_str("{\"text\":[\"");
    let et = json_escape(text);
    r.append(et.as_str());
    r.append("\"],\"source_lang\":\"");
    let es = json_escape(source_lang);
    r.append(es.as_str());
    r.append("\",\"target_lang\":\"");
    let eg = json_escape(target_lang);
    r.append(eg.as_str());
    r.append("\"}");
    r
}

/// Whether an HTTP status code counts as success.
pub fn status_is_success(status: u16) -> (r: bool)
    ensures
        r == (200 <= status && status < 300),
{
    200 <= status && status < 300
}

/// The user-visible message for a response with a failure status.
pub fn api_error_message(status_text: &str, body: &str) -> (r: String)
    ensures
        r@ == "Translation API error ("@ + status_text@ + "): "@ + body@,
{
    let mut r = String::from_str("Translation API error (");
    r.append(status_text);
    r.append("): ");
    r.append(body);
    r
}

/// The user-visible message for a transport failure.
pub fn transport_error_message(detail: &str) -> (r: String)
    ensures
        r@ == "Failed to call translation API: "@ + detail@,
{
    let mut r = String::from_str("Failed to call translation API: ");
    r.append(detail);
    r
}

/// Interpret the decoded response payload: the first translation when there
/// is one; an empty list or an undecodable body is an error of its own.
pub fn interpret_translation_payload(parsed: Result<Vec<String>, String>) -> (r: Result<
    String,
    String,
>)
    ensures
        match parsed {
            Result::Ok(texts) => {
                if texts@.len() > 0 {
                    r matches Result::Ok(t) && t@ == texts@[0]@
                } else {
                    r matches Result::Err(e) && e@ == "API response missing translations"@
                }
            },
            Result::Err(detail) => r matches Result::Err(e) && e@ == "Invalid API response: "@
                + detail@,
        },
{
    match parsed {
        Result::Ok(mut texts) => {
            if texts.len() > 0 {
                Result::Ok(texts.remove(0))
            } else {
                Result::Err(String::from_str("API response missing translations"))
            }
        },
        Result::Err(detail) => {
            let mut m = String::from_str("Invalid API response: ");
            m.append(detail.as_str());
            Result::Err(m)
        },
    }
}

/// Resolve the auth header from the configured key and header-name
/// override: no key means no header; with a key, the configured name
/// (default a plain authorization header), whose value carries the
/// DeepL-style key prefix exactly when the name is the authorization header
/// (compared ignoring ASCII case), and the bare key otherwise.
pub fn resolve_auth(auth_key: Option<String>, auth_header: Option<String>) -> (r: (
    Option<String>,
    Option<String>,
))
    ensures
        auth_key is None ==> r.0 is None && r.1 is None,
        auth_key matches Option::Some(k) ==> ({
            let name = match auth_header {
                Option::Some(h) => h@,
                Option::None => "Authorization"@,
            };
            &&& (r.0 matches Option::Some(n) && n@ == name)
            &&& if lower_seq(name) == lower_seq("Authorization"@) {
                r.1 matches Option::Some(v) && v@ == "DeepL-Auth-Key "@ + k@
            } else {
                r.1 matches Option::Some(v) && v@ == k@
            }
        }),
{
    match auth_key {
        Option::None => (Option::None, Option::None),
        Option::Some(key) => {
            let header = match auth_header {
                Option::Some(h) => h,
                Option::None => String::from_str("Authorization"),
            };
            let value = if str_eq_ignore_ascii_case(header.as_str(), "Authorization") {
                let mut v = String::from_str("DeepL-Auth-Key ");
                v.append(key.as_str());
                v
            } else {
                key
            };
            (Option::Some(header), Option::Some(value))
        },
    }
}

} // verus!
