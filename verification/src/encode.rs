//! Text encodings used to build URLs, HTML attributes and JSON bodies.

use vstd::prelude::*;
use vstd::utf8::encode_utf8;

verus! {

/// Bytes that URL encoding leaves as they are: ASCII letters, digits and `-._~`.
pub open spec fn is_unreserved(b: u8) -> bool {
    ||| (48 <= b && b <= 57)
    ||| (65 <= b && b <= 90)
    ||| (97 <= b && b <= 122)
    ||| b == 45
    ||| b == 46
    ||| b == 95
    ||| b == 126
}

/// Upper-case hexadecimal digit for `d < 16`.
pub open spec fn upper_hex_digit(d: nat) -> char {
    if d < 10 {
        ((48 + d) as u32) as char
    } else {
        ((55 + d) as u32) as char
    }
}

/// One byte, percent-encoded unless it is unreserved.
pub open spec fn percent_encode_byte(b: u8) -> Seq<char> {
    if is_unreserved(b) {
        seq![(b as u32) as char]
    } else {
        seq!['%', upper_hex_digit((b / 16) as nat), upper_hex_digit((b % 16) as nat)]
    }
}

/// Each byte percent-encoded in turn.
pub open spec fn percent_encode_bytes(bytes: Seq<u8>) -> Seq<char>
    decreases bytes.len(),
{
    if bytes.len() == 0 {
        seq![]
    } else {
        percent_encode_bytes(bytes.drop_last()) + percent_encode_byte(bytes.last())
    }
}

/// URL encoding of text: its UTF-8 bytes, percent-encoded.
pub open spec fn url_encoded(s: Seq<char>) -> Seq<char> {
    percent_encode_bytes(encode_utf8(s))
}

/// `urlencoding::encode`: percent-encodes every UTF-8 byte of `s` except
/// ASCII letters, digits and `-`, `.`, `_`, `~`, with upper-case hex digits.
#[verifier::external_body]
pub(crate) fn url_encode(s: &str) -> (res: String)
    ensures
        res@ == url_encoded(s@),
{
    urlencoding::encode(s).into_owned()
}

/// A character that may appear in URL-encoded text: an unreserved ASCII
/// character or `%`.
pub open spec fn is_url_safe(c: char) -> bool {
    ||| ('0' <= c && c <= '9')
    ||| ('A' <= c && c <= 'Z')
    ||| ('a' <= c && c <= 'z')
    ||| c == '-'
    ||| c == '.'
    ||| c == '_'
    ||| c == '~'
    ||| c == '%'
}

/// URL-encoded text consists only of unreserved ASCII characters and `%`,
/// so it can stand in a query string as it is.
pub proof fn law_url_encoded_is_url_safe(bytes: Seq<u8>)
    ensures
        forall|i: int|
            0 <= i < percent_encode_bytes(bytes).len() ==> is_url_safe(
                #[trigger] percent_encode_bytes(bytes)[i],
            ),
    decreases bytes.len(),
{
    if bytes.len() > 0 {
        law_url_encoded_is_url_safe(bytes.drop_last());
        let a = percent_encode_bytes(bytes.drop_last());
        let e = percent_encode_byte(bytes.last());
        let b = bytes.last();
        assert(b / 16 < 16 && b % 16 < 16);
        assert forall|i: int| 0 <= i < e.len() implies is_url_safe(#[trigger] e[i]) by {}
        assert forall|i: int| 0 <= i < (a + e).len() implies is_url_safe(#[trigger] (a + e)[i]) by {
            if i < a.len() {
                assert((a + e)[i] == a[i]);
            } else {
                assert((a + e)[i] == e[i - a.len()]);
            }
        }
    }
}

/// How a double-quoted HTML attribute writes one character.
pub open spec fn html_attr_escape_char(c: char) -> Seq<char> {
    if c == '&' {
        "&amp;"@
    } else if c == '<' {
        "&lt;"@
    } else if c == '>' {
        "&gt;"@
    } else if c == '"' {
        "&quot;"@
    } else {
        seq![c]
    }
}

/// `s` escaped for a double-quoted HTML attribute.
pub open spec fn html_attr_escaped(s: Seq<char>) -> Seq<char>
    decreases s.len(),
{
    if s.len() == 0 {
        seq![]
    } else {
        html_attr_escaped(s.drop_last()) + html_attr_escape_char(s.last())
    }
}

/// Escaped attribute text holds no `<`, `>` or `"`, so it cannot end a
/// double-quoted attribute or open a tag.
pub proof fn law_html_attr_escaped_has_no_markup(s: Seq<char>)
    ensures
        forall|i: int|
            0 <= i < html_attr_escaped(s).len() ==> {
                let c = #[trigger] html_attr_escaped(s)[i];
                c != '<' && c != '>' && c != '"'
            },
    decreases s.len(),
{
    reveal_strlit("&amp;");
    reveal_strlit("&lt;");
    reveal_strlit("&gt;");
    reveal_strlit("&quot;");
    if s.len() > 0 {
        law_html_attr_escaped_has_no_markup(s.drop_last());
        let a = html_attr_escaped(s.drop_last());
        let e = html_attr_escape_char(s.last());
        assert forall|i: int| 0 <= i < (a + e).len() implies {
            let c = #[trigger] (a + e)[i];
            c != '<' && c != '>' && c != '"'
        } by {
            if i < a.len() {
                assert((a + e)[i] == a[i]);
            } else {
                assert((a + e)[i] == e[i - a.len()]);
            }
        }
    }
}

/// `html_escape::encode_double_quoted_attribute`: replaces `&`, `<`, `>` and
/// `"` by `&amp;`, `&lt;`, `&gt;` and `&quot;`, leaving other characters.
#[verifier::external_body]
pub(crate) fn html_attr_escape(s: &str) -> (res: String)
    ensures
        res@ == html_attr_escaped(s@),
{
    html_escape::encode_double_quoted_attribute(s).into_owned()
}

/// Lower-case hexadecimal digit for `d < 16`.
pub open spec fn lower_hex_digit(d: nat) -> char {
    if d < 10 {
        ((48 + d) as u32) as char
    } else {
        ((87 + d) as u32) as char
    }
}

/// How a JSON string literal writes one character: `"`, `\` and the control
/// characters below U+0020 are escaped, everything else is kept.
pub open spec fn json_escape_char(c: char) -> Seq<char> {
    let u = c as u32;
    if c == '"' {
        seq!['\\', '"']
    } else if c == '\\' {
        seq!['\\', '\\']
    } else if u == 0x08 {
        seq!['\\', 'b']
    } else if u == 0x09 {
        seq!['\\', 't']
    } else if u == 0x0A {
        seq!['\\', 'n']
    } else if u == 0x0C {
        seq!['\\', 'f']
    } else if u == 0x0D {
        seq!['\\', 'r']
    } else if u < 0x20 {
        seq!['\\', 'u', '0', '0', lower_hex_digit((u / 16) as nat), lower_hex_digit((u % 16) as nat)]
    } else {
        seq![c]
    }
}

/// The escaped characters of `s`, in order.
pub open spec fn json_escape(s: Seq<char>) -> Seq<char>
    decreases s.len(),
{
    if s.len() == 0 {
        seq![]
    } else {
        json_escape(s.drop_last()) + json_escape_char(s.last())
    }
}

/// `s` written as a JSON string literal, quotes included.
pub open spec fn json_quoted(s: Seq<char>) -> Seq<char> {
    seq!['"'] + json_escape(s) + seq!['"']
}

/// `serde_json::to_string` on a string slice: the JSON string literal for `s`
/// (quotes around the text; `"`, `\` and control characters escaped).
/// Serializing a `str` into memory does not fail.
#[verifier::external_body]
pub(crate) fn json_string(s: &str) -> (res: String)
    ensures
        res@ == json_quoted(s@),
{
    serde_json::to_string(s).unwrap_or_default()
}

} // verus!
