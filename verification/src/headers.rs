//! HTTP header texts built by the gateway. A text is only offered where
//! `http::HeaderValue::from_str` accepts it, which its byte check (`is_valid`)
//! decides: tab, and every byte from space upwards except DEL.
use vstd::prelude::*;
use crate::text::push_char;

verus! {

/// A character that `HeaderValue::from_str` accepts: tab, or anything from
/// space upwards except DEL (the bytes of a non-ASCII character are all
/// accepted).
pub open spec fn header_char_ok(c: char) -> bool {
    c == '\t' || (' ' <= c && c != '\x7f')
}

/// Every character of `s` is accepted in a header value.
pub open spec fn header_text_ok(s: Seq<char>) -> bool {
    forall|i: int| 0 <= i < s.len() ==> header_char_ok(#[trigger] s[i])
}

/// Whether `s` can be sent as a header value.
pub fn header_text_valid(s: &str) -> (r: bool)
    ensures
        r == header_text_ok(s@),
{
    let n = s.unicode_len();
    let mut i: usize = 0;
    while i < n
        invariant
            n == s@.len(),
            i <= n,
            forall|j: int| 0 <= j < i ==> header_char_ok(#[trigger] s@[j]),
        decreases n - i,
    {
        let c = s.get_char(i);
        if !(c == '\t' || (' ' <= c && c != '\x7f')) {
            assert(!header_char_ok(s@[i as int]));
            return false;
        }
        i = i + 1;
    }
    true
}

/// How a file-name character is written inside a quoted header parameter:
/// `\` and `"` are escaped with `\`, CR and LF are dropped.
pub open spec fn escape_char(c: char) -> Seq<char> {
    if c == '\\' {
        seq!['\\', '\\']
    } else if c == '"' {
        seq!['\\', '"']
    } else if c == '\r' || c == '\n' {
        seq![]
    } else {
        seq![c]
    }
}

/// The escaped form of a file name.
pub open spec fn escaped(s: Seq<char>) -> Seq<char>
    decreases s.len(),
{
    if s.len() == 0 {
        seq![]
    } else {
        escaped(s.drop_last()) + escape_char(s.last())
    }
}

/// The `Content-Disposition` text for a file name.
pub open spec fn disposition_text(filename: Seq<char>) -> Seq<char> {
    "attachment; filename=\""@ + escaped(filename) + "\""@
}

/// Escapes a file name for a quoted header parameter.
pub fn escape_filename(filename: &str) -> (r: String)
    ensures
        r@ == escaped(filename@),
{
    let n = filename.unicode_len();
    let mut out = String::new();
    let mut i: usize = 0;
    while i < n
        invariant
            n == filename@.len(),
            i <= n,
            out@ == escaped(filename@.subrange(0, i as int)),
        decreases n - i,
    {
        let c = filename.get_char(i);
        assert(filename@.subrange(0, i + 1).drop_last() =~= filename@.subrange(0, i as int));
        if c == '\\' {
            push_char(&mut out, '\\');
            push_char(&mut out, '\\');
        } else if c == '"' {
            push_char(&mut out, '\\');
            push_char(&mut out, '"');
        } else if c == '\r' || c == '\n' {
        } else {
            push_char(&mut out, c);
        }
        assert(out@ =~= escaped(filename@.subrange(0, i as int)) + escape_char(c));
        i = i + 1;
    }
    assert(filename@.subrange(0, n as int) =~= filename@);
    out
}

/// The `Content-Disposition` text for a download of `filename`, when there
/// is one: none when nothing is left of the name after escaping, or when the
/// text is not a valid header value.
pub open spec fn disposition_of(filename: Seq<char>) -> Option<Seq<char>> {
    if escaped(filename).len() > 0 && header_text_ok(disposition_text(filename)) {
        Some(disposition_text(filename))
    } else {
        None
    }
}

/// The `Content-Disposition: attachment` text for a download of `filename`.
pub fn attachment_disposition(filename: &str) -> (r: Option<String>)
    ensures
        match disposition_of(filename@) {
            Some(t) => r matches Some(v) && v@ == t,
            None => r is None,
        },
{
    let escaped_name = escape_filename(filename);
    if escaped_name.as_str().is_empty() {
        return None;
    }
    let mut text = String::from_str("attachment; filename=\"");
    text.append(escaped_name.as_str());
    text.append("\"");
    if header_text_valid(text.as_str()) {
        Some(text)
    } else {
        None
    }
}

proof fn lemma_escaped_no_line_breaks(s: Seq<char>)
    ensures
        forall|i: int|
            0 <= i < escaped(s).len() ==> #[trigger] escaped(s)[i] != '\r' && escaped(s)[i] != '\n',
    decreases s.len(),
{
    if s.len() > 0 {
        lemma_escaped_no_line_breaks(s.drop_last());
        let a = escaped(s.drop_last());
        let b = escape_char(s.last());
        assert forall|i: int| 0 <= i < escaped(s).len() implies #[trigger] escaped(s)[i] != '\r'
            && escaped(s)[i] != '\n' by {
            if i < a.len() {
                assert(escaped(s)[i] == a[i]);
            } else {
                assert(escaped(s)[i] == b[i - a.len()]);
            }
        }
    }
}

/// An escaped file name never holds CR or LF, so it cannot end the header
/// line early.
pub proof fn law_escaped_has_no_line_breaks(filename: Seq<char>)
    ensures
        forall|i: int|
            0 <= i < escaped(filename).len() ==> #[trigger] escaped(filename)[i] != '\r'
                && escaped(filename)[i] != '\n',
{
    lemma_escaped_no_line_breaks(filename);
}

} // verus!
