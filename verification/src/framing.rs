//! The frames in which a language server and its client exchange
//! messages: a header that gives the length of the body, an empty line,
//! and the body.

use crate::text::{
    chars_of, decimal_text, decimal_value, ends_with, has_prefix, has_suffix, is_decimal, lines,
    lines_of, parse_decimal_upto, push_decimal, run_end, scan_run, starts_with, string_of, texts,
    trim, trimmed, CharClass,
};
use vstd::prelude::*;

verus! {

/// The header for a body of `len` bytes.
pub open spec fn header_of(len: nat) -> Seq<char> {
    "Content-Length: "@ + decimal_text(len) + "\r\n\r\n"@
}

/// Computes `header_of`.
pub fn frame_header(len: usize) -> (header: String)
    ensures
        header@ == header_of(len as nat),
{
    let mut header = String::from_str("Content-Length: ");
    push_decimal(&mut header, len as u64);
    header.append("\r\n\r\n");
    header
}

/// Whether what was read of a header is all of it: a header ends with an
/// empty line.
pub fn header_is_complete(header: &str) -> (b: bool)
    ensures
        b == ends_with(header@, "\r\n\r\n"@),
{
    let v = chars_of(header);
    has_suffix(&v, "\r\n\r\n")
}

/// The index of the first of `ls`, from `i` on, that starts with
/// `Content-Length:`.
pub open spec fn length_line(ls: Seq<Seq<char>>, i: int) -> Option<int>
    decreases ls.len() - i,
{
    if i < 0 || i >= ls.len() {
        None
    } else if starts_with(ls[i], "Content-Length:"@) {
        Some(i)
    } else {
        length_line(ls, i + 1)
    }
}

/// What stands in `line` between its first colon and the next, or the
/// end, for a line whose first colon is at the index `colon`.
pub open spec fn field_after(line: Seq<char>, colon: int) -> Seq<char> {
    line.subrange(colon + 1, run_end(line, colon + 1, CharClass::NotColon))
}

/// The digits of an unsigned number: one plus sign may stand before them.
pub open spec fn unsigned_digits(s: Seq<char>) -> Seq<char> {
    if s.len() > 0 && s[0] == '+' {
        s.skip(1)
    } else {
        s
    }
}

/// The number that the field `field` gives, white space at its ends
/// aside: `None` where it is no unsigned decimal number that fits in
/// `usize`.
pub open spec fn field_value(field: Seq<char>) -> Option<nat> {
    let digits = unsigned_digits(trimmed(field));
    if is_decimal(digits) && decimal_value(digits) <= usize::MAX {
        Some(decimal_value(digits))
    } else {
        None
    }
}

/// The length of the body that the header `header` announces: the number
/// that follows `Content-Length:` in the first line that starts so;
/// `None` where there is no such line or no such number.
pub open spec fn announced_length(header: Seq<char>) -> Option<nat> {
    match length_line(lines_of(header), 0) {
        Some(i) => field_value(field_after(lines_of(header)[i], 14)),
        None => None,
    }
}

/// Computes `field_value`.
fn value_of_field(field: &str) -> (r: Option<usize>)
    ensures
        match r {
            Some(n) => field_value(field@) == Some(n as nat),
            None => field_value(field@) is None,
        },
{
    let t = trim(field);
    let v = chars_of(t.as_str());
    let from: usize = if v.len() > 0 && v[0] == '+' {
        1
    } else {
        0
    };
    proof {
        if from == 1 {
            assert(v@.subrange(1, v@.len() as int) == v@.skip(1));
        } else {
            assert(v@.subrange(0, v@.len() as int) == v@);
        }
    }
    match parse_decimal_upto(&v, from, v.len(), usize::MAX as u64) {
        Some(n) => Some(n as usize),
        None => None,
    }
}

/// The length of the body that `header` announces.
pub fn content_length(header: &str) -> (r: Option<usize>)
    ensures
        match r {
            Some(n) => announced_length(header@) == Some(n as nat),
            None => announced_length(header@) is None,
        },
{
    let ls = lines(header);
    let mut i: usize = 0;
    while i < ls.len()
        invariant
            i <= ls.len(),
            texts(ls@) == lines_of(header@),
            length_line(texts(ls@), 0) == length_line(texts(ls@), i as int),
        decreases ls.len() - i,
    {
        let v = chars_of(ls[i].as_str());
        assert(texts(ls@)[i as int] == v@);
        if has_prefix(&v, "Content-Length:") {
            proof {
                reveal_strlit("Content-Length:");
                assert("Content-Length:"@.len() == 15);
            }
            let e = scan_run(&v, 15, CharClass::NotColon);
            let field = string_of(&v, 15, e);
            return value_of_field(field.as_str());
        }
        i = i + 1;
    }
    None
}

/// The payload of a request: what follows the first empty line, the
/// empty line included, with the ends of the lines taken out.
pub open spec fn payload_of(ls: Seq<Seq<char>>, i: int, found: bool) -> Seq<char>
    decreases ls.len() - i,
{
    if i < 0 || i >= ls.len() {
        Seq::empty()
    } else if found || ls[i].len() == 0 {
        ls[i] + payload_of(ls, i + 1, true)
    } else {
        payload_of(ls, i + 1, false)
    }
}

/// The payload of the request `content`: its lines from the first empty
/// one on, put together without the ends of the lines.
pub fn request_payload(content: &str) -> (payload: String)
    ensures
        payload@ == payload_of(lines_of(content@), 0, false),
{
    let ls = lines(content);
    let mut payload = String::new();
    let mut found = false;
    let mut i: usize = 0;
    assert(payload@ + payload_of(texts(ls@), 0, false) == payload_of(texts(ls@), 0, false));
    while i < ls.len()
        invariant
            i <= ls.len(),
            texts(ls@) == lines_of(content@),
            payload@ + payload_of(texts(ls@), i as int, found) == payload_of(texts(ls@), 0, false),
        decreases ls.len() - i,
    {
        let ghost before = payload@;
        assert(texts(ls@)[i as int] == ls[i as int]@);
        if found || ls[i].as_str().is_empty() {
            payload.append(ls[i].as_str());
            found = true;
            assert(payload@ + payload_of(texts(ls@), i + 1, true) == before + (ls[i as int]@
                + payload_of(texts(ls@), i + 1, true)));
        }
        i = i + 1;
    }
    assert(payload@ + Seq::<char>::empty() == payload@);
    payload
}

} // verus!
