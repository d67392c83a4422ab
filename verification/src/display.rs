//! Short forms of keys and addresses for log lines and lists.
//!
//! Texts are cut by bytes. A cut that would fall inside a character cannot be
//! made, and the function that needs it returns `None`.

use crate::text::text_of;
use vstd::prelude::*;
use vstd::string::StringSliceAdditionalSpecFns;
use vstd::utf8::*;

verus! {

broadcast use vstd::utf8::group_utf8_lib;

/// The smaller of two numbers.
pub open spec fn spec_min(a: int, b: int) -> int {
    if a < b {
        a
    } else {
        b
    }
}

/// Returns the smaller of `a` and `b`.
pub fn min(a: usize, b: usize) -> (m: usize)
    ensures
        m == spec_min(a as int, b as int),
{
    if a < b {
        a
    } else {
        b
    }
}

/// The number of bytes that `text` takes.
pub open spec fn byte_len(text: Seq<char>) -> int {
    encode_utf8(text).len() as int
}

/// `text` can be cut before byte `at`: that byte begins a character, or `at`
/// is the end of the text.
pub open spec fn can_cut(text: Seq<char>, at: int) -> bool {
    is_char_boundary(encode_utf8(text), at)
}

/// The characters of `text` that lie in the bytes from `from` up to `to`.
pub open spec fn byte_slice(text: Seq<char>, from: int, to: int) -> Seq<char> {
    decode_utf8(encode_utf8(text).subrange(from, to))
}

/// A key that is longer than this many bytes is masked.
pub const KEY_MASK_OVER: usize = 8;

/// An address that is longer than this many bytes is shortened.
pub const ADDRESS_SHORT_OVER: usize = 10;

/// The short form of a text that keeps its first `head` and last `tail`
/// bytes.
pub open spec fn shortened(text: Seq<char>, head: int, tail: int) -> Seq<char> {
    byte_slice(text, 0, head) + "..."@ + byte_slice(text, byte_len(text) - tail, byte_len(text))
}

/// How a text is shown that is shortened once it takes more than `over`
/// bytes: whole if it is not longer, else by its first `head` and last `tail`
/// bytes; `None` where a cut would fall inside a character.
pub open spec fn shown_short(text: Seq<char>, over: int, head: int, tail: int) -> Option<
    Seq<char>,
> {
    if byte_len(text) <= over {
        Some(text)
    } else if can_cut(text, head) && can_cut(text, byte_len(text) - tail) {
        Some(shortened(text, head, tail))
    } else {
        None
    }
}

/// Cuts `text` in two before byte `at`, where that can be done.
fn cut(text: &str, at: usize) -> (parts: Option<(&str, &str)>)
    ensures
        parts is Some <==> can_cut(text@, at as int),
        parts matches Some((left, right)) ==> left@ == byte_slice(text@, 0, at as int) && right@
            == byte_slice(text@, at as int, byte_len(text@)),
{
    if text.is_char_boundary(at) {
        let (left, right) = text.split_at(at);
        proof {
            assert(decode_utf8(left.spec_bytes()) == left@);
            assert(decode_utf8(right.spec_bytes()) == right@);
        }
        Some((left, right))
    } else {
        None
    }
}

/// The beginning of a key for a log line: its first eight bytes, or all of a
/// shorter key.
pub fn key_preview(key: &str) -> (shown: Option<&str>)
    ensures
        shown is Some <==> can_cut(key@, spec_min(8, byte_len(key@))),
        shown matches Some(text) ==> text@ == byte_slice(key@, 0, spec_min(8, byte_len(key@))),
{
    let bytes = key.as_bytes().len();
    match cut(key, min(8, bytes)) {
        Some((left, _)) => Some(left),
        None => None,
    }
}

/// A text with its middle left out: the first `head` bytes, three dots, the
/// last `tail` bytes.
fn shorten(text: &str, head: usize, tail: usize) -> (shown: Option<String>)
    requires
        head + tail <= byte_len(text@),
    ensures
        shown is Some <==> can_cut(text@, head as int) && can_cut(
            text@,
            byte_len(text@) - tail,
        ),
        shown matches Some(short) ==> short@ == shortened(text@, head as int, tail as int),
{
    let bytes = text.as_bytes().len();
    match cut(text, head) {
        None => None,
        Some((left, _)) => match cut(text, bytes - tail) {
            None => None,
            Some((_, right)) => {
                let mut short = String::from_str(left);
                short.append("...");
                short.append(right);
                Some(short)
            },
        },
    }
}

/// How a key is shown in a list: a key of more than eight bytes keeps its
/// first four and last four bytes around three dots, a shorter key is shown
/// whole.
pub fn mask_key(key: &str) -> (shown: Option<String>)
    ensures
        text_of(shown) == shown_short(key@, KEY_MASK_OVER as int, 4, 4),
{
    if key.as_bytes().len() > KEY_MASK_OVER {
        shorten(key, 4, 4)
    } else {
        Some(String::from_str(key))
    }
}

/// How an address is shown in a list: an address of more than ten bytes keeps
/// its first six and last four bytes around three dots, a shorter one is
/// shown whole.
pub fn short_address(address: &str) -> (shown: Option<String>)
    ensures
        text_of(shown) == shown_short(address@, ADDRESS_SHORT_OVER as int, 6, 4),
{
    if address.as_bytes().len() > ADDRESS_SHORT_OVER {
        shorten(address, 6, 4)
    } else {
        Some(String::from_str(address))
    }
}

} // verus!
