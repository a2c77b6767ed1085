//! The `application/x-www-form-urlencoded` format, in which a message is
//! sent: pairs of a name and a value, written `name=value` and joined by `&`,
//! each name and value escaped byte by byte.

use vstd::prelude::*;
use vstd::utf8::encode_utf8;

verus! {

/// Whether a byte stands for itself in a form: the ASCII letters and digits,
/// and `*`, `-`, `.` and `_`.
pub open spec fn kept(byte: u8) -> bool {
    let c = byte as char;
    ||| 'a' <= c <= 'z'
    ||| 'A' <= c <= 'Z'
    ||| '0' <= c <= '9'
    ||| c == '*'
    ||| c == '-'
    ||| c == '.'
    ||| c == '_'
}

/// The digit, in upper case, that stands for a number below sixteen.
pub open spec fn hex_digit(n: int) -> char {
    "0123456789ABCDEF"@[n]
}

/// How one byte is written in a form: as itself where it is kept, a space as
/// `+`, and any other byte as `%` and its two hexadecimal digits.
pub open spec fn form_byte(byte: u8) -> Seq<char> {
    if kept(byte) {
        seq![byte as char]
    } else if byte as char == ' ' {
        seq!['+']
    } else {
        seq!['%', hex_digit(byte as int / 16), hex_digit(byte as int % 16)]
    }
}

/// How a string of bytes is written in a form.
pub open spec fn form_bytes(bytes: Seq<u8>) -> Seq<char>
    decreases bytes.len(),
{
    if bytes.len() == 0 {
        Seq::empty()
    } else {
        form_bytes(bytes.drop_last()) + form_byte(bytes.last())
    }
}

/// How a name or a value is written in a form: its UTF-8 bytes, one by one.
pub open spec fn form_part(text: Seq<char>) -> Seq<char> {
    form_bytes(encode_utf8(text))
}

/// How a pair of a name and a value is written in a form.
pub open spec fn form_pair(pair: (Seq<char>, Seq<char>)) -> Seq<char> {
    form_part(pair.0) + seq!['='] + form_part(pair.1)
}

/// The form that holds the given pairs, in their order.
pub open spec fn form_text(pairs: Seq<(Seq<char>, Seq<char>)>) -> Seq<char>
    decreases pairs.len(),
{
    if pairs.len() == 0 {
        Seq::empty()
    } else if pairs.len() == 1 {
        form_pair(pairs[0])
    } else {
        form_text(pairs.drop_last()) + seq!['&'] + form_pair(pairs.last())
    }
}

/// Whether a character separates the pairs of a form, or a name from its
/// value.
pub open spec fn separates(c: char) -> bool {
    c == '&' || c == '='
}

/// No byte is written with a separator in it.
pub proof fn lemma_form_byte_has_no_separator(byte: u8)
    ensures
        forall|i: int| 0 <= i < form_byte(byte).len() ==> !separates(#[trigger] form_byte(byte)[i]),
{
    reveal_strlit("0123456789ABCDEF");
}

/// No name and no value is written with a separator in it: every `&` of a
/// form stands between two pairs, and every `=` between a name and its value.
pub proof fn lemma_form_part_has_no_separator(text: Seq<char>)
    ensures
        forall|i: int| 0 <= i < form_part(text).len() ==> !separates(#[trigger] form_part(text)[i]),
{
    lemma_form_bytes_have_no_separator(encode_utf8(text));
}

/// The same, for any string of bytes.
proof fn lemma_form_bytes_have_no_separator(bytes: Seq<u8>)
    ensures
        forall|i: int|
            0 <= i < form_bytes(bytes).len() ==> !separates(#[trigger] form_bytes(bytes)[i]),
    decreases bytes.len(),
{
    if bytes.len() > 0 {
        let front = form_bytes(bytes.drop_last());
        let last = form_byte(bytes.last());
        lemma_form_bytes_have_no_separator(bytes.drop_last());
        lemma_form_byte_has_no_separator(bytes.last());
        assert forall|i: int| 0 <= i < (front + last).len() implies !separates(
            #[trigger] (front + last)[i],
        ) by {
            if i < front.len() {
                assert((front + last)[i] == front[i]);
            } else {
                assert((front + last)[i] == last[i - front.len()]);
            }
        }
    }
}

/// The characters of each name and value of a list of pairs.
pub open spec fn pairs_view(pairs: Seq<(&str, &str)>) -> Seq<(Seq<char>, Seq<char>)> {
    Seq::new(pairs.len(), |i: int| (pairs[i].0@, pairs[i].1@))
}

/// Writes pairs of strings as a form.
///
/// Trusted: calls `serde_urlencoded::to_string` on a sequence of pairs of
/// string slices. Its serializer takes a sequence of two-element tuples whose
/// parts are strings and hands each to `form_urlencoded`'s `append_pair`,
/// which writes `&` unless the output is still empty, then the name, `=` and
/// the value, each through `byte_serialize`; no step on such input returns an
/// error.
#[verifier::external_body]
pub(crate) fn form_encode(
    pairs: &Vec<(&str, &str)>,
) -> (r: Result<String, serde_urlencoded::ser::Error>)
    ensures
        r is Ok,
        r matches Ok(text) ==> text@ == form_text(pairs_view(pairs@)),
{
    serde_urlencoded::to_string(pairs)
}

} // verus!
