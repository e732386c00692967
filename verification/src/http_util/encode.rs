//! Percent-encoding of object paths for use in a URL.

use vstd::prelude::*;
use vstd::utf8::encode_utf8;

use crate::text::push_char;

verus! {

/// Whether a byte stands for itself in an encoded path: ASCII letters and
/// digits, the path separator `/`, and `- _ . ! ~ * ' ( )`.
pub open spec fn is_unreserved(b: u8) -> bool {
    ('a' as u8 <= b && b <= 'z' as u8) || ('A' as u8 <= b && b <= 'Z' as u8) || ('0' as u8 <= b
        && b <= '9' as u8) || b == '/' as u8 || b == '-' as u8 || b == '_' as u8 || b == '.' as u8
        || b == '!' as u8 || b == '~' as u8 || b == '*' as u8 || b == '\'' as u8 || b == '(' as u8
        || b == ')' as u8
}

/// The upper-case hexadecimal digit of `d`.
pub open spec fn hex_digit(d: u8) -> char
    recommends
        d < 16,
{
    if d < 10 {
        (('0' as u8) + d) as char
    } else {
        (('A' as u8) + (d - 10) as u8) as char
    }
}

/// One byte in an encoded path: itself, or `%` and its two hexadecimal
/// digits.
pub open spec fn encoded_byte(b: u8) -> Seq<char> {
    if is_unreserved(b) {
        seq![b as char]
    } else {
        seq!['%', hex_digit(b / 16), hex_digit(b % 16)]
    }
}

/// The bytes `bytes`, each encoded, in order.
pub open spec fn percent_encoded(bytes: Seq<u8>) -> Seq<char>
    decreases bytes.len(),
{
    if bytes.len() == 0 {
        Seq::empty()
    } else {
        percent_encoded(bytes.drop_last()) + encoded_byte(bytes.last())
    }
}

/// A path as it stands in a URL: the bytes of its UTF-8 form, each encoded.
pub open spec fn encoded_path(path: Seq<char>) -> Seq<char> {
    percent_encoded(encode_utf8(path))
}

/// Whether `c` may occur in an encoded path.
pub open spec fn is_url_safe(c: char) -> bool {
    (c as u32) < 128 && (is_unreserved(c as u8) || c == '%')
}

/// An encoded path holds only characters that are safe in a URL.
pub proof fn lemma_encoded_is_safe(bytes: Seq<u8>)
    ensures
        forall|i: int|
            0 <= i < percent_encoded(bytes).len() ==> is_url_safe(
                #[trigger] percent_encoded(bytes)[i],
            ),
    decreases bytes.len(),
{
    if bytes.len() > 0 {
        lemma_encoded_is_safe(bytes.drop_last());
        let b = bytes.last();
        let head = percent_encoded(bytes.drop_last());
        let tail = encoded_byte(b);
        assert forall|j: int| 0 <= j < tail.len() implies is_url_safe(#[trigger] tail[j]) by {
            if !is_unreserved(b) {
                assert(b / 16 < 16 && b % 16 < 16);
            }
        }
        assert forall|i: int| 0 <= i < percent_encoded(bytes).len() implies is_url_safe(
            #[trigger] percent_encoded(bytes)[i],
        ) by {
            if i < head.len() {
                assert(percent_encoded(bytes)[i] == head[i]);
            } else {
                assert(percent_encoded(bytes)[i] == tail[i - head.len()]);
            }
        }
    }
}

fn is_unreserved_byte(b: u8) -> (r: bool)
    ensures
        r == is_unreserved(b),
{
    (b >= 'a' as u8 && b <= 'z' as u8) || (b >= 'A' as u8 && b <= 'Z' as u8) || (b >= '0' as u8
        && b <= '9' as u8) || b == '/' as u8 || b == '-' as u8 || b == '_' as u8 || b == '.' as u8
        || b == '!' as u8 || b == '~' as u8 || b == '*' as u8 || b == '\'' as u8 || b == '(' as u8
        || b == ')' as u8
}

fn hex_digit_of(d: u8) -> (c: char)
    requires
        d < 16,
    ensures
        c == hex_digit(d),
{
    if d < 10 {
        (('0' as u8) + d) as char
    } else {
        (('A' as u8) + (d - 10)) as char
    }
}

/// Appends the encoded form of `path` to `s`.
pub fn push_encoded_path(s: &mut String, path: &str)
    ensures
        final(s)@ == old(s)@ + encoded_path(path@),
{
    let bytes = path.as_bytes();
    let mut i: usize = 0;
    assert(bytes@.take(0) =~= Seq::<u8>::empty());
    assert(s@ =~= old(s)@ + percent_encoded(bytes@.take(0)));
    while i < bytes.len()
        invariant
            i <= bytes.len(),
            bytes@ == encode_utf8(path@),
            s@ == old(s)@ + percent_encoded(bytes@.take(i as int)),
        decreases bytes.len() - i,
    {
        let b = bytes[i];
        let ghost before = s@;
        if is_unreserved_byte(b) {
            push_char(s, b as char);
        } else {
            push_char(s, '%');
            push_char(s, hex_digit_of(b / 16));
            push_char(s, hex_digit_of(b % 16));
        }
        proof {
            assert(bytes@.take(i + 1).drop_last() =~= bytes@.take(i as int));
            assert(bytes@.take(i + 1).last() == b);
            assert(s@ =~= before + encoded_byte(b));
            assert(s@ =~= old(s)@ + (percent_encoded(bytes@.take(i as int)) + encoded_byte(b)));
        }
        i = i + 1;
    }
    assert(bytes@.take(bytes.len() as int) =~= bytes@);
}

/// The encoded form of `path`.
pub fn percent_encode_path(path: &str) -> (s: String)
    ensures
        s@ == encoded_path(path@),
{
    let mut s = String::new();
    push_encoded_path(&mut s, path);
    assert(Seq::<char>::empty() + encoded_path(path@) =~= encoded_path(path@));
    s
}

} // verus!
