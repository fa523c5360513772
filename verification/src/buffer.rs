//! Text held in the fixed-capacity byte buffers that the platform fills.
//!
//! A buffer holds a zero-terminated text. The last byte of a buffer is never
//! part of the text: it stands for the terminator whatever it holds, so a
//! buffer that was filled to the brim is read as if it ended in a zero byte.

use vstd::prelude::*;
use vstd::slice::slice_subrange;
use vstd::utf8::*;

verus! {

/// The number of bytes of text in `buf`: the bytes before the first zero
/// byte, and never the last byte of the buffer.
pub open spec fn text_len(buf: Seq<u8>) -> nat
    decreases buf.len(),
{
    if buf.len() <= 1 || buf[0] == 0 {
        0
    } else {
        1 + text_len(buf.drop_first())
    }
}

/// The bytes of the text in `buf`.
pub open spec fn text_bytes(buf: Seq<u8>) -> Seq<u8> {
    buf.take(text_len(buf) as int)
}

/// The characters that a lossy UTF-8 decoding makes of `bytes`: the text that
/// `bytes` encode where they are valid UTF-8, and otherwise that text with
/// U+FFFD wherever an invalid sequence stood.
pub uninterp spec fn lossy_utf8(bytes: Seq<u8>) -> Seq<char>;

/// The text that [`decode_text`] reads from `buf`: the text that the bytes
/// before the terminator encode where they are valid UTF-8, and their lossy
/// decoding where they are not.
pub open spec fn text_of(buf: Seq<u8>) -> Seq<char> {
    if valid_utf8(text_bytes(buf)) {
        decode_utf8(text_bytes(buf))
    } else {
        lossy_utf8(text_bytes(buf))
    }
}

/// Whether every byte is below 128.
pub open spec fn is_ascii_bytes(bytes: Seq<u8>) -> bool {
    forall|i: int| 0 <= i < bytes.len() ==> bytes[i] < 128
}

/// The characters of the same numbers as the bytes.
pub open spec fn ascii_chars(bytes: Seq<u8>) -> Seq<char> {
    Seq::new(bytes.len(), |i: int| bytes[i] as char)
}

/// Where the text of a buffer ends: inside the buffer, before its last byte,
/// at the first zero byte if one stands before the last byte.
pub proof fn text_len_is_first_terminator(buf: Seq<u8>)
    ensures
        text_len(buf) <= buf.len(),
        buf.len() > 0 ==> text_len(buf) < buf.len(),
        forall|i: int| 0 <= i < text_len(buf) ==> buf[i] != 0,
        text_len(buf) + 1 < buf.len() ==> buf[text_len(buf) as int] == 0,
    decreases buf.len(),
{
    if buf.len() <= 1 || buf[0] == 0 {
    } else {
        let rest = buf.drop_first();
        text_len_is_first_terminator(rest);
        assert forall|i: int| 0 <= i < text_len(buf) implies buf[i] != 0 by {
            if i > 0 {
                assert(buf[i] == rest[i - 1]);
            }
        }
        if text_len(buf) + 1 < buf.len() {
            assert(buf[text_len(buf) as int] == rest[text_len(rest) as int]);
        }
    }
}

/// Bytes below 128 are valid UTF-8 and decode to the characters of the same
/// numbers.
pub proof fn ascii_bytes_decode(bytes: Seq<u8>)
    requires
        is_ascii_bytes(bytes),
    ensures
        valid_utf8(bytes),
        decode_utf8(bytes) == ascii_chars(bytes),
{
    let chars = ascii_chars(bytes);
    assert(is_ascii_chars(chars));
    is_ascii_chars_encode_utf8(chars);
    assert(encode_utf8(chars) =~= bytes);
    encode_utf8_valid_utf8(chars);
    encode_utf8_decode_utf8(chars);
}

/// A buffer whose text is of bytes below 128 is read character for byte:
/// the text is the bytes before the terminator, each as the character of
/// its number, and nothing of what follows the terminator.
pub proof fn ascii_text_is_read_as_it_is(buf: Seq<u8>)
    requires
        is_ascii_bytes(text_bytes(buf)),
    ensures
        text_of(buf) == ascii_chars(text_bytes(buf)),
        text_of(buf).len() == text_len(buf),
        forall|i: int| 0 <= i < text_len(buf) ==> text_of(buf)[i] == buf[i] as char,
{
    text_len_is_first_terminator(buf);
    ascii_bytes_decode(text_bytes(buf));
}

/// Whether `buf` holds `text`, all of nonzero bytes below 128, then a zero
/// byte, then anything.
pub open spec fn holds_ascii_text(buf: Seq<u8>, text: Seq<u8>) -> bool {
    &&& text.len() < buf.len()
    &&& buf.take(text.len() as int) == text
    &&& buf[text.len() as int] == 0
    &&& forall|i: int| 0 <= i < text.len() ==> #[trigger] text[i] != 0 && text[i] < 128
}

/// A buffer that holds a text of nonzero bytes below 128 and a terminator
/// is read as that text, character for byte, whatever follows the
/// terminator.
pub proof fn terminated_ascii_text(buf: Seq<u8>, text: Seq<u8>)
    requires
        holds_ascii_text(buf, text),
    ensures
        text_bytes(buf) == text,
        text_of(buf) == ascii_chars(text),
    decreases text.len(),
{
    if text.len() == 0 {
        assert(text_bytes(buf) =~= text);
    } else {
        let rest = buf.drop_first();
        let tail = text.drop_first();
        assert(buf[0] == buf.take(text.len() as int)[0]);
        assert(rest.take(tail.len() as int) =~= tail);
        assert forall|i: int| 0 <= i < tail.len() implies #[trigger] tail[i] != 0 && tail[i]
            < 128 by {
            assert(tail[i] == text[i + 1]);
        }
        terminated_ascii_text(rest, tail);
        assert(text_len(buf) == 1 + text_len(rest));
        assert(text_len(rest) == tail.len()) by {
            assert(text_bytes(rest).len() == tail.len());
            text_len_is_first_terminator(rest);
        }
        assert(text_bytes(buf) =~= text);
    }
    ascii_text_is_read_as_it_is(buf);
}

/// `String::from_utf8_lossy` of std, with the result made an owned `String`.
/// Believed of it: the result depends on the bytes alone, and is the text
/// that the bytes encode where they are valid UTF-8.
#[verifier::external_body]
fn from_utf8_lossy(bytes: &[u8]) -> (r: String)
    ensures
        r@ == lossy_utf8(bytes@),
        valid_utf8(bytes@) ==> r@ == decode_utf8(bytes@),
{
    String::from_utf8_lossy(bytes).into_owned()
}

/// Finds the end of the text in `buf`.
pub fn text_length(buf: &[u8]) -> (n: usize)
    ensures
        n == text_len(buf@),
{
    let len: usize = buf.len();
    if len == 0 {
        return 0;
    }
    let mut i: usize = 0;
    proof {
        assert(buf@.skip(0) =~= buf@);
    }
    while i < len - 1
        invariant
            len == buf@.len(),
            len > 0,
            0 <= i <= len - 1,
            text_len(buf@) == i + text_len(buf@.skip(i as int)),
        decreases len - i,
    {
        proof {
            assert(buf@.skip(i as int).drop_first() =~= buf@.skip(i + 1));
            assert(buf@.skip(i as int)[0] == buf@[i as int]);
        }
        if buf[i] == 0 {
            return i;
        }
        i = i + 1;
    }
    i
}

/// Reads the text of a buffer: the bytes before the terminator, decoded as
/// UTF-8 with U+FFFD in place of whatever is invalid. No buffer is refused.
/// A text of bytes below 128 comes out character for byte.
pub fn decode_text(buf: &[u8]) -> (r: String)
    ensures
        r@ == text_of(buf@),
        is_ascii_bytes(text_bytes(buf@)) ==> r@ == ascii_chars(text_bytes(buf@)),
{
    let n: usize = text_length(buf);
    proof {
        text_len_is_first_terminator(buf@);
        if is_ascii_bytes(text_bytes(buf@)) {
            ascii_text_is_read_as_it_is(buf@);
        }
    }
    from_utf8_lossy(slice_subrange(buf, 0, n))
}

} // verus!
