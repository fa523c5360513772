//! Hexadecimal tokens of at most sixteen bits.

use vstd::prelude::*;

verus! {

/// The value of a hexadecimal digit in either case, or `None` for any other
/// character.
pub open spec fn hex_digit(c: char) -> Option<nat> {
    if '0' <= c <= '9' {
        Some((c as u32 - '0' as u32) as nat)
    } else if 'A' <= c <= 'F' {
        Some((c as u32 - 'A' as u32 + 10) as nat)
    } else if 'a' <= c <= 'f' {
        Some((c as u32 - 'a' as u32 + 10) as nat)
    } else {
        None
    }
}

/// A token is hexadecimal when it is not empty and each of its characters is a
/// hexadecimal digit.
pub open spec fn is_hex_token(token: Seq<char>) -> bool {
    &&& token.len() > 0
    &&& forall|i: int| 0 <= i < token.len() ==> (#[trigger] hex_digit(token[i])) is Some
}

/// The number that the digits of `token` write in base sixteen, most
/// significant digit first. A character that is no digit counts as zero.
pub open spec fn hex_value(token: Seq<char>) -> nat
    decreases token.len(),
{
    if token.len() == 0 {
        0
    } else {
        16 * hex_value(token.drop_last()) + match hex_digit(token.last()) {
            Some(d) => d,
            None => 0,
        }
    }
}

/// What [`parse_hex_u16`] returns: the value of a hexadecimal token that fits
/// sixteen bits.
pub open spec fn hex_u16(token: Seq<char>) -> Option<u16> {
    if is_hex_token(token) && hex_value(token) <= 0xffff {
        Some(hex_value(token) as u16)
    } else {
        None
    }
}

/// The upper-case form of an ASCII letter; any other character is unchanged.
pub open spec fn ascii_upper(c: char) -> char {
    if 'a' <= c <= 'z' {
        (c as u32 - 'a' as u32 + 'A' as u32) as char
    } else {
        c
    }
}

/// The value of a token never falls when digits are appended to it.
pub proof fn hex_value_grows(token: Seq<char>, n: int)
    requires
        0 <= n <= token.len(),
    ensures
        hex_value(token.take(n)) <= hex_value(token),
    decreases token.len() - n,
{
    if n == token.len() {
        assert(token.take(n) =~= token);
    } else {
        hex_value_grows(token, n + 1);
        assert(token.take(n + 1).drop_last() =~= token.take(n));
    }
}

/// Reading a token does not depend on the case of its letters: the token and
/// its upper-case form are hexadecimal together and have the same value.
pub proof fn hex_ignores_case(token: Seq<char>)
    ensures
        is_hex_token(token.map_values(|c: char| ascii_upper(c))) == is_hex_token(token),
        hex_value(token.map_values(|c: char| ascii_upper(c))) == hex_value(token),
        hex_u16(token.map_values(|c: char| ascii_upper(c))) == hex_u16(token),
    decreases token.len(),
{
    let upper = token.map_values(|c: char| ascii_upper(c));
    assert forall|c: char| hex_digit(ascii_upper(c)) == #[trigger] hex_digit(c) by {
        if 'a' <= c <= 'z' {
            let upper = c as u32 - 'a' as u32 + 'A' as u32;
            assert((upper as char) as u32 == upper);
        }
    }
    if token.len() > 0 {
        hex_ignores_case(token.drop_last());
        assert(upper.drop_last() =~= token.drop_last().map_values(|c: char| ascii_upper(c)));
        assert(upper.last() == ascii_upper(token.last()));
    }
    if is_hex_token(token) {
        assert forall|i: int| 0 <= i < upper.len() implies (#[trigger] hex_digit(upper[i])) is Some by {
            assert(hex_digit(token[i]) is Some);
        }
    }
    if is_hex_token(upper) {
        assert forall|i: int| 0 <= i < token.len() implies (#[trigger] hex_digit(token[i])) is Some by {
            assert(hex_digit(upper[i]) is Some);
        }
    }
}

/// The value of one hexadecimal digit.
pub fn hex_digit_value(c: char) -> (r: Option<u8>)
    ensures
        match r {
            Some(d) => hex_digit(c) == Some(d as nat),
            None => hex_digit(c) is None,
        },
{
    if '0' <= c && c <= '9' {
        Some((c as u32 - '0' as u32) as u8)
    } else if 'A' <= c && c <= 'F' {
        Some((c as u32 - 'A' as u32 + 10) as u8)
    } else if 'a' <= c && c <= 'f' {
        Some((c as u32 - 'a' as u32 + 10) as u8)
    } else {
        None
    }
}

/// Reads a token of hexadecimal digits, in either case, as a sixteen-bit
/// number. An empty token, one that holds any other character and one whose
/// value does not fit sixteen bits give `None`.
pub fn parse_hex_u16(token: &str) -> (r: Option<u16>)
    ensures
        r == hex_u16(token@),
{
    let n: usize = token.unicode_len();
    if n == 0 {
        return None;
    }
    let mut value: u32 = 0;
    let mut i: usize = 0;
    while i < n
        invariant
            n == token@.len(),
            0 <= i <= n,
            value == hex_value(token@.take(i as int)),
            value <= 0xffff,
            forall|j: int| 0 <= j < i ==> (#[trigger] hex_digit(token@[j])) is Some,
        decreases n - i,
    {
        let c: char = token.get_char(i);
        proof {
            assert(token@.take(i + 1).drop_last() =~= token@.take(i as int));
            assert(token@.take(i + 1).last() == token@[i as int]);
        }
        match hex_digit_value(c) {
            None => {
                return None;
            },
            Some(d) => {
                value = 16 * value + d as u32;
                if value > 0xffff {
                    proof {
                        hex_value_grows(token@, i + 1);
                    }
                    return None;
                }
            },
        }
        i = i + 1;
    }
    proof {
        assert(token@.take(n as int) =~= token@);
    }
    Some(value as u16)
}

} // verus!
