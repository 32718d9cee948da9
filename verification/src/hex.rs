//! Lower-case hexadecimal rendering of field elements and of big-endian byte strings.

use vstd::prelude::*;
use vstd::string::*;

verus! {

#[verifier::external_type_specification]
#[verifier::external_body]
pub struct ExFieldElement(starknet::core::types::FieldElement);

/// The 32 bytes, most significant first, of the number that a field element holds.
pub uninterp spec fn felt_be_bytes(felt: starknet::core::types::FieldElement) -> Seq<u8>;

/// Calls `FieldElement::to_bytes_be`, which writes the element's canonical (non-Montgomery)
/// value into a fresh 32-byte array, most significant byte first. The contract only gives
/// that array a name; nothing is claimed about which bytes it holds.
#[verifier::external_body]
fn felt_to_bytes_be(felt: &starknet::core::types::FieldElement) -> (bytes: [u8; 32])
    ensures
        bytes@ == felt_be_bytes(*felt),
{
    felt.to_bytes_be()
}

/// Calls `String::push`, which appends one character to the end of the string.
#[verifier::external_body]
fn push_char(text: &mut String, c: char)
    ensures
        final(text)@ == old(text)@.push(c),
{
    text.push(c)
}

/// The lower-case hexadecimal digit that stands for `n`, for `n` below sixteen.
pub open spec fn hex_digit(n: int) -> char {
    seq!['0', '1', '2', '3', '4', '5', '6', '7', '8', '9', 'a', 'b', 'c', 'd', 'e', 'f'][n]
}

/// Two hexadecimal digits for every byte, high nibble first, in the order of the bytes.
pub open spec fn hex_pairs(bytes: Seq<u8>) -> Seq<char> {
    Seq::new(
        2 * bytes.len(),
        |i: int|
            if i % 2 == 0 {
                hex_digit(bytes[i / 2] as int / 16)
            } else {
                hex_digit(bytes[i / 2] as int % 16)
            },
    )
}

/// Whether every byte is zero.
pub open spec fn all_zero(bytes: Seq<u8>) -> bool {
    forall|i: int| 0 <= i < bytes.len() ==> bytes[i] == 0
}

/// How many zero bytes stand before the first non-zero byte.
pub open spec fn leading_zeros(bytes: Seq<u8>) -> nat
    decreases bytes.len(),
{
    if bytes.len() > 0 && bytes[0] == 0 {
        1 + leading_zeros(bytes.drop_first())
    } else {
        0
    }
}

/// The text of a big-endian number: `0x0` for zero, otherwise `0x` followed by two digits
/// for each byte from the first non-zero byte on.
pub open spec fn hex_text(bytes: Seq<u8>) -> Seq<char> {
    if all_zero(bytes) {
        seq!['0', 'x', '0']
    } else {
        seq!['0', 'x'] + hex_pairs(bytes.skip(leading_zeros(bytes) as int))
    }
}

/// A prefix of `k` zero bytes that is followed by the end or by a non-zero byte is the
/// whole run of leading zeros.
pub proof fn lemma_leading_zeros(bytes: Seq<u8>, k: int)
    requires
        0 <= k <= bytes.len(),
        forall|j: int| 0 <= j < k ==> bytes[j] == 0,
        k == bytes.len() || bytes[k] != 0,
    ensures
        leading_zeros(bytes) == k,
    decreases k,
{
    if k > 0 {
        let rest = bytes.drop_first();
        assert forall|j: int| 0 <= j < k - 1 implies rest[j] == 0 by {
            assert(rest[j] == bytes[j + 1]);
        }
        lemma_leading_zeros(rest, k - 1);
    }
}

/// The text always opens with `0x`. Zero has one digit; any other number has two digits
/// for each byte from its first non-zero byte on, so that the text is as long as it can
/// be exactly when the first byte is not zero.
pub proof fn lemma_hex_text_shape(bytes: Seq<u8>)
    ensures
        hex_text(bytes).subrange(0, 2) == seq!['0', 'x'],
        all_zero(bytes) ==> hex_text(bytes).len() == 3,
        !all_zero(bytes) ==> hex_text(bytes).len() == 2 + 2 * (bytes.len() - leading_zeros(bytes)),
        bytes.len() > 0 ==> (hex_text(bytes).len() == 2 + 2 * bytes.len() <==> bytes[0] != 0),
{
    lemma_leading_zeros_bound(bytes);
    assert(hex_text(bytes).subrange(0, 2) =~= seq!['0', 'x']);
    if all_zero(bytes) && bytes.len() > 0 {
        assert(bytes[0] == 0);
    }
}

/// The run of leading zeros ends inside the bytes unless all of them are zero.
pub proof fn lemma_leading_zeros_bound(bytes: Seq<u8>)
    ensures
        leading_zeros(bytes) <= bytes.len(),
        leading_zeros(bytes) == bytes.len() <==> all_zero(bytes),
        leading_zeros(bytes) == 0 <==> bytes.len() == 0 || bytes[0] != 0,
    decreases bytes.len(),
{
    if bytes.len() > 0 && bytes[0] == 0 {
        let rest = bytes.drop_first();
        lemma_leading_zeros_bound(rest);
        if all_zero(rest) {
            assert forall|i: int| 0 <= i < bytes.len() implies bytes[i] == 0 by {
                if i > 0 {
                    assert(rest[i - 1] == bytes[i]);
                }
            }
        }
        if all_zero(bytes) {
            assert forall|i: int| 0 <= i < rest.len() implies rest[i] == 0 by {
                assert(rest[i] == bytes[i + 1]);
            }
        }
    } else if bytes.len() > 0 {
        assert(!all_zero(bytes));
    }
}

/// Computes the lower-case hexadecimal digit of a nibble.
pub fn nibble_char(n: u8) -> (c: char)
    requires
        n < 16,
    ensures
        c == hex_digit(n as int),
{
    if n == 0 {
        '0'
    } else if n == 1 {
        '1'
    } else if n == 2 {
        '2'
    } else if n == 3 {
        '3'
    } else if n == 4 {
        '4'
    } else if n == 5 {
        '5'
    } else if n == 6 {
        '6'
    } else if n == 7 {
        '7'
    } else if n == 8 {
        '8'
    } else if n == 9 {
        '9'
    } else if n == 10 {
        'a'
    } else if n == 11 {
        'b'
    } else if n == 12 {
        'c'
    } else if n == 13 {
        'd'
    } else if n == 14 {
        'e'
    } else {
        'f'
    }
}

/// Renders a big-endian number as `0x` and its hexadecimal digits, without leading zero
/// bytes; zero is rendered as `0x0`.
pub fn hex_of_bytes(bytes: &[u8]) -> (text: String)
    ensures
        text@ == hex_text(bytes@),
{
    let len: usize = bytes.len();
    let mut start: usize = 0;
    while start < len && bytes[start] == 0
        invariant
            len == bytes@.len(),
            start <= len,
            forall|j: int| 0 <= j < start ==> bytes@[j] == 0,
        decreases len - start,
    {
        start = start + 1;
    }
    proof {
        lemma_leading_zeros(bytes@, start as int);
        lemma_leading_zeros_bound(bytes@);
    }
    if start == len {
        proof {
            reveal_strlit("0x0");
            assert("0x0"@ =~= seq!['0', 'x', '0']);
        }
        return String::from_str("0x0");
    }
    let mut text = String::from_str("0x");
    proof {
        reveal_strlit("0x");
        assert(text@ =~= seq!['0', 'x'] + hex_pairs(bytes@.subrange(start as int, start as int)));
    }
    let mut i: usize = start;
    while i < len
        invariant
            len == bytes@.len(),
            start <= i <= len,
            text@ == seq!['0', 'x'] + hex_pairs(bytes@.subrange(start as int, i as int)),
        decreases len - i,
    {
        let byte: u8 = bytes[i];
        let ghost before = text@;
        push_char(&mut text, nibble_char(byte / 16));
        push_char(&mut text, nibble_char(byte % 16));
        proof {
            let shorter = bytes@.subrange(start as int, i as int);
            let longer = bytes@.subrange(start as int, i as int + 1);
            assert(longer =~= shorter.push(byte));
            assert(hex_pairs(longer) =~= hex_pairs(shorter).push(hex_digit(byte as int / 16)).push(
                hex_digit(byte as int % 16),
            ));
            assert(text@ =~= seq!['0', 'x'] + hex_pairs(longer));
        }
        i = i + 1;
    }
    proof {
        assert(bytes@.subrange(start as int, len as int) =~= bytes@.skip(start as int));
    }
    text
}

/// Renders a field element as `0x` and the hexadecimal digits of its value, without
/// leading zero bytes; the zero element is rendered as `0x0`.
pub fn to_hex(felt: starknet::core::types::FieldElement) -> (text: String)
    ensures
        text@ == hex_text(felt_be_bytes(felt)),
{
    let bytes = felt_to_bytes_be(&felt);
    hex_of_bytes(bytes.as_slice())
}

} // verus!
