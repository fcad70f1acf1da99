//! The identifier's canonical text form: 32 lowercase hex digits in groups
//! of 8-4-4-4-12, separated by four hyphens — 36 characters in all. This is
//! the form identifiers travel in, both in path segments and in bodies; the
//! parser accepts exactly that shape (hex digits in either case) and rejects
//! everything else before the store is consulted.

use vstd::arithmetic::div_mod::lemma_basic_div;
use vstd::arithmetic::div_mod::lemma_div_basics;
use vstd::arithmetic::div_mod::lemma_div_denominator;
use vstd::arithmetic::div_mod::lemma_fundamental_div_mod;
use vstd::arithmetic::div_mod::lemma_mod_bound;
use vstd::prelude::*;

verus! {

/// 16 to the power `k` (1 for `k <= 0`).
pub open spec fn p16(k: int) -> int
    decreases k,
{
    if k <= 0 {
        1
    } else {
        16 * p16(k - 1)
    }
}

proof fn lemma_p16_pos(k: int)
    ensures
        p16(k) > 0,
    decreases k,
{
    if k > 0 {
        lemma_p16_pos(k - 1);
    }
}

proof fn lemma_p16_mono(a: int, b: int)
    requires
        a <= b,
    ensures
        p16(a) <= p16(b),
    decreases b,
{
    if b > 0 && a < b {
        lemma_p16_mono(a, b - 1);
        lemma_p16_pos(b - 1);
    }
}

/// Hex digit `k` of `id`, counting from the most significant of the 32
/// digits of its canonical form; a value below 16.
pub open spec fn nibble(id: u128, k: int) -> int {
    (id as int / p16(31 - k)) % 16
}

/// The four hyphen positions of the canonical form.
pub open spec fn is_hyphen_pos(i: int) -> bool {
    i == 8 || i == 13 || i == 18 || i == 23
}

/// How many non-hyphen positions lie before position `i`.
pub open spec fn digit_cnt(i: int) -> int {
    if i <= 8 {
        i
    } else if i <= 13 {
        i - 1
    } else if i <= 18 {
        i - 2
    } else if i <= 23 {
        i - 3
    } else {
        i - 4
    }
}

/// The text position at which hex digit `k` stands.
pub open spec fn digit_pos(k: int) -> int {
    if k < 8 {
        k
    } else if k < 12 {
        k + 1
    } else if k < 16 {
        k + 2
    } else if k < 20 {
        k + 3
    } else {
        k + 4
    }
}

/// The lowercase hex digit byte for a value below 16.
pub open spec fn hex_byte(n: int) -> u8 {
    if n < 10 {
        (48 + n) as u8
    } else {
        (87 + n) as u8
    }
}

/// Byte `i` of the canonical 36-byte text of `id`.
pub open spec fn id_byte_at(id: u128, i: int) -> u8 {
    if is_hyphen_pos(i) {
        45
    } else {
        hex_byte(nibble(id, digit_cnt(i)))
    }
}

/// The canonical 36-byte text of `id`.
pub open spec fn id_bytes(id: u128) -> Seq<u8> {
    Seq::new(36, |i: int| id_byte_at(id, i))
}

/// The canonical text of `id` as characters (it is ASCII throughout).
pub open spec fn id_chars(id: u128) -> Seq<char> {
    id_bytes(id).map_values(|b: u8| b as char)
}

/// Is `b` the byte of a hex digit, in either case?
pub open spec fn is_hex_digit(b: u8) -> bool {
    (48 <= b && b <= 57) || (97 <= b && b <= 102) || (65 <= b && b <= 70)
}

/// The value of a hex digit byte.
pub open spec fn hex_val(b: u8) -> int {
    if 48 <= b && b <= 57 {
        b - 48
    } else if 97 <= b && b <= 102 {
        b - 87
    } else {
        b - 55
    }
}

/// A well-formed identifier text: exactly 36 bytes, a hyphen at each of the
/// four canonical positions, a hex digit (either case) everywhere else.
pub open spec fn valid_id_bytes(b: Seq<u8>) -> bool {
    &&& b.len() == 36
    &&& forall|i: int| 0 <= i < 36 && is_hyphen_pos(i) ==> b[i] == 45
    &&& forall|i: int| 0 <= i < 36 && !is_hyphen_pos(i) ==> is_hex_digit(#[trigger] b[i])
}

/// The value of the first `k` hex digits of a well-formed text, most
/// significant first.
pub open spec fn prefix_val(b: Seq<u8>, k: int) -> int
    decreases k,
{
    if k <= 0 {
        0
    } else {
        16 * prefix_val(b, k - 1) + hex_val(b[digit_pos(k - 1)])
    }
}

/// What parsing owes on every input: the identifier value of a well-formed
/// text, and nothing for any other byte sequence.
pub open spec fn spec_parse_id(b: Seq<u8>) -> Option<u128> {
    if valid_id_bytes(b) {
        Some(prefix_val(b, 32) as u128)
    } else {
        None
    }
}

/// The 32 hex digit values of `id`, least significant first.
fn nibbles_of(id: u128) -> (r: Vec<u8>)
    ensures
        r@.len() == 32,
        forall|j: int| 0 <= j < 32 ==> #[trigger] r@[j] as int == (id as int / p16(j)) % 16,
{
    let mut r: Vec<u8> = Vec::new();
    let mut x: u128 = id;
    let mut j: usize = 0;
    proof {
        lemma_div_basics(id as int);
    }
    while j < 32
        invariant
            j <= 32,
            r@.len() == j,
            x as int == id as int / p16(j as int),
            forall|m: int| 0 <= m < j ==> #[trigger] r@[m] as int == (id as int / p16(m)) % 16,
        decreases 32 - j,
    {
        let d: u8 = (x % 16) as u8;
        proof {
            lemma_p16_pos(j as int);
            lemma_div_denominator(id as int, p16(j as int), 16);
            assert(p16(j as int + 1) == 16 * p16(j as int));
        }
        r.push(d);
        x = x / 16;
        j += 1;
    }
    r
}

/// Every byte of the canonical text is printable ASCII, and the text as a
/// whole is well-formed, so it parses.
proof fn lemma_id_bytes_valid(id: u128)
    ensures
        valid_id_bytes(id_bytes(id)),
        forall|i: int| 0 <= i < 36 ==> #[trigger] id_bytes(id)[i] < 128,
{
    assert forall|i: int| 0 <= i < 36 && !is_hyphen_pos(i) implies is_hex_digit(
        #[trigger] id_bytes(id)[i],
    ) by {
        lemma_p16_pos(31 - digit_cnt(i));
        lemma_mod_bound(id as int / p16(31 - digit_cnt(i)), 16);
    }
    assert forall|i: int| 0 <= i < 36 implies #[trigger] id_bytes(id)[i] < 128 by {
        if !is_hyphen_pos(i) {
            lemma_p16_pos(31 - digit_cnt(i));
            lemma_mod_bound(id as int / p16(31 - digit_cnt(i)), 16);
        }
    }
}

/// The canonical text of `id`, as bytes.
pub fn id_text_bytes(id: u128) -> (r: Vec<u8>)
    ensures
        r@ == id_bytes(id),
{
    let digits = nibbles_of(id);
    let mut r: Vec<u8> = Vec::new();
    let mut i: usize = 0;
    while i < 36
        invariant
            digits@.len() == 32,
            forall|m: int| 0 <= m < 32 ==> #[trigger] digits@[m] as int == (id as int / p16(m))
                % 16,
            i <= 36,
            r@.len() == i,
            forall|m: int| 0 <= m < i ==> r@[m] == id_byte_at(id, m),
        decreases 36 - i,
    {
        if i == 8 || i == 13 || i == 18 || i == 23 {
            r.push(45);
        } else {
            let k: usize = if i < 8 {
                i
            } else if i < 13 {
                i - 1
            } else if i < 18 {
                i - 2
            } else if i < 23 {
                i - 3
            } else {
                i - 4
            };
            let d: u8 = digits[31 - k];
            proof {
                lemma_p16_pos(31 - k as int);
                lemma_mod_bound(id as int / p16(31 - k as int), 16);
                assert(d as int == nibble(id, k as int));
            }
            let c: u8 = if d < 10 {
                48 + d
            } else {
                87 + d
            };
            r.push(c);
        }
        i += 1;
    }
    proof {
        assert(r@ =~= id_bytes(id));
    }
    r
}

/// Relies on `String::from_utf8`: a sequence of ASCII bytes is valid UTF-8
/// and decodes to exactly one character per byte, each the character with
/// that byte's code.
#[verifier::external_body]
fn ascii_string(bytes: Vec<u8>) -> (r: String)
    requires
        forall|i: int| 0 <= i < bytes@.len() ==> bytes@[i] < 128,
    ensures
        r@ == bytes@.map_values(|b: u8| b as char),
{
    String::from_utf8(bytes).unwrap()
}

/// The canonical 36-character text of `id`.
pub fn id_text(id: u128) -> (r: String)
    ensures
        r@ == id_chars(id),
        r@.len() == 36,
{
    proof {
        lemma_id_bytes_valid(id);
    }
    let bytes = id_text_bytes(id);
    ascii_string(bytes)
}

/// Parses the canonical 36-character identifier text — hex digits accepted
/// in either case — into its 128-bit value; every other input is rejected.
pub fn parse_id(bytes: &[u8]) -> (r: Option<u128>)
    ensures
        r == spec_parse_id(bytes@),
{
    if bytes.len() != 36 {
        return None;
    }
    let mut acc: u128 = 0;
    let mut i: usize = 0;
    while i < 36
        invariant
            bytes@.len() == 36,
            i <= 36,
            forall|m: int| 0 <= m < i && is_hyphen_pos(m) ==> bytes@[m] == 45,
            forall|m: int| 0 <= m < i && !is_hyphen_pos(m) ==> is_hex_digit(#[trigger] bytes@[m]),
            acc as int == prefix_val(bytes@, digit_cnt(i as int)),
            (acc as int) < p16(digit_cnt(i as int)),
        decreases 36 - i,
    {
        let b: u8 = bytes[i];
        if i == 8 || i == 13 || i == 18 || i == 23 {
            if b != 45 {
                return None;
            }
        } else {
            let v: u8 = if 48 <= b && b <= 57 {
                b - 48
            } else if 97 <= b && b <= 102 {
                b - 87
            } else if 65 <= b && b <= 70 {
                b - 55
            } else {
                return None;
            };
            proof {
                lemma_p16_pos(digit_cnt(i as int));
                assert(digit_pos(digit_cnt(i as int)) == i as int);
                assert(p16(digit_cnt(i as int) + 1) == 16 * p16(digit_cnt(i as int)));
                lemma_p16_mono(digit_cnt(i as int) + 1, 32);
                reveal_with_fuel(p16, 33);
                assert(p16(32) == 0x100000000000000000000000000000000);
            }
            acc = acc * 16 + (v as u128);
        }
        i += 1;
    }
    proof {
        assert(valid_id_bytes(bytes@));
        assert(acc as int == prefix_val(bytes@, 32));
    }
    Some(acc)
}

/// The value of the canonical text's first `k` digits is the identifier with
/// its last `32 - k` digits divided away.
proof fn lemma_prefix_of_id_bytes(id: u128, k: int)
    requires
        0 <= k <= 32,
    ensures
        prefix_val(id_bytes(id), k) == id as int / p16(32 - k),
    decreases k,
{
    if k == 0 {
        reveal_with_fuel(p16, 33);
        assert((id as int) < p16(32));
        lemma_basic_div(id as int, p16(32));
    } else {
        lemma_prefix_of_id_bytes(id, k - 1);
        lemma_p16_pos(32 - k);
        lemma_mod_bound(id as int / p16(32 - k), 16);
        assert(id_bytes(id)[digit_pos(k - 1)] == hex_byte(nibble(id, k - 1)));
        assert(hex_val(hex_byte(nibble(id, k - 1))) == nibble(id, k - 1));
        lemma_div_denominator(id as int, p16(32 - k), 16);
        assert(p16(33 - k) == 16 * p16(32 - k));
        lemma_fundamental_div_mod(id as int / p16(32 - k), 16);
    }
}

/// The canonical text of an identifier parses back to that identifier.
pub proof fn lemma_id_text_round_trip(id: u128)
    ensures
        spec_parse_id(id_bytes(id)) == Some(id),
{
    lemma_id_bytes_valid(id);
    lemma_prefix_of_id_bytes(id, 32);
    lemma_div_basics(id as int);
}

} // verus!
