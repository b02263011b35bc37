//! Parsing and formatting of the textual form of primary identifiers.
//!
//! An identifier is a 128-bit value. Its canonical text is the lowercase
//! hyphenated form (8-4-4-4-12 hex digits); parsing also accepts the plain
//! 32-digit form and uppercase digits. Anything else is syntactically
//! invalid.

use vstd::prelude::*;
use vstd::string::StrSliceExecFns;
use vstd::string::StringExecFns;

verus! {

/// The value of one hex digit, if the character is one. Both cases are
/// accepted.
pub open spec fn hex_digit_value_spec(c: char) -> Option<u8> {
    let v = c as u32;
    if 48 <= v && v <= 57 {
        Some((v - 48) as u8)
    } else if 97 <= v && v <= 102 {
        Some((v - 87) as u8)
    } else if 65 <= v && v <= 70 {
        Some((v - 55) as u8)
    } else {
        None
    }
}

/// Whether a character is a hex digit.
pub open spec fn is_hex_digit(c: char) -> bool {
    hex_digit_value_spec(c) is Some
}

/// The value of a hex digit, zero for any other character.
pub open spec fn hex_char_val(c: char) -> nat {
    match hex_digit_value_spec(c) {
        Some(d) => d as nat,
        None => 0,
    }
}

/// The value of a sequence of hex digits, most significant first.
pub open spec fn hex_value(s: Seq<char>) -> nat
    decreases s.len(),
{
    if s.len() == 0 {
        0
    } else {
        16 * hex_value(s.drop_last()) + hex_char_val(s.last())
    }
}

/// Sixteen to the given power.
pub open spec fn pow16(n: nat) -> nat
    decreases n,
{
    if n == 0 {
        1nat
    } else {
        16 * pow16((n - 1) as nat)
    }
}

/// Every power of sixteen is positive.
pub proof fn lemma_pow16_pos(n: nat)
    ensures
        pow16(n) >= 1,
    decreases n,
{
    if n > 0 {
        lemma_pow16_pos((n - 1) as nat);
    }
}

/// Powers of sixteen do not decrease.
pub proof fn lemma_pow16_increases(a: nat, b: nat)
    requires
        a <= b,
    ensures
        pow16(a) <= pow16(b),
    decreases b,
{
    if a < b {
        lemma_pow16_increases(a, (b - 1) as nat);
        lemma_pow16_pos((b - 1) as nat);
    }
}

/// Sixteen to the thirty-second power, written out: the number of
/// distinct 128-bit identifiers.
pub proof fn lemma_pow16_32()
    ensures
        pow16(32) == 0x100000000000000000000000000000000,
{
    assert(pow16(0) == 1);
    assert(pow16(1) == 0x10);
    assert(pow16(2) == 0x100);
    assert(pow16(3) == 0x1000);
    assert(pow16(4) == 0x10000);
    assert(pow16(5) == 0x100000);
    assert(pow16(6) == 0x1000000);
    assert(pow16(7) == 0x10000000);
    assert(pow16(8) == 0x100000000);
    assert(pow16(9) == 0x1000000000);
    assert(pow16(10) == 0x10000000000);
    assert(pow16(11) == 0x100000000000);
    assert(pow16(12) == 0x1000000000000);
    assert(pow16(13) == 0x10000000000000);
    assert(pow16(14) == 0x100000000000000);
    assert(pow16(15) == 0x1000000000000000);
    assert(pow16(16) == 0x10000000000000000);
    assert(pow16(17) == 0x100000000000000000);
    assert(pow16(18) == 0x1000000000000000000);
    assert(pow16(19) == 0x10000000000000000000);
    assert(pow16(20) == 0x100000000000000000000);
    assert(pow16(21) == 0x1000000000000000000000);
    assert(pow16(22) == 0x10000000000000000000000);
    assert(pow16(23) == 0x100000000000000000000000);
    assert(pow16(24) == 0x1000000000000000000000000);
    assert(pow16(25) == 0x10000000000000000000000000);
    assert(pow16(26) == 0x100000000000000000000000000);
    assert(pow16(27) == 0x1000000000000000000000000000);
    assert(pow16(28) == 0x10000000000000000000000000000);
    assert(pow16(29) == 0x100000000000000000000000000000);
    assert(pow16(30) == 0x1000000000000000000000000000000);
    assert(pow16(31) == 0x10000000000000000000000000000000);
    assert(pow16(32) == 0x100000000000000000000000000000000);
}

/// A sequence of `n` hex digits has a value below sixteen to the `n`.
pub proof fn lemma_hex_value_bound(s: Seq<char>)
    ensures
        hex_value(s) < pow16(s.len()),
    decreases s.len(),
{
    if s.len() == 0 {
    } else {
        lemma_hex_value_bound(s.drop_last());
    }
}

/// The 32 hex-digit positions of an identifier text, with the four hyphens
/// of the hyphenated form stripped; `None` when the shape is neither the
/// plain nor the hyphenated one.
pub open spec fn uuid_hex_chars(s: Seq<char>) -> Option<Seq<char>> {
    if s.len() == 32 {
        Some(s)
    } else if s.len() == 36 && s[8] == '-' && s[13] == '-' && s[18] == '-' && s[23] == '-' {
        Some(
            s.subrange(0, 8) + s.subrange(9, 13) + s.subrange(14, 18) + s.subrange(19, 23)
                + s.subrange(24, 36),
        )
    } else {
        None
    }
}

/// Whether every character of the sequence is a hex digit.
pub open spec fn all_hex(s: Seq<char>) -> bool {
    forall|i: int| 0 <= i < s.len() ==> is_hex_digit(s[i])
}

/// The identifier named by a text, if it is syntactically valid.
pub open spec fn parse_uuid_spec(s: Seq<char>) -> Option<u128> {
    match uuid_hex_chars(s) {
        None => None,
        Some(h) => if all_hex(h) {
            Some(hex_value(h) as u128)
        } else {
            None
        },
    }
}

/// The value of one hex digit character, if it is one.
fn hex_digit_value(c: char) -> (r: Option<u8>)
    ensures
        r == hex_digit_value_spec(c),
{
    let v = c as u32;
    if 48 <= v && v <= 57 {
        Some((v - 48) as u8)
    } else if 97 <= v && v <= 102 {
        Some((v - 87) as u8)
    } else if 65 <= v && v <= 70 {
        Some((v - 55) as u8)
    } else {
        None
    }
}

/// Append the characters of `s` between `from` and `to` to `h`.
fn push_chars(h: &mut Vec<char>, s: &str, from: usize, to: usize)
    requires
        from <= to <= s@.len(),
    ensures
        final(h)@ == old(h)@ + s@.subrange(from as int, to as int),
{
    let mut i: usize = from;
    while i < to
        invariant
            from <= i <= to <= s@.len(),
            h@ =~= old(h)@ + s@.subrange(from as int, i as int),
        decreases to - i,
    {
        h.push(s.get_char(i));
        proof {
            assert(s@.subrange(from as int, i + 1) =~= s@.subrange(from as int, i as int).push(
                s@[i as int],
            ));
        }
        i += 1;
    }
    assert(h@ =~= old(h)@ + s@.subrange(from as int, to as int));
}

/// Parse the 32 collected hex digits into a value.
fn parse_hex32(h: &Vec<char>) -> (r: Option<u128>)
    requires
        h@.len() == 32,
    ensures
        r == (if all_hex(h@) {
            Some(hex_value(h@) as u128)
        } else {
            Option::<u128>::None
        }),
{
    let mut acc: u128 = 0;
    let mut i: usize = 0;
    while i < 32
        invariant
            0 <= i <= 32,
            h@.len() == 32,
            acc as nat == hex_value(h@.subrange(0, i as int)),
            forall|j: int| 0 <= j < i ==> is_hex_digit(h@[j]),
        decreases 32 - i,
    {
        match hex_digit_value(h[i]) {
            None => {
                assert(!all_hex(h@));
                return None;
            },
            Some(d) => {
                proof {
                    lemma_hex_value_bound(h@.subrange(0, i as int));
                    lemma_pow16_increases(i as nat, 31);
                    lemma_pow16_32();
                    assert(16 * hex_value(h@.subrange(0, i as int)) + (d as nat) < 16 * pow16(31));
                }
                acc = acc * 16 + (d as u128);
                proof {
                    let pre = h@.subrange(0, i as int);
                    let post = h@.subrange(0, i + 1);
                    assert(post.drop_last() =~= pre);
                    assert(post.last() == h@[i as int]);
                    assert(hex_char_val(h@[i as int]) == d as nat);
                }
                i += 1;
            },
        }
    }
    proof {
        assert(h@.subrange(0, 32) =~= h@);
        lemma_hex_value_bound(h@);
        lemma_pow16_32();
    }
    Some(acc)
}

/// Parse an identifier text: the hyphenated or the plain hex form, either
/// case. Returns `None` on anything else.
pub fn parse_uuid(s: &str) -> (r: Option<u128>)
    ensures
        r == parse_uuid_spec(s@),
{
    let n = s.unicode_len();
    let mut h: Vec<char> = Vec::new();
    if n == 32 {
        push_chars(&mut h, s, 0, 32);
        assert(h@ =~= s@);
    } else if n == 36 {
        if !(s.get_char(8) == '-' && s.get_char(13) == '-' && s.get_char(18) == '-' && s.get_char(
            23,
        ) == '-') {
            return None;
        }
        push_chars(&mut h, s, 0, 8);
        push_chars(&mut h, s, 9, 13);
        push_chars(&mut h, s, 14, 18);
        push_chars(&mut h, s, 19, 23);
        push_chars(&mut h, s, 24, 36);
        assert(h@ =~= s@.subrange(0, 8) + s@.subrange(9, 13) + s@.subrange(14, 18) + s@.subrange(
            19,
            23,
        ) + s@.subrange(24, 36));
    } else {
        return None;
    }
    parse_hex32(&h)
}

/// The lowercase character of one hex digit value.
pub open spec fn nibble_char(d: nat) -> char {
    if d == 0 {
        '0'
    } else if d == 1 {
        '1'
    } else if d == 2 {
        '2'
    } else if d == 3 {
        '3'
    } else if d == 4 {
        '4'
    } else if d == 5 {
        '5'
    } else if d == 6 {
        '6'
    } else if d == 7 {
        '7'
    } else if d == 8 {
        '8'
    } else if d == 9 {
        '9'
    } else if d == 10 {
        'a'
    } else if d == 11 {
        'b'
    } else if d == 12 {
        'c'
    } else if d == 13 {
        'd'
    } else if d == 14 {
        'e'
    } else {
        'f'
    }
}

/// The `n` lowercase hex digits of a value, most significant first.
pub open spec fn hex_chars_of(u: nat, n: nat) -> Seq<char>
    decreases n,
{
    if n == 0 {
        Seq::empty()
    } else {
        hex_chars_of(u / 16, (n - 1) as nat).push(nibble_char(u % 16))
    }
}

/// A value rendered as hex digits has one character per requested digit.
pub proof fn lemma_hex_chars_len(u: nat, n: nat)
    ensures
        hex_chars_of(u, n).len() == n,
    decreases n,
{
    if n > 0 {
        lemma_hex_chars_len(u / 16, (n - 1) as nat);
    }
}

/// The canonical lowercase hyphenated text of an identifier.
pub open spec fn format_uuid_spec(u: u128) -> Seq<char> {
    let h = hex_chars_of(u as nat, 32);
    h.subrange(0, 8) + seq!['-'] + h.subrange(8, 12) + seq!['-'] + h.subrange(12, 16) + seq!['-']
        + h.subrange(16, 20) + seq!['-'] + h.subrange(20, 32)
}

/// The one-character string of one hex digit value.
fn nibble_str(d: u128) -> (r: &'static str)
    requires
        d < 16,
    ensures
        r@ == seq![nibble_char(d as nat)],
{
    let r: &'static str = match d {
        0 => "0",
        1 => "1",
        2 => "2",
        3 => "3",
        4 => "4",
        5 => "5",
        6 => "6",
        7 => "7",
        8 => "8",
        9 => "9",
        10 => "a",
        11 => "b",
        12 => "c",
        13 => "d",
        14 => "e",
        _ => "f",
    };
    proof {
        reveal_strlit("0");
        reveal_strlit("1");
        reveal_strlit("2");
        reveal_strlit("3");
        reveal_strlit("4");
        reveal_strlit("5");
        reveal_strlit("6");
        reveal_strlit("7");
        reveal_strlit("8");
        reveal_strlit("9");
        reveal_strlit("a");
        reveal_strlit("b");
        reveal_strlit("c");
        reveal_strlit("d");
        reveal_strlit("e");
        reveal_strlit("f");
        assert(r@ =~= seq![nibble_char(d as nat)]);
    }
    r
}

/// Render the low `n` hex digits of a value, most significant first.
fn hex_chars(u: u128, n: usize) -> (r: String)
    ensures
        r@ == hex_chars_of(u as nat, n as nat),
    decreases n,
{
    if n == 0 {
        String::new()
    } else {
        let mut s = hex_chars(u / 16, n - 1);
        s.append(nibble_str(u % 16));
        proof {
            assert(hex_chars_of(u as nat, n as nat) =~= hex_chars_of((u as nat) / 16, (n - 1) as nat)
                + seq![nibble_char((u as nat) % 16)]);
        }
        s
    }
}

/// Render an identifier in its canonical lowercase hyphenated form.
pub fn format_uuid(u: u128) -> (r: String)
    ensures
        r@ == format_uuid_spec(u),
{
    let h = hex_chars(u, 32);
    proof {
        lemma_hex_chars_len(u as nat, 32);
        reveal_strlit("-");
        assert("-"@ =~= seq!['-']);
    }
    let hs = h.as_str();
    let mut s = String::new();
    s.append(hs.substring_char(0, 8));
    s.append("-");
    s.append(hs.substring_char(8, 12));
    s.append("-");
    s.append(hs.substring_char(12, 16));
    s.append("-");
    s.append(hs.substring_char(16, 20));
    s.append("-");
    s.append(hs.substring_char(20, 32));
    assert(s@ =~= format_uuid_spec(u));
    s
}

/// The formatter's digit characters are hex digits carrying the value they
/// were made from.
proof fn lemma_nibble_char_value(d: nat)
    requires
        d < 16,
    ensures
        hex_digit_value_spec(nibble_char(d)) == Some(d as u8),
{
}

/// Every character a value renders to is a hex digit.
proof fn lemma_hex_chars_all_hex(u: nat, n: nat)
    ensures
        all_hex(hex_chars_of(u, n)),
    decreases n,
{
    if n > 0 {
        lemma_hex_chars_all_hex(u / 16, (n - 1) as nat);
        lemma_nibble_char_value(u % 16);
        lemma_hex_chars_len(u / 16, (n - 1) as nat);
        let p = hex_chars_of(u / 16, (n - 1) as nat);
        let s = hex_chars_of(u, n);
        assert forall|i: int| 0 <= i < s.len() implies is_hex_digit(s[i]) by {
            if i < s.len() - 1 {
                assert(s[i] == p[i]);
            } else {
                assert(s[i] == nibble_char(u % 16));
            }
        }
    }
}

/// Rendering a value to `n` hex digits and reading them back is the
/// identity, for values the digits can hold.
proof fn lemma_hex_value_of_chars(u: nat, n: nat)
    requires
        u < pow16(n),
    ensures
        hex_value(hex_chars_of(u, n)) == u,
    decreases n,
{
    if n == 0 {
    } else {
        assert(u / 16 < pow16((n - 1) as nat)) by {
            if u / 16 >= pow16((n - 1) as nat) {
                assert(16 * (u / 16) >= 16 * pow16((n - 1) as nat));
                assert(u >= 16 * (u / 16));
            }
        }
        lemma_hex_value_of_chars(u / 16, (n - 1) as nat);
        lemma_nibble_char_value(u % 16);
        let p = hex_chars_of(u / 16, (n - 1) as nat);
        let c = nibble_char(u % 16);
        let s = hex_chars_of(u, n);
        assert(s == p.push(c));
        assert(s.drop_last() =~= p);
        assert(s.last() == c);
        assert(hex_char_val(c) == u % 16);
    }
}

/// Formatting an identifier and parsing the text back is the identity:
/// the canonical text names exactly the identifier it was made from.
pub proof fn lemma_format_parse_roundtrip(u: u128)
    ensures
        parse_uuid_spec(format_uuid_spec(u)) == Some(u),
{
    let h = hex_chars_of(u as nat, 32);
    lemma_hex_chars_len(u as nat, 32);
    let hy = seq!['-'];
    let s = format_uuid_spec(u);
    assert(s == h.subrange(0, 8) + hy + h.subrange(8, 12) + hy + h.subrange(12, 16) + hy
        + h.subrange(16, 20) + hy + h.subrange(20, 32));
    assert(s.len() == 36);
    assert(s[8] == '-');
    assert(s[13] == '-');
    assert(s[18] == '-');
    assert(s[23] == '-');
    let h2 = s.subrange(0, 8) + s.subrange(9, 13) + s.subrange(14, 18) + s.subrange(19, 23)
        + s.subrange(24, 36);
    assert(uuid_hex_chars(s) == Some(h2));
    assert(h2 =~= h);
    lemma_hex_chars_all_hex(u as nat, 32);
    lemma_pow16_32();
    lemma_hex_value_of_chars(u as nat, 32);
}

} // verus!
