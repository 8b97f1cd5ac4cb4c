//! Numbers, bytes and comparisons in text, and integers in bytes.
use vstd::prelude::*;

use crate::codec;
use crate::text;

verus! {

/// The number that decimal digits spell out, read from left to right.
pub open spec fn numeral(digits: Seq<char>) -> int
    decreases digits.len(),
{
    if digits.len() == 0 {
        0
    } else {
        10 * numeral(digits.drop_last()) + (digits.last() as int - 48)
    }
}

/// A number is written in decimal digits that spell it out, without a zero in
/// front.
pub proof fn law_decimal_text(n: u64, written: String)
    requires
        call_ensures(text::decimal_text, (n,), written),
    ensures
        numeral(written@) == n,
        written@.len() > 0,
        forall|i: int| 0 <= i < written@.len() ==> '0' <= #[trigger] written@[i] <= '9',
        written@.len() > 1 ==> written@[0] != '0',
{
    lemma_decimal(n as nat);
}

/// The digits of a number spell it out, without a zero in front.
pub proof fn lemma_decimal(n: nat)
    ensures
        numeral(text::decimal(n)) == n,
        text::decimal(n).len() > 0,
        forall|i: int|
            0 <= i < text::decimal(n).len() ==> '0' <= #[trigger] text::decimal(n)[i] <= '9',
        n > 0 ==> text::decimal(n)[0] != '0',
        text::decimal(n).len() > 1 ==> n > 0,
    decreases n,
{
    let written = text::decimal(n);
    reveal_with_fuel(numeral, 2);
    if n < 10 {
        assert(written.drop_last() =~= Seq::empty());
        assert((text::digit(n) as int) == 48 + n);
    } else {
        lemma_decimal(n / 10);
        assert(written.drop_last() =~= text::decimal(n / 10));
        assert((text::digit(n % 10) as int) == 48 + n % 10);
        assert(written[0] == text::decimal(n / 10)[0]);
    }
}

/// What a hexadecimal digit stands for.
pub open spec fn nibble(c: char) -> int {
    if c <= '9' {
        c as int - 48
    } else {
        c as int - 87
    }
}

/// Bytes are written as two small hexadecimal digits each, the high-order one
/// first.
pub proof fn law_hex_text(bytes: &[u8], written: String)
    requires
        call_ensures(text::hex_text, (bytes,), written),
    ensures
        written@.len() == 2 * bytes@.len(),
        forall|i: int|
            0 <= i < bytes@.len() ==> #[trigger] bytes@[i] == 16 * nibble(written@[2 * i]) + nibble(
                written@[2 * i + 1],
            ),
        forall|i: int|
            0 <= i < written@.len() ==> ('0' <= #[trigger] written@[i] <= '9' || 'a' <= written@[i]
                <= 'f'),
{
    lemma_hex(bytes@);
}

/// The digits of bytes stand for them, two to a byte.
pub proof fn lemma_hex(bytes: Seq<u8>)
    ensures
        text::hex(bytes).len() == 2 * bytes.len(),
        forall|i: int|
            0 <= i < bytes.len() ==> #[trigger] bytes[i] == 16 * nibble(text::hex(bytes)[2 * i])
                + nibble(text::hex(bytes)[2 * i + 1]),
        forall|i: int|
            0 <= i < text::hex(bytes).len() ==> ('0' <= #[trigger] text::hex(bytes)[i] <= '9' || 'a'
                <= text::hex(bytes)[i] <= 'f'),
    decreases bytes.len(),
{
    if bytes.len() > 0 {
        let before = bytes.drop_last();
        lemma_hex(before);
        let n = before.len() as int;
        let last = bytes.last();
        assert(nibble(text::digit((last / 16) as nat)) == last / 16);
        assert(nibble(text::digit((last % 16) as nat)) == last % 16);
        assert forall|i: int| 0 <= i < bytes.len() implies #[trigger] bytes[i] == 16 * nibble(
            text::hex(bytes)[2 * i],
        ) + nibble(text::hex(bytes)[2 * i + 1]) by {
            if i < n {
                assert(bytes[i] == before[i]);
            }
        }
    }
}

/// Whether two characters are the same, or the two cases of an ASCII letter.
pub open spec fn same_letter(a: char, b: char) -> bool {
    ||| a == b
    ||| 'A' <= a <= 'Z' && b as int == a as int + 32
    ||| 'A' <= b <= 'Z' && a as int == b as int + 32
}

/// Texts are the same but for ASCII case exactly where they are as long and
/// each character is the same letter.
pub proof fn law_ignoring_case(a: &str, b: &str, same: bool)
    requires
        call_ensures(text::same_text_ignoring_ascii_case, (a, b), same),
    ensures
        same <==> a@.len() == b@.len() && forall|i: int|
            0 <= i < a@.len() ==> same_letter(#[trigger] a@[i], b@[i]),
{
    lemma_ignoring_case(a@, b@);
}

/// Folding the case of letters makes texts the same that were so but for it.
pub proof fn lemma_ignoring_case(a: Seq<char>, b: Seq<char>)
    ensures
        text::ascii_lower_text(a) == text::ascii_lower_text(b) <==> a.len() == b.len() && forall|
            i: int,
        |
            0 <= i < a.len() ==> same_letter(#[trigger] a[i], b[i]),
{
    let low = text::ascii_lower_text(a);
    let other = text::ascii_lower_text(b);
    if low == other {
        assert(low.len() == a.len() && other.len() == b.len());
        assert forall|i: int| 0 <= i < a.len() implies same_letter(#[trigger] a[i], b[i]) by {
            assert(low[i] == other[i]);
        }
    }
    if a.len() == b.len() && forall|i: int|
        0 <= i < a.len() ==> same_letter(#[trigger] a[i], b[i]) {
        assert forall|i: int| 0 <= i < a.len() implies low[i] == other[i] by {
            assert(same_letter(a[i], b[i]));
        }
        assert(low =~= other);
    }
}

/// Texts are the same exactly where their characters are.
pub proof fn law_same_text(a: &str, b: &str, same: bool)
    requires
        call_ensures(text::same_text, (a, b), same),
    ensures
        same <==> a@.len() == b@.len() && forall|i: int| 0 <= i < a@.len() ==> a@[i] == b@[i],
{
    if a@.len() == b@.len() && forall|i: int| 0 <= i < a@.len() ==> a@[i] == b@[i] {
        assert(a@ =~= b@);
    }
}

/// Byte `i` of an integer in `n` bytes holds its `i`-th digit to base 256, the
/// least significant first.
pub proof fn law_little_endian(value: nat, n: nat, i: nat)
    requires
        i < n,
    ensures
        codec::le_bytes(value, n).len() == n,
        codec::le_bytes(value, n)[i as int] as nat == (value / codec::byte_span(i)) % 256,
    decreases n,
{
    codec::lemma_le_bytes_len(value, n);
    if i == 0 {
        assert(value / 1 == value);
    } else {
        let rest = codec::le_bytes(value / 256, (n - 1) as nat);
        let span = codec::byte_span((i - 1) as nat);
        law_little_endian(value / 256, (n - 1) as nat, (i - 1) as nat);
        codec::lemma_le_bytes_len(value / 256, (n - 1) as nat);
        assert(codec::le_bytes(value, n)[i as int] == rest[i - 1]);
        lemma_span_positive((i - 1) as nat);
        vstd::arithmetic::div_mod::lemma_div_denominator(value as int, 256, span as int);
    }
}

/// An integer is appended in as many bytes as asked for, digit by digit, the
/// least significant first.
pub proof fn law_integer_written(out: &mut Vec<u8>, value: u64, n: usize)
    requires
        call_ensures(codec::put_le, (out, value, n), ()),
    ensures
        final(out)@.len() == old(out)@.len() + n,
        forall|i: int| 0 <= i < old(out)@.len() ==> #[trigger] final(out)@[i] == old(out)@[i],
        forall|i: nat|
            i < n ==> final(out)@[old(out)@.len() as int + i] as nat == (value as nat
                / #[trigger] codec::byte_span(i)) % 256,
{
    codec::lemma_le_bytes_len(value as nat, n as nat);
    assert forall|i: nat| i < n implies final(out)@[old(out)@.len() as int + i] as nat == (value as nat
        / #[trigger] codec::byte_span(i)) % 256 by {
        law_little_endian(value as nat, n as nat, i);
        assert(final(out)@[old(out)@.len() as int + i] == codec::le_bytes(value as nat, n as nat)[i as int]);
    }
}

/// An integer is read from bytes that are its digits to base 256, the least
/// significant first.
pub proof fn law_integer_read(buf: &[u8], at: usize, n: usize, value: u64)
    requires
        call_ensures(codec::get_le, (buf, at, n), value),
        at + n <= buf@.len(),
    ensures
        value < codec::byte_span(n as nat),
        forall|i: nat|
            i < n ==> buf@[at + i] as nat == (value as nat / #[trigger] codec::byte_span(i)) % 256,
{
    let part = buf@.subrange(at as int, at + n);
    codec::lemma_le_bytes_of_value(part);
    assert forall|i: nat| i < n implies buf@[at + i] as nat == (value as nat
        / #[trigger] codec::byte_span(i)) % 256 by {
        law_little_endian(value as nat, n as nat, i);
        assert(part[i as int] == buf@[at + i]);
    }
}

/// The places of an integer in bytes are worth the powers of 256.
pub proof fn law_places(n: nat)
    ensures
        codec::byte_span(0) == 1,
        codec::byte_span(n + 1) == 256 * codec::byte_span(n),
{
}

/// A character is found exactly where it is at some place of a text.
pub proof fn law_character_found(written: &str, wanted: char, found: bool)
    requires
        call_ensures(text::has_char, (written, wanted), found),
    ensures
        found <==> exists|i: int| 0 <= i < written@.len() && written@[i] == wanted,
{
    if found {
        let i = written@.index_of(wanted);
        assert(written@[i] == wanted);
    }
}

proof fn lemma_span_positive(n: nat)
    ensures
        codec::byte_span(n) > 0,
    decreases n,
{
    if n > 0 {
        lemma_span_positive((n - 1) as nat);
    }
}

/// Eight bytes read as the integer with those digits: 256 to the power of its
/// place times each byte.
pub proof fn law_eight_bytes_read(buf: &[u8], at: usize, value: u64)
    requires
        call_ensures(codec::get_le, (buf, at, 8usize), value),
        at + 8 <= buf@.len(),
    ensures
        value == buf@[at as int] + 0x100 * buf@[at + 1] + 0x1_0000 * buf@[at + 2] + 0x100_0000
            * buf@[at + 3] + 0x1_0000_0000 * buf@[at + 4] + 0x100_0000_0000 * buf@[at + 5]
            + 0x1_0000_0000_0000 * buf@[at + 6] + 0x100_0000_0000_0000 * buf@[at + 7],
{
    lemma_eight(buf@.subrange(at as int, at + 8));
}

/// Eight bytes read as the integer with those digits.
pub proof fn lemma_eight(b: Seq<u8>)
    requires
        b.len() == 8,
    ensures
        codec::le_value(b) == b[0] + 0x100 * b[1] + 0x1_0000 * b[2] + 0x100_0000 * b[3]
            + 0x1_0000_0000 * b[4] + 0x100_0000_0000 * b[5] + 0x1_0000_0000_0000 * b[6]
            + 0x100_0000_0000_0000 * b[7],
{
    let high = b.subrange(4, 8);
    reveal_with_fuel(codec::le_value, 5);
    let b1 = b.drop_first();
    let b2 = b1.drop_first();
    let b3 = b2.drop_first();
    let b4 = b3.drop_first();
    assert(b4 =~= high);
    lemma_four(high);
}

/// Four bytes read as the integer with those digits.
pub proof fn lemma_four(b: Seq<u8>)
    requires
        b.len() == 4,
    ensures
        codec::le_value(b) == b[0] + 0x100 * b[1] + 0x1_0000 * b[2] + 0x100_0000 * b[3],
{
    reveal_with_fuel(codec::le_value, 5);
    let b1 = b.drop_first();
    let b2 = b1.drop_first();
    let b3 = b2.drop_first();
    let b4 = b3.drop_first();
    assert(b4.len() == 0);
}

/// Two bytes read as the integer with those digits.
pub proof fn lemma_two(b: Seq<u8>)
    requires
        b.len() == 2,
    ensures
        codec::le_value(b) == b[0] + 0x100 * b[1],
{
    reveal_with_fuel(codec::le_value, 3);
    let b1 = b.drop_first();
    assert(b1.drop_first().len() == 0);
}

} // verus!
