//! Little-endian integers as byte sequences.
use vstd::prelude::*;

verus! {

/// The `n` low-order bytes of `value`, least significant byte first.
pub open spec fn le_bytes(value: nat, n: nat) -> Seq<u8>
    decreases n,
{
    if n == 0 {
        Seq::empty()
    } else {
        seq![(value % 256) as u8] + le_bytes(value / 256, (n - 1) as nat)
    }
}

/// The integer whose little-endian digits are `bytes`.
pub open spec fn le_value(bytes: Seq<u8>) -> nat
    decreases bytes.len(),
{
    if bytes.len() == 0 {
        0
    } else {
        bytes[0] as nat + 256 * le_value(bytes.drop_first())
    }
}

/// `256` to the power `n`: how many values `n` bytes can hold.
pub open spec fn byte_span(n: nat) -> nat
    decreases n,
{
    if n == 0 {
        1
    } else {
        256 * byte_span((n - 1) as nat)
    }
}

/// `le_bytes` yields exactly the number of bytes asked for.
pub proof fn lemma_le_bytes_len(value: nat, n: nat)
    ensures
        le_bytes(value, n).len() == n,
    decreases n,
{
    if n > 0 {
        lemma_le_bytes_len(value / 256, (n - 1) as nat);
    }
}

/// Bytes written little-endian read back as the value, when it fits.
pub proof fn lemma_le_value_of_bytes(value: nat, n: nat)
    requires
        value < byte_span(n),
    ensures
        le_value(le_bytes(value, n)) == value,
    decreases n,
{
    if n > 0 {
        let rest = le_bytes(value / 256, (n - 1) as nat);
        lemma_le_value_of_bytes(value / 256, (n - 1) as nat);
        assert(le_bytes(value, n).drop_first() =~= rest);
    }
}

/// A value read little-endian writes back as the same bytes.
pub proof fn lemma_le_bytes_of_value(bytes: Seq<u8>)
    ensures
        le_bytes(le_value(bytes), bytes.len()) == bytes,
        le_value(bytes) < byte_span(bytes.len()),
    decreases bytes.len(),
{
    if bytes.len() > 0 {
        let rest = bytes.drop_first();
        lemma_le_bytes_of_value(rest);
        assert(le_bytes(le_value(bytes), bytes.len()) =~= bytes);
    } else {
        assert(le_bytes(le_value(bytes), bytes.len()) =~= bytes);
    }
}

/// The spans of the fixed-width integer types.
pub proof fn lemma_byte_spans()
    ensures
        byte_span(1) == 0x100,
        byte_span(2) == 0x1_0000,
        byte_span(4) == 0x1_0000_0000,
        byte_span(8) == 0x1_0000_0000_0000_0000,
{
    reveal_with_fuel(byte_span, 9);
}

/// Appends the `n` low-order bytes of `value`, least significant first.
pub fn put_le(out: &mut Vec<u8>, value: u64, n: usize)
    ensures
        final(out)@ == old(out)@ + le_bytes(value as nat, n as nat),
{
    let mut rest: u64 = value;
    let mut left: usize = n;
    let ghost start = out@;
    while left > 0
        invariant
            left <= n,
            out@ + le_bytes(rest as nat, left as nat) == start + le_bytes(value as nat, n as nat),
        decreases left,
    {
        let ghost before = out@;
        let ghost tail = le_bytes((rest / 256) as nat, (left - 1) as nat);
        out.push((rest % 256) as u8);
        assert(out@ + tail =~= before + le_bytes(rest as nat, left as nat));
        rest = rest / 256;
        left = left - 1;
    }
    assert(out@ + le_bytes(rest as nat, 0) =~= out@);
}

/// Reads `n` bytes of `buf` from `at` as a little-endian integer.
pub fn get_le(buf: &[u8], at: usize, n: usize) -> (value: u64)
    requires
        at + n <= buf@.len(),
        n <= 8,
    ensures
        value == le_value(buf@.subrange(at as int, at + n)),
        value < byte_span(n as nat),
{
    proof {
        lemma_byte_spans();
        reveal_with_fuel(byte_span, 9);
    }
    let len: usize = buf.len();
    let mut value: u64 = 0;
    let mut i: usize = n;
    while i > 0
        invariant
            i <= n,
            n <= 8,
            at + n <= len,
            len == buf@.len(),
            value == le_value(buf@.subrange(at + i, at + n)),
            value < byte_span((n - i) as nat),
        decreases i,
    {
        let ghost part = buf@.subrange(at + i - 1, at + n);
        assert(part.drop_first() =~= buf@.subrange(at + i, at + n));
        proof {
            reveal_with_fuel(byte_span, 9);
            lemma_le_bytes_of_value(part);
            assert(byte_span(part.len()) <= byte_span(8));
            lemma_byte_spans();
        }
        value = buf[at + (i - 1)] as u64 + 256 * value;
        i = i - 1;
    }
    value
}

} // verus!
