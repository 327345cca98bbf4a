//! Hexadecimal text for byte strings, in the two forms that configuration
//! values use: fixed width for addresses and hashes, shortest form for
//! quantities.

use vstd::prelude::*;

verus! {

/// The lower-case hexadecimal digit for a value below sixteen.
pub open spec fn digit_of(n: int) -> char {
    if n < 10 {
        (n + 48) as char
    } else {
        (n + 87) as char
    }
}

/// The half bytes of `bytes`, the high half of each byte first.
pub open spec fn nibbles(bytes: Seq<u8>) -> Seq<int> {
    Seq::new(2 * bytes.len(), |i: int| if i % 2 == 0 { bytes[i / 2] as int / 16 } else { bytes[i / 2] as int % 16 })
}

/// The digits for a sequence of half bytes.
pub open spec fn digits_of(halves: Seq<int>) -> Seq<char> {
    Seq::new(halves.len(), |i: int| digit_of(halves[i]))
}

/// The prefix that marks hexadecimal text.
pub open spec fn prefix() -> Seq<char> {
    seq!['0', 'x']
}

/// Fixed-width text: the prefix, then two digits for every byte.
pub open spec fn fixed_text(bytes: Seq<u8>) -> Seq<char> {
    prefix() + digits_of(nibbles(bytes))
}

/// The number of zero half bytes that `halves` starts with.
pub open spec fn leading_zeros(halves: Seq<int>) -> nat
    decreases halves.len(),
{
    if halves.len() == 0 || halves[0] != 0 {
        0
    } else {
        1 + leading_zeros(halves.drop_first())
    }
}

/// Shortest text of the big-endian number in `bytes`: the prefix, then the
/// digits without leading zeros, and a single zero digit for the number zero.
pub open spec fn quantity_text(bytes: Seq<u8>) -> Seq<char> {
    let halves = nibbles(bytes);
    let skip = leading_zeros(halves) as int;
    if skip == halves.len() {
        prefix() + seq!['0']
    } else {
        prefix() + digits_of(halves.subrange(skip, halves.len() as int))
    }
}

/// The digit for `n`.
pub fn digit(n: u8) -> (c: char)
    requires
        n < 16,
    ensures
        c == digit_of(n as int),
{
    if n < 10 {
        (n + 48) as char
    } else {
        (n + 87) as char
    }
}

/// The half byte of `bytes` at position `i`, counted in half bytes.
pub fn nibble(bytes: &[u8], i: usize) -> (n: u8)
    requires
        i < 2 * bytes@.len(),
    ensures
        n < 16,
        n as int == nibbles(bytes@)[i as int],
{
    let b: u8 = bytes[i / 2];
    if i % 2 == 0 {
        b / 16
    } else {
        b % 16
    }
}

/// Appends the digits of the half bytes of `bytes` from position `from` on.
fn push_digits(out: &mut Vec<char>, bytes: &[u8], from: usize)
    requires
        from <= 2 * bytes@.len(),
        2 * bytes@.len() <= usize::MAX,
    ensures
        final(out)@ == old(out)@ + digits_of(
            nibbles(bytes@).subrange(from as int, 2 * bytes@.len() as int),
        ),
{
    let total: usize = 2 * bytes.len();
    let mut i: usize = from;
    while i < total
        invariant
            from <= i <= total,
            total == 2 * bytes@.len(),
            out@ == old(out)@ + digits_of(nibbles(bytes@).subrange(from as int, i as int)),
        decreases total - i,
    {
        let n: u8 = nibble(bytes, i);
        out.push(digit(n));
        i = i + 1;
        assert(out@ =~= old(out)@ + digits_of(nibbles(bytes@).subrange(from as int, i as int)));
    }
}

/// Fixed-width hexadecimal text of `bytes`.
pub fn fixed_hex(bytes: &[u8]) -> (text: Vec<char>)
    requires
        2 * bytes@.len() <= usize::MAX,
    ensures
        text@ == fixed_text(bytes@),
{
    let mut text: Vec<char> = Vec::new();
    text.push('0');
    text.push('x');
    assert(text@ =~= prefix());
    push_digits(&mut text, bytes, 0);
    assert(nibbles(bytes@).subrange(0, 2 * bytes@.len() as int) =~= nibbles(bytes@));
    text
}

/// Counting the leading zeros of a sequence can start behind zeros already seen.
proof fn leading_zeros_step(halves: Seq<int>, k: int)
    requires
        0 <= k <= halves.len(),
        forall|j: int| 0 <= j < k ==> halves[j] == 0,
    ensures
        leading_zeros(halves) == k + leading_zeros(halves.subrange(k, halves.len() as int)),
    decreases k,
{
    if k == 0 {
        assert(halves.subrange(0, halves.len() as int) =~= halves);
    } else {
        let rest = halves.drop_first();
        leading_zeros_step(rest, k - 1);
        assert(rest.subrange(k - 1, rest.len() as int) =~= halves.subrange(
            k,
            halves.len() as int,
        ));
    }
}

/// Shortest hexadecimal text of the big-endian number in `bytes`.
pub fn quantity_hex(bytes: &[u8]) -> (text: Vec<char>)
    requires
        2 * bytes@.len() <= usize::MAX,
    ensures
        text@ == quantity_text(bytes@),
{
    let total: usize = 2 * bytes.len();
    let mut skip: usize = 0;
    while skip < total && nibble(bytes, skip) == 0
        invariant
            skip <= total,
            total == 2 * bytes@.len(),
            forall|j: int| 0 <= j < skip ==> nibbles(bytes@)[j] == 0,
        decreases total - skip,
    {
        skip = skip + 1;
    }
    proof {
        let halves = nibbles(bytes@);
        leading_zeros_step(halves, skip as int);
        let rest = halves.subrange(skip as int, halves.len() as int);
        if skip < total {
            assert(rest[0] == halves[skip as int]);
        }
        assert(leading_zeros(rest) == 0);
    }
    let mut text: Vec<char> = Vec::new();
    text.push('0');
    text.push('x');
    assert(text@ =~= prefix());
    if skip == total {
        text.push('0');
        assert(text@ =~= prefix() + seq!['0']);
    } else {
        push_digits(&mut text, bytes, skip);
    }
    text
}

} // verus!
