//! Lower-case hexadecimal encoding of byte strings, fully specified and
//! verified here: each byte becomes two ASCII digits.

use vstd::prelude::*;

verus! {

/// The lower-case ASCII hex digit for a value below sixteen.
pub open spec fn hex_digit(d: nat) -> u8 {
    if d < 10 {
        (0x30 + d) as u8  // '0'..'9'
    } else {
        (0x61 + (d - 10)) as u8  // 'a'..'f'
    }
}

/// The lower-case hex encoding of a byte string: two digits per byte,
/// most significant nibble first.
pub open spec fn spec_hex(bs: Seq<u8>) -> Seq<u8> {
    Seq::new(
        2 * bs.len(),
        |i: int|
            if i % 2 == 0 {
                hex_digit((bs[i / 2] / 16) as nat)
            } else {
                hex_digit((bs[i / 2] % 16) as nat)
            },
    )
}

/// The two hex digits of one byte.
fn hex_byte(b: u8) -> (r: (u8, u8))
    ensures
        r.0 == hex_digit((b / 16) as nat),
        r.1 == hex_digit((b % 16) as nat),
{
    let hi = b / 16;
    let lo = b % 16;
    let d0 = if hi < 10 { 0x30 + hi } else { 0x61 + (hi - 10) };
    let d1 = if lo < 10 { 0x30 + lo } else { 0x61 + (lo - 10) };
    (d0, d1)
}

/// The shorter of a requested prefix length and the string's own length.
pub open spec fn clamp(n: int, len: int) -> int {
    if n <= len {
        n
    } else {
        len
    }
}

/// Appends to `out` the hex encoding of the first `n` bytes of `bs`
/// (of all of `bs` when it is shorter than `n`).
pub fn push_hex_prefix(out: &mut Vec<u8>, bs: &Vec<u8>, n: usize)
    ensures
        final(out)@ == old(out)@ + spec_hex(bs@.take(clamp(n as int, bs@.len() as int))),
{
    let end = if n < bs.len() { n } else { bs.len() };
    let ghost prefix = bs@.take(end as int);
    let mut i: usize = 0;
    while i < end
        invariant
            i <= end,
            end <= bs.len(),
            prefix == bs@.take(end as int),
            out@ == old(out)@ + spec_hex(prefix.take(i as int)),
        decreases end - i,
    {
        let (d0, d1) = hex_byte(bs[i]);
        out.push(d0);
        out.push(d1);
        i = i + 1;
        proof {
            assert(out@ =~= old(out)@ + spec_hex(prefix.take(i as int)));
        }
    }
    proof {
        assert(prefix.take(end as int) =~= prefix);
    }
}

/// Appends to `out` the hex encoding of all of `bs`.
pub fn push_hex(out: &mut Vec<u8>, bs: &Vec<u8>)
    ensures
        final(out)@ == old(out)@ + spec_hex(bs@),
{
    let n = bs.len();
    push_hex_prefix(out, bs, n);
    proof {
        assert(bs@.take(bs@.len() as int) =~= bs@);
    }
}

/// The hex encoding of all of `bs`, as fresh bytes.
pub fn hex_of(bs: &Vec<u8>) -> (r: Vec<u8>)
    ensures
        r@ == spec_hex(bs@),
{
    let mut out: Vec<u8> = Vec::new();
    push_hex(&mut out, bs);
    proof {
        assert(out@ =~= spec_hex(bs@));
    }
    out
}

} // verus!
