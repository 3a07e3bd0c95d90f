//! 16-bit little-endian PCM: bytes to signed samples.

use vstd::prelude::*;

verus! {

/// The value of `i16::from_le_bytes([lo, hi])`.
pub open spec fn i16_from_le(lo: u8, hi: u8) -> int {
    let v = lo + 256 * hi;
    if v >= 32768 {
        v - 65536
    } else {
        v
    }
}

/// The samples read from `bytes`, two bytes per sample; a last odd byte is dropped.
pub open spec fn pcm_samples_of(bytes: Seq<u8>) -> Seq<i16> {
    Seq::new(bytes.len() / 2, |i: int| i16_from_le(bytes[2 * i], bytes[2 * i + 1]) as i16)
}

/// Reads one little-endian signed 16-bit sample.
pub fn i16_from_le_bytes(lo: u8, hi: u8) -> (r: i16)
    ensures
        r as int == i16_from_le(lo, hi),
{
    let v: i32 = lo as i32 + 256 * (hi as i32);
    if v >= 32768 {
        (v - 65536) as i16
    } else {
        v as i16
    }
}

/// Appends to `out` the samples of `bytes` (pairs of bytes; a last odd byte is dropped).
pub fn append_pcm_samples(bytes: &[u8], out: &mut Vec<i16>)
    ensures
        final(out)@ == old(out)@ + pcm_samples_of(bytes@),
{
    let n: usize = bytes.len() / 2;
    let ghost start = out@;
    let mut i: usize = 0;
    assert(2 * n <= bytes.len()) by (nonlinear_arith)
        requires
            n == bytes@.len() / 2,
    ;
    while i < n
        invariant
            n == bytes@.len() / 2,
            2 * n <= bytes.len(),
            i <= n,
            out@ == start + pcm_samples_of(bytes@).take(i as int),
        decreases n - i,
    {
        let s = i16_from_le_bytes(bytes[2 * i], bytes[2 * i + 1]);
        out.push(s);
        i = i + 1;
        assert(pcm_samples_of(bytes@).take(i as int) =~= pcm_samples_of(bytes@).take(
            (i - 1) as int,
        ).push(s));
    }
    assert(pcm_samples_of(bytes@).take(n as int) =~= pcm_samples_of(bytes@));
}

/// The samples of `bytes`, two bytes per sample (little-endian); a last odd byte is dropped.
pub fn pcm_samples(bytes: &[u8]) -> (r: Vec<i16>)
    ensures
        r@ == pcm_samples_of(bytes@),
{
    let mut out: Vec<i16> = Vec::new();
    append_pcm_samples(bytes, &mut out);
    assert(out@ =~= pcm_samples_of(bytes@));
    out
}

} // verus!
