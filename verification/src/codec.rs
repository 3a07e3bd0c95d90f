//! Base64 decoding, through the `base64` crate's standard engine.

use base64::engine::general_purpose::STANDARD;
use base64::DecodeError;
use base64::Engine;
use crate::text::concat;
use vstd::prelude::*;

verus! {

/// The failures the `base64` crate reports, with the same fields (`base64::DecodeError`).
#[derive(PartialEq, Eq, Structural, Clone, Copy, Debug)]
pub enum Base64Fault {
    /// A symbol outside the alphabet: its offset and byte.
    InvalidByte(usize, u8),
    /// A count of symbols that cannot end an input.
    InvalidLength(usize),
    /// A last symbol with bits that would be dropped: its offset and byte.
    InvalidLastSymbol(usize, u8),
    /// Padding that is missing or wrong.
    InvalidPadding,
}

/// What the `base64` crate's standard engine (standard alphabet, padding required) gives back
/// for `input`: the decoded bytes, or the failure it reports.
pub uninterp spec fn standard_decode(input: Seq<u8>) -> Result<Seq<u8>, Base64Fault>;

/// Every beginning of `t` made of whole groups of four decodes.
pub open spec fn prefixes_decode(t: Seq<u8>) -> bool {
    forall|k: int| 0 < k <= t.len() && k % 4 == 0 ==> #[trigger] standard_decode(t.take(k)) is Ok
}

/// Whether `text`, a whole number of groups of four, decodes with three bytes for every group:
/// it holds no padding.
pub open spec fn decodes_unpadded(text: Seq<u8>) -> bool {
    &&& text.len() % 4 == 0
    &&& standard_decode(text) matches Ok(bytes)
    &&& bytes.len() == text.len() / 4 * 3
}

/// Whether `text`, a whole number of groups of four, decodes but ends with padding.
pub open spec fn decodes_padded(text: Seq<u8>) -> bool {
    &&& text.len() % 4 == 0
    &&& standard_decode(text) matches Ok(bytes)
    &&& bytes.len() < text.len() / 4 * 3
}

/// Whether `text`, a whole number of groups of four, fails to decode.
pub open spec fn fails_whole(text: Seq<u8>) -> bool {
    &&& text.len() % 4 == 0
    &&& standard_decode(text) is Err
}

/// The character of a decimal digit.
pub open spec fn digit_char(d: nat) -> char {
    if d == 0 { '0' } else if d == 1 { '1' } else if d == 2 { '2' } else if d == 3 { '3' }
    else if d == 4 { '4' } else if d == 5 { '5' } else if d == 6 { '6' } else if d == 7 { '7' }
    else if d == 8 { '8' } else { '9' }
}

/// The decimal writing of `n`, as `Display` writes an integer.
pub open spec fn decimal(n: nat) -> Seq<char>
    decreases n,
{
    if n < 10 {
        seq![digit_char(n)]
    } else {
        decimal(n / 10).push(digit_char(n % 10))
    }
}

/// The text of one decimal digit.
fn digit_text(d: u64) -> (r: &'static str)
    requires
        d < 10,
    ensures
        r@ == seq![digit_char(d as nat)],
{
    if d == 0 {
        proof { reveal_strlit("0"); }
        "0"
    } else if d == 1 {
        proof { reveal_strlit("1"); }
        "1"
    } else if d == 2 {
        proof { reveal_strlit("2"); }
        "2"
    } else if d == 3 {
        proof { reveal_strlit("3"); }
        "3"
    } else if d == 4 {
        proof { reveal_strlit("4"); }
        "4"
    } else if d == 5 {
        proof { reveal_strlit("5"); }
        "5"
    } else if d == 6 {
        proof { reveal_strlit("6"); }
        "6"
    } else if d == 7 {
        proof { reveal_strlit("7"); }
        "7"
    } else if d == 8 {
        proof { reveal_strlit("8"); }
        "8"
    } else {
        proof { reveal_strlit("9"); }
        "9"
    }
}

/// The decimal writing of `n`.
pub fn decimal_text(n: u64) -> (r: String)
    ensures
        r@ == decimal(n as nat),
    decreases n,
{
    if n < 10 {
        String::from_str(digit_text(n))
    } else {
        let mut s = decimal_text(n / 10);
        s.append(digit_text(n % 10));
        assert(s@ =~= decimal((n / 10) as nat).push(digit_char((n % 10) as nat)));
        s
    }
}

/// The text the `base64` crate's `Display` gives a failure.
pub open spec fn fault_text_of(f: Base64Fault) -> Seq<char> {
    match f {
        Base64Fault::InvalidByte(i, b) => "Invalid symbol "@ + decimal(b as nat) + ", offset "@
            + decimal(i as nat) + "."@,
        Base64Fault::InvalidLength(n) => "Invalid input length: "@ + decimal(n as nat),
        Base64Fault::InvalidLastSymbol(i, b) => "Invalid last symbol "@ + decimal(b as nat)
            + ", offset "@ + decimal(i as nat) + "."@,
        Base64Fault::InvalidPadding => "Invalid padding"@,
    }
}

/// The text the `base64` crate's `Display` gives a failure.
pub fn fault_text(f: Base64Fault) -> (r: String)
    ensures
        r@ == fault_text_of(f),
{
    match f {
        Base64Fault::InvalidByte(i, b) => {
            let a = concat("Invalid symbol ", decimal_text(b as u64).as_str());
            let a = concat(a.as_str(), ", offset ");
            let a = concat(a.as_str(), decimal_text(i as u64).as_str());
            concat(a.as_str(), ".")
        },
        Base64Fault::InvalidLength(n) => concat(
            "Invalid input length: ",
            decimal_text(n as u64).as_str(),
        ),
        Base64Fault::InvalidLastSymbol(i, b) => {
            let a = concat("Invalid last symbol ", decimal_text(b as u64).as_str());
            let a = concat(a.as_str(), ", offset ");
            let a = concat(a.as_str(), decimal_text(i as u64).as_str());
            concat(a.as_str(), ".")
        },
        Base64Fault::InvalidPadding => String::from_str("Invalid padding"),
    }
}

/// The buffer length that `base64` calls conservative for an input of `len` bytes:
/// three bytes per started group of four.
pub open spec fn conservative_decoded_len(len: int) -> int {
    (len + 3) / 4 * 3
}

/// `base64::Engine::decode` on the standard engine.
/// Trusted: the result, with the crate's error moved into `Base64Fault` variant by variant, is
/// the crate's decoding of `input`, named `standard_decode`; and, as the crate's source shows
/// (padding is accepted only in the last group, and a group of four symbols without padding
/// always decodes), when an input of whole groups decodes, so does each of its beginnings made
/// of whole groups.
#[verifier::external_body]
pub(crate) fn decode_standard(input: &[u8]) -> (r: Result<Vec<u8>, Base64Fault>)
    ensures
        match r {
            Ok(v) => standard_decode(input@) == Ok::<Seq<u8>, Base64Fault>(v@),
            Err(f) => standard_decode(input@) == Err::<Seq<u8>, Base64Fault>(f),
        },
        r is Ok && input@.len() % 4 == 0 ==> prefixes_decode(input@),
{
    match STANDARD.decode(input) {
        Ok(v) => Ok(v),
        Err(DecodeError::InvalidByte(i, b)) => Err(Base64Fault::InvalidByte(i, b)),
        Err(DecodeError::InvalidLength(n)) => Err(Base64Fault::InvalidLength(n)),
        Err(DecodeError::InvalidLastSymbol(i, b)) => Err(Base64Fault::InvalidLastSymbol(i, b)),
        Err(DecodeError::InvalidPadding) => Err(Base64Fault::InvalidPadding),
    }
}

/// `base64::Engine::decode_slice_unchecked` on the standard engine.
/// Trusted, from the crate's source (both functions run the same `internal_decode` with the same
/// estimate, and groups of four are decoded one by one, padding being accepted only in the last
/// group):
/// - with an output at least as long as the conservative estimate it never panics, and the slice
///   keeps its length;
/// - it succeeds exactly when `decode` does, writing the same bytes first, or reports the same
///   failure;
/// - for an input of whole groups, placing before it a text of whole groups without padding
///   changes nothing: that longer text decodes to the one's bytes then the other's, or fails
///   when this input fails; placing before it a text that ends in padding makes it fail; and
///   placing before it a text of whole groups that fails to decode gives a text that fails too
///   (every group but the last is decoded with `=` counted as an invalid symbol, and a group
///   of four symbols without `=` always decodes).
#[verifier::external_body]
pub(crate) fn decode_standard_into(input: &[u8], out: &mut Vec<u8>) -> (r: Result<usize, Base64Fault>)
    requires
        old(out)@.len() >= conservative_decoded_len(input@.len() as int),
    ensures
        final(out)@.len() == old(out)@.len(),
        match r {
            Ok(n) => n <= final(out)@.len() && standard_decode(input@) == Ok::<Seq<u8>, Base64Fault>(
                final(out)@.take(n as int),
            ),
            Err(f) => standard_decode(input@) == Err::<Seq<u8>, Base64Fault>(f),
        },
        r matches Ok(n) ==> (input@.len() % 4 == 0 ==> (forall|prior: Seq<u8>|
            #[trigger] decodes_unpadded(prior) ==> standard_decode(prior + input@) == Ok::<
                Seq<u8>,
                Base64Fault,
            >(standard_decode(prior).unwrap() + final(out)@.take(n as int))) && (input@.len() > 0
            ==> forall|prior: Seq<u8>| #[trigger] decodes_padded(prior) ==> standard_decode(prior + input@) is Err)
            && (forall|prior: Seq<u8>| #[trigger] fails_whole(prior) ==> standard_decode(prior + input@) is Err)),
        r is Err ==> (input@.len() % 4 == 0 ==> (forall|prior: Seq<u8>|
            #[trigger] decodes_unpadded(prior) ==> standard_decode(prior + input@) is Err) && (input@.len() > 0
            ==> forall|prior: Seq<u8>| #[trigger] decodes_padded(prior) ==> standard_decode(prior + input@) is Err)
            && (forall|prior: Seq<u8>| #[trigger] fails_whole(prior) ==> standard_decode(prior + input@) is Err)),
{
    match STANDARD.decode_slice_unchecked(input, out.as_mut_slice()) {
        Ok(n) => Ok(n),
        Err(DecodeError::InvalidByte(i, b)) => Err(Base64Fault::InvalidByte(i, b)),
        Err(DecodeError::InvalidLength(n)) => Err(Base64Fault::InvalidLength(n)),
        Err(DecodeError::InvalidLastSymbol(i, b)) => Err(Base64Fault::InvalidLastSymbol(i, b)),
        Err(DecodeError::InvalidPadding) => Err(Base64Fault::InvalidPadding),
    }
}

} // verus!

verus! {

/// Appends `src` to `dst`.
pub fn append_bytes(dst: &mut Vec<u8>, src: &[u8])
    ensures
        final(dst)@ == old(dst)@ + src@,
{
    let ghost start = dst@;
    let n = src.len();
    let mut i: usize = 0;
    while i < n
        invariant
            n == src@.len(),
            i <= n,
            dst@ == start + src@.take(i as int),
        decreases n - i,
    {
        dst.push(src[i]);
        i = i + 1;
        assert(src@.take(i as int) =~= src@.take((i - 1) as int).push(src@[i - 1]));
    }
    assert(src@.take(n as int) =~= src@);
}

/// A copy of the first `n` bytes of `src`.
pub fn copy_prefix(src: &[u8], n: usize) -> (r: Vec<u8>)
    requires
        n <= src@.len(),
    ensures
        r@ == src@.take(n as int),
{
    let mut out: Vec<u8> = Vec::new();
    let mut i: usize = 0;
    while i < n
        invariant
            n <= src@.len(),
            i <= n,
            out@ == src@.take(i as int),
        decreases n - i,
    {
        out.push(src[i]);
        i = i + 1;
        assert(src@.take(i as int) =~= src@.take((i - 1) as int).push(src@[i - 1]));
    }
    out
}

} // verus!
