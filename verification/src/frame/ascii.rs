//! ASCII framing: `:`, hexadecimal pairs, LRC, CR LF.

use vstd::prelude::*;

use crate::error::{Error, Result};
use crate::frame::framing::{AduBoundary, Framing};
use crate::frame::pdu_model::{RequestPdu, ResponsePdu};
use crate::frame::value::UnitId;
use crate::frame::wire::push_bytes;

verus! {

/// ASCII framing.
#[derive(Debug, Clone, Copy, PartialEq, Eq, Structural)]
pub struct Ascii;

/// Largest ASCII ADU, in characters.
pub const ASCII_MAX_ADU_LEN: usize = 513;

/// Start character.
pub const START: u8 = 0x3A;

/// First character of the terminator, CR.
pub const CR: u8 = 0x0D;

/// Second character of the terminator, LF.
pub const LF: u8 = 0x0A;

/// Characters an ADU always carries besides its PDU: the start character, two
/// for the address, two for the LRC, and the two-character terminator.
pub const OVERHEAD: usize = 7;

/// The 8-bit-unbounded sum of a run of bytes.
pub open spec fn byte_sum(s: Seq<u8>) -> nat
    decreases s.len(),
{
    if s.len() == 0 {
        0
    } else {
        byte_sum(s.drop_last()) + s.last() as nat
    }
}

/// The LRC: the two's complement of the 8-bit sum of the bytes.
pub open spec fn spec_lrc(s: Seq<u8>) -> u8 {
    ((256 - byte_sum(s) % 256) % 256) as u8
}

/// One uppercase hexadecimal character for a nibble.
pub open spec fn hex_digit(n: u8) -> u8 {
    if n < 10 {
        (0x30 + n) as u8
    } else {
        (0x37 + n) as u8
    }
}

/// Bytes as hexadecimal character pairs, most significant nibble first.
pub open spec fn hex_chars(d: Seq<u8>) -> Seq<u8> {
    Seq::new(
        2 * d.len(),
        |i: int|
            if i % 2 == 0 {
                hex_digit(d[i / 2] / 16)
            } else {
                hex_digit(d[i / 2] % 16)
            },
    )
}

/// Whether a character is a hexadecimal digit, in either case.
pub open spec fn is_hex(c: u8) -> bool {
    (0x30 <= c <= 0x39) || (0x41 <= c <= 0x46) || (0x61 <= c <= 0x66)
}

/// The value of a hexadecimal digit.
pub open spec fn nibble_value(c: u8) -> u8 {
    if 0x30 <= c <= 0x39 {
        (c - 0x30) as u8
    } else if 0x41 <= c <= 0x46 {
        (c - 0x37) as u8
    } else {
        (c - 0x57) as u8
    }
}

/// The position of the first character at or after `i` that is not a
/// hexadecimal digit, or the length if there is none.
pub open spec fn first_invalid_from(c: Seq<u8>, i: int) -> int
    decreases c.len() - i,
{
    if i >= c.len() {
        c.len() as int
    } else if !is_hex(c[i]) {
        i
    } else {
        first_invalid_from(c, i + 1)
    }
}

/// The byte a character pair stands for.
pub open spec fn pair_value(c: Seq<u8>, t: int) -> u8 {
    (nibble_value(c[2 * t]) * 16 + nibble_value(c[2 * t + 1])) as u8
}

/// Character pairs decoded to bytes; the first character that is not a
/// hexadecimal digit is the error.
pub open spec fn spec_decode_hex(c: Seq<u8>) -> Result<Seq<u8>> {
    let k = first_invalid_from(c, 0);
    if k < c.len() {
        Err(Error::InvalidCharacter(c[k]))
    } else {
        Ok(Seq::new(c.len() / 2, |t: int| pair_value(c, t)))
    }
}

/// The ADU that carries `pdu` for `address`.
pub open spec fn spec_ascii_wrap(address: UnitId, pdu: Seq<u8>) -> Seq<u8> {
    let covered = seq![address.0] + pdu;
    seq![START] + hex_chars(covered.push(spec_lrc(covered))) + seq![CR, LF]
}

/// The address and PDU of an ASCII ADU: size, start character, terminator,
/// character count, hexadecimal digits, then the LRC.
pub open spec fn spec_ascii_split(b: Seq<u8>) -> Result<(UnitId, Seq<u8>)> {
    if b.len() > ASCII_MAX_ADU_LEN {
        Err(Error::AduTooLarge { len: b.len() as usize, max: ASCII_MAX_ADU_LEN })
    } else if b.len() < OVERHEAD + 2 {
        Err(Error::Truncated { expected: (OVERHEAD + 2) as usize, supplied: b.len() as usize })
    } else if b[0] != START {
        Err(Error::Framing { element: "start character" })
    } else if b[b.len() - 2] != CR || b[b.len() - 1] != LF {
        Err(Error::Framing { element: "terminator" })
    } else if (b.len() - 3) % 2 != 0 {
        Err(Error::Framing { element: "hexadecimal character count" })
    } else {
        match spec_decode_hex(b.subrange(1, b.len() - 2)) {
            Err(e) => Err(e),
            Ok(d) => if spec_lrc(d.drop_last()) != d.last() {
                Err(Error::Checksum { expected: spec_lrc(d.drop_last()) as u16, actual: d.last() as u16 })
            } else {
                Ok((UnitId(d[0]), d.subrange(1, d.len() - 1)))
            },
        }
    }
}

/// The LRC of a run of bytes.
pub fn lrc(bytes: &[u8]) -> (r: u8)
    ensures
        r == spec_lrc(bytes@),
{
    let mut sum: u32 = 0;
    let mut i: usize = 0;
    while i < bytes.len()
        invariant
            i <= bytes@.len(),
            sum == byte_sum(bytes@.take(i as int)) % 256,
        decreases bytes@.len() - i,
    {
        proof {
            assert(bytes@.take(i + 1).drop_last() =~= bytes@.take(i as int));
        }
        sum = (sum + bytes[i] as u32) % 256;
        i = i + 1;
    }
    proof {
        assert(bytes@.take(i as int) =~= bytes@);
    }
    ((256 - sum) % 256) as u8
}

/// One uppercase hexadecimal character for a nibble.
fn hex_digit_of(n: u8) -> (r: u8)
    requires
        n < 16,
    ensures
        r == hex_digit(n),
{
    if n < 10 {
        0x30 + n
    } else {
        0x37 + n
    }
}

/// Append bytes as hexadecimal character pairs.
fn push_hex(out: &mut Vec<u8>, d: &[u8])
    ensures
        final(out)@ == old(out)@ + hex_chars(d@),
{
    let ghost start = out@;
    let mut k: usize = 0;
    while k < d.len()
        invariant
            k <= d@.len(),
            out@ == start + hex_chars(d@.take(k as int)),
        decreases d@.len() - k,
    {
        let b = d[k];
        out.push(hex_digit_of(b / 16));
        out.push(hex_digit_of(b % 16));
        proof {
            let prev = hex_chars(d@.take(k as int));
            let next = hex_chars(d@.take(k + 1));
            assert forall|i: int| 0 <= i < prev.len() implies #[trigger] next[i] == prev[i] by {
                assert(i / 2 < k);
            }
            assert(next =~= prev + seq![hex_digit(b / 16), hex_digit(b % 16)]);
        }
        k = k + 1;
    }
    proof {
        assert(d@.take(k as int) =~= d@);
    }
}

/// The value of one hexadecimal character, either case.
fn nibble(c: u8) -> (r: Result<u8>)
    ensures
        r == (if is_hex(c) { Ok::<u8, Error>(nibble_value(c)) } else { Err(Error::InvalidCharacter(c)) }),
        r matches Ok(v) ==> v < 16,
{
    if 0x30 <= c && c <= 0x39 {
        Ok(c - 0x30)
    } else if 0x41 <= c && c <= 0x46 {
        Ok(c - 0x37)
    } else if 0x61 <= c && c <= 0x66 {
        Ok(c - 0x57)
    } else {
        Err(Error::InvalidCharacter(c))
    }
}

/// The first invalid character from an even position, when the character
/// there and the one after it are both digits, is found after them.
proof fn lemma_first_invalid_skip(c: Seq<u8>, i: int)
    requires
        0 <= i,
        i + 1 < c.len(),
        is_hex(c[i]),
        is_hex(c[i + 1]),
    ensures
        first_invalid_from(c, i) == first_invalid_from(c, i + 2),
{
    assert(first_invalid_from(c, i) == first_invalid_from(c, i + 1));
    assert(first_invalid_from(c, i + 1) == first_invalid_from(c, i + 2));
}

/// Decode hexadecimal character pairs into bytes.
fn decode_hex(chars: &[u8]) -> (r: Result<Vec<u8>>)
    requires
        chars@.len() % 2 == 0,
    ensures
        match r {
            Ok(v) => spec_decode_hex(chars@) == Ok::<Seq<u8>, Error>(v@),
            Err(e) => spec_decode_hex(chars@) == Err::<Seq<u8>, Error>(e),
        },
{
    let mut out: Vec<u8> = Vec::new();
    let mut t: usize = 0;
    let half = chars.len() / 2;
    while t < half
        invariant
            half == chars@.len() / 2,
            chars@.len() % 2 == 0,
            chars@.len() == chars.len(),
            t <= half,
            first_invalid_from(chars@, 0) == first_invalid_from(chars@, 2 * t as int),
            out@ == Seq::new(t as nat, |s: int| pair_value(chars@, s)),
        decreases half - t,
    {
        let high = match nibble(chars[2 * t]) {
            Ok(v) => v,
            Err(e) => {
                proof {
                    assert(first_invalid_from(chars@, 2 * t as int) == 2 * t);
                }
                return Err(e);
            },
        };
        let low = match nibble(chars[2 * t + 1]) {
            Ok(v) => v,
            Err(e) => {
                proof {
                    assert(first_invalid_from(chars@, 2 * t + 1) == 2 * t + 1);
                    assert(first_invalid_from(chars@, 2 * t as int) == 2 * t + 1);
                }
                return Err(e);
            },
        };
        proof {
            lemma_first_invalid_skip(chars@, 2 * t as int);
        }
        out.push(high * 16 + low);
        proof {
            assert(out@ =~= Seq::new((t + 1) as nat, |s: int| pair_value(chars@, s)));
        }
        t = t + 1;
    }
    proof {
        assert(first_invalid_from(chars@, chars@.len() as int) == chars@.len());
        assert(out@ =~= Seq::new(chars@.len() / 2, |s: int| pair_value(chars@, s)));
    }
    Ok(out)
}

/// Unframe an ASCII ADU into its address and its decoded PDU bytes. The LRC
/// is checked before the PDU is looked at.
pub fn split(bytes: &[u8]) -> (r: Result<(UnitId, Vec<u8>)>)
    ensures
        match r {
            Ok((a, p)) => spec_ascii_split(bytes@) == Ok::<(UnitId, Seq<u8>), Error>((a, p@)),
            Err(e) => spec_ascii_split(bytes@) == Err::<(UnitId, Seq<u8>), Error>(e),
        },
{
    let n = bytes.len();
    if n > ASCII_MAX_ADU_LEN {
        return Err(Error::AduTooLarge { len: n, max: ASCII_MAX_ADU_LEN });
    }
    if n < OVERHEAD + 2 {
        return Err(Error::Truncated { expected: OVERHEAD + 2, supplied: n });
    }
    if bytes[0] != START {
        return Err(Error::Framing { element: "start character" });
    }
    if bytes[n - 2] != CR || bytes[n - 1] != LF {
        return Err(Error::Framing { element: "terminator" });
    }
    if (n - 3) % 2 != 0 {
        return Err(Error::Framing { element: "hexadecimal character count" });
    }
    let body = vstd::slice::slice_subrange(bytes, 1, n - 2);
    let decoded = match decode_hex(body) {
        Ok(d) => d,
        Err(e) => return Err(e),
    };
    let m = decoded.len();
    let covered = vstd::slice::slice_subrange(decoded.as_slice(), 0, m - 1);
    let expected = lrc(covered);
    let actual = decoded[m - 1];
    proof {
        assert(covered@ =~= decoded@.drop_last());
    }
    if expected != actual {
        return Err(Error::Checksum { expected: expected as u16, actual: actual as u16 });
    }
    let pdu = vstd::slice::slice_to_vec(vstd::slice::slice_subrange(decoded.as_slice(), 1, m - 1));
    Ok((UnitId(decoded[0]), pdu))
}

/// Frame an encoded PDU as an ASCII ADU, appending it to `out`.
fn wrap_into(address: UnitId, pdu: &[u8], out: &mut Vec<u8>)
    ensures
        final(out)@ == old(out)@ + spec_ascii_wrap(address, pdu@),
{
    let mut covered: Vec<u8> = Vec::new();
    covered.push(address.0);
    push_bytes(&mut covered, pdu);
    let check = lrc(covered.as_slice());
    let ghost c = covered@;
    proof {
        assert(c =~= seq![address.0] + pdu@);
    }
    covered.push(check);
    out.push(START);
    push_hex(out, covered.as_slice());
    out.push(CR);
    out.push(LF);
    proof {
        assert(final(out)@ =~= old(out)@ + spec_ascii_wrap(address, pdu@));
    }
}

impl Framing for Ascii {
    type Header = UnitId;

    const MAX_ADU_LEN: usize = 513;

    open spec fn spec_wrap(header: UnitId, pdu: Seq<u8>) -> Result<Seq<u8>> {
        Ok(spec_ascii_wrap(header, pdu))
    }

    open spec fn spec_boundary() -> AduBoundary {
        AduBoundary::Delimited { start: START, end: [CR, LF] }
    }

    open spec fn spec_split(adu: Seq<u8>) -> Result<(UnitId, Seq<u8>)> {
        spec_ascii_split(adu)
    }

    fn decode_request(bytes: &[u8]) -> (r: Result<(UnitId, RequestPdu)>) {
        match split(bytes) {
            Err(e) => Err(e),
            Ok((address, pdu)) => match RequestPdu::decode(pdu.as_slice()) {
                Ok(p) => Ok((address, p)),
                Err(e) => Err(e),
            },
        }
    }

    fn encode_request_into(header: &UnitId, pdu: &RequestPdu, out: &mut Vec<u8>) -> (r: Result<()>) {
        out.reserve(ASCII_MAX_ADU_LEN);
        match pdu.encode() {
            Ok(body) => {
                wrap_into(*header, body.as_slice(), out);
                Ok(())
            },
            Err(e) => Err(e),
        }
    }

    fn decode_response(bytes: &[u8]) -> (r: Result<(UnitId, ResponsePdu)>) {
        match split(bytes) {
            Err(e) => Err(e),
            Ok((address, pdu)) => match ResponsePdu::decode(pdu.as_slice()) {
                Ok(p) => Ok((address, p)),
                Err(e) => Err(e),
            },
        }
    }

    fn encode_response_into(header: &UnitId, pdu: &ResponsePdu, out: &mut Vec<u8>) -> (r: Result<()>) {
        out.reserve(ASCII_MAX_ADU_LEN);
        match pdu.encode() {
            Ok(body) => {
                wrap_into(*header, body.as_slice(), out);
                Ok(())
            },
            Err(e) => Err(e),
        }
    }

    /// An ASCII ADU opens with `:` and closes with CR LF.
    fn boundary() -> (b: AduBoundary) {
        AduBoundary::Delimited { start: START, end: [CR, LF] }
    }
}

// ---------------------------------------------------------------------------
// Laws.

/// Whether every hexadecimal letter between the delimiters is uppercase, the
/// form the encoder writes.
pub open spec fn uppercase_hex(b: Seq<u8>) -> bool {
    forall|i: int| 1 <= i < b.len() - 2 ==> !(0x61 <= #[trigger] b[i] <= 0x66)
}

/// A character the encoder writes for a nibble is a digit it decodes back to
/// that nibble.
proof fn lemma_hex_digit_decodes(n: u8)
    requires
        n < 16,
    ensures
        is_hex(hex_digit(n)),
        nibble_value(hex_digit(n)) == n,
        !(0x61 <= hex_digit(n) <= 0x66),
{
}

/// Hexadecimal pairs the encoder writes decode back to the bytes.
proof fn lemma_hex_chars_decode(d: Seq<u8>)
    ensures
        spec_decode_hex(hex_chars(d)) == Ok::<Seq<u8>, Error>(d),
{
    let c = hex_chars(d);
    assert forall|i: int| 0 <= i < c.len() implies is_hex(#[trigger] c[i]) by {
        lemma_hex_digit_decodes(d[i / 2] / 16);
        lemma_hex_digit_decodes(d[i / 2] % 16);
    }
    lemma_first_invalid_none(c, 0);
    assert forall|t: int| 0 <= t < d.len() implies #[trigger] pair_value(c, t) == d[t] by {
        assert((2 * t) / 2 == t);
        assert((2 * t + 1) / 2 == t);
        assert((2 * t) % 2 == 0);
        assert((2 * t + 1) % 2 == 1);
        lemma_hex_digit_decodes(d[t] / 16);
        lemma_hex_digit_decodes(d[t] % 16);
    }
    assert(Seq::new(c.len() / 2, |t: int| pair_value(c, t)) =~= d);
}

/// With every character from `i` on a digit, none is invalid.
proof fn lemma_first_invalid_none(c: Seq<u8>, i: int)
    requires
        0 <= i <= c.len(),
        forall|j: int| 0 <= j < c.len() ==> is_hex(#[trigger] c[j]),
    ensures
        first_invalid_from(c, i) == c.len(),
    decreases c.len() - i,
{
    if i < c.len() {
        lemma_first_invalid_none(c, i + 1);
    }
}

/// Decoded uppercase pairs write back as the same characters.
proof fn lemma_decode_hex_rewrites(c: Seq<u8>)
    requires
        c.len() % 2 == 0,
        spec_decode_hex(c) is Ok,
        forall|i: int| 0 <= i < c.len() ==> !(0x61 <= #[trigger] c[i] <= 0x66),
    ensures
        hex_chars(spec_decode_hex(c)->Ok_0) == c,
{
    let d = spec_decode_hex(c)->Ok_0;
    lemma_first_invalid_all(c, 0);
    let h = hex_chars(d);
    assert forall|i: int| 0 <= i < c.len() implies #[trigger] h[i] == c[i] by {
        let t = i / 2;
        assert(0 <= t < d.len());
        assert(is_hex(c[2 * t]));
        assert(is_hex(c[2 * t + 1]));
        let hi = nibble_value(c[2 * t]);
        let lo = nibble_value(c[2 * t + 1]);
        assert(hi < 16 && lo < 16);
        assert(d[t] == hi * 16 + lo);
        assert(d[t] / 16 == hi);
        assert(d[t] % 16 == lo);
        assert(hex_digit(hi) == c[2 * t]);
        assert(hex_digit(lo) == c[2 * t + 1]);
        if i % 2 == 0 {
            assert(i == 2 * t);
        } else {
            assert(i == 2 * t + 1);
        }
    }
    assert(h =~= c);
}

/// With no invalid character from `i` on, every character from `i` on is a
/// digit.
proof fn lemma_first_invalid_all(c: Seq<u8>, i: int)
    requires
        0 <= i <= c.len(),
        first_invalid_from(c, i) >= c.len(),
    ensures
        forall|j: int| i <= j < c.len() ==> is_hex(#[trigger] c[j]),
    decreases c.len() - i,
{
    if i < c.len() {
        lemma_first_invalid_all(c, i + 1);
    }
}

/// Splitting an ADU written in uppercase and wrapping its PDU again for its
/// address gives back the ADU; the PDU it carried is within the PDU size
/// limit. (A lowercase ADU decodes too, and re-encodes in uppercase.)
#[verifier::rlimit(50)]
#[verifier::spinoff_prover]
pub proof fn lemma_ascii_split_rewraps(b: Seq<u8>)
    requires
        spec_ascii_split(b) is Ok,
        uppercase_hex(b),
    ensures
        spec_ascii_split(b)->Ok_0.1.len() <= crate::frame::pdu_spec::MAX_PDU_LEN,
        spec_ascii_wrap(spec_ascii_split(b)->Ok_0.0, spec_ascii_split(b)->Ok_0.1) == b,
{
    let (a, p) = spec_ascii_split(b)->Ok_0;
    let body = b.subrange(1, b.len() - 2);
    assert forall|i: int| 0 <= i < body.len() implies !(0x61 <= #[trigger] body[i] <= 0x66) by {
        assert(body[i] == b[i + 1]);
    }
    lemma_decode_hex_rewrites(body);
    let d = spec_decode_hex(body)->Ok_0;
    let covered = seq![a.0] + p;
    assert(covered =~= d.drop_last());
    assert(covered.push(spec_lrc(covered)) =~= d);
    assert(seq![START] + body + seq![CR, LF] =~= b);
}

/// Wrapping a PDU of 1 to 253 bytes and splitting the ADU gives back the
/// address and the PDU; the ADU is within the framing's maximum.
#[verifier::rlimit(50)]
#[verifier::spinoff_prover]
pub proof fn lemma_ascii_wrap_splits(a: UnitId, p: Seq<u8>)
    requires
        1 <= p.len() <= crate::frame::pdu_spec::MAX_PDU_LEN,
    ensures
        spec_ascii_wrap(a, p).len() <= ASCII_MAX_ADU_LEN,
        uppercase_hex(spec_ascii_wrap(a, p)),
        spec_ascii_split(spec_ascii_wrap(a, p)) == Ok::<(UnitId, Seq<u8>), Error>((a, p)),
{
    let covered = seq![a.0] + p;
    let d = covered.push(spec_lrc(covered));
    let b = spec_ascii_wrap(a, p);
    assert(b.subrange(1, b.len() - 2) =~= hex_chars(d));
    lemma_hex_chars_decode(d);
    assert(d.drop_last() =~= covered);
    assert(d.subrange(1, d.len() - 1) =~= p);
    assert forall|i: int| 1 <= i < b.len() - 2 implies !(0x61 <= #[trigger] b[i] <= 0x66) by {
        let h = hex_chars(d);
        assert(b[i] == h[i - 1]);
        lemma_hex_digit_decodes(d[(i - 1) / 2] / 16);
        lemma_hex_digit_decodes(d[(i - 1) / 2] % 16);
    }
}

/// An upper-case hexadecimal digit: `0`-`9` or `A`-`F`.
pub open spec fn is_upper_hex(c: u8) -> bool {
    (0x30 <= c <= 0x39) || (0x41 <= c <= 0x46)
}

/// The digit written for a nibble is an upper-case hexadecimal digit.
proof fn lemma_hex_digit_upper(n: u8)
    requires
        n < 16,
    ensures
        is_upper_hex(hex_digit(n)),
{
}

/// A character of the hexadecimal run is an upper-case digit.
#[verifier::spinoff_prover]
proof fn lemma_hex_chars_upper(d: Seq<u8>, j: int)
    requires
        0 <= j < 2 * d.len(),
    ensures
        is_upper_hex(hex_chars(d)[j]),
{
    let k = j / 2;
    assert(0 <= k < d.len());
    lemma_hex_digit_upper(d[k] / 16);
    lemma_hex_digit_upper(d[k] % 16);
}

/// An ASCII ADU is a start character, two upper-case hexadecimal digits for
/// each byte of address, PDU and LRC, then CR LF: `2n + 7` characters for a
/// PDU of `n` bytes.
#[verifier::spinoff_prover]
pub proof fn lemma_ascii_wrap_shape(a: UnitId, p: Seq<u8>)
    ensures
        spec_ascii_wrap(a, p).len() == 2 * p.len() + 7,
        spec_ascii_wrap(a, p)[0] == START,
        spec_ascii_wrap(a, p)[2 * p.len() + 5int] == CR,
        spec_ascii_wrap(a, p)[2 * p.len() + 6int] == LF,
        forall|i: int| 1 <= i < 2 * p.len() + 5 ==> is_upper_hex(#[trigger] spec_ascii_wrap(a, p)[i]),
{
    let covered = seq![a.0] + p;
    let d = covered.push(spec_lrc(covered));
    let h = hex_chars(d);
    let b = spec_ascii_wrap(a, p);
    assert(d.len() == p.len() + 2);
    assert(h.len() == 2 * p.len() + 4);
    assert forall|i: int| 1 <= i < 2 * p.len() + 5 implies is_upper_hex(#[trigger] b[i]) by {
        assert(b[i] == h[i - 1]);
        lemma_hex_chars_upper(d, i - 1);
    }
}

} // verus!
