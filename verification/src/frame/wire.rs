//! Byte-level layouts shared by every PDU body: big-endian words, register
//! runs, and bit runs packed least significant bit first.

use vstd::prelude::*;

use crate::frame::value::RegisterValue;

verus! {

/// A 16-bit value as two bytes, most significant first.
pub open spec fn be16(v: u16) -> Seq<u8> {
    seq![(v / 256) as u8, (v % 256) as u8]
}

/// The big-endian 16-bit value at `i`.
pub open spec fn u16_at(b: Seq<u8>, i: int) -> u16 {
    (b[i] as int * 256 + b[i + 1] as int) as u16
}

/// Registers as big-endian byte pairs, in order.
pub open spec fn regs_bytes(regs: Seq<RegisterValue>) -> Seq<u8> {
    Seq::new(
        2 * regs.len(),
        |i: int|
            if i % 2 == 0 {
                (regs[i / 2].0 / 256) as u8
            } else {
                (regs[i / 2].0 % 256) as u8
            },
    )
}

/// Plain words as big-endian byte pairs, in order.
pub open spec fn words_bytes(words: Seq<u16>) -> Seq<u8> {
    regs_bytes(words.map_values(|w: u16| RegisterValue(w)))
}

/// Byte pairs read back as registers; a trailing odd byte is not read.
pub open spec fn regs_from(b: Seq<u8>) -> Seq<RegisterValue> {
    Seq::new(b.len() / 2, |i: int| RegisterValue(u16_at(b, 2 * i)))
}

/// Byte pairs read back as plain words.
pub open spec fn words_from(b: Seq<u8>) -> Seq<u16> {
    Seq::new(b.len() / 2, |i: int| u16_at(b, 2 * i))
}

/// Bit `i` of a run, false past its end.
pub open spec fn bit_of(bits: Seq<bool>, i: int) -> bool {
    0 <= i < bits.len() && bits[i]
}

/// Eight bits as one byte, the first least significant.
pub open spec fn byte_from_bits(
    b0: bool,
    b1: bool,
    b2: bool,
    b3: bool,
    b4: bool,
    b5: bool,
    b6: bool,
    b7: bool,
) -> u8 {
    (if b0 { 1u8 } else { 0u8 }) | (if b1 { 2u8 } else { 0u8 }) | (if b2 { 4u8 } else { 0u8 }) | (
    if b3 { 8u8 } else { 0u8 }) | (if b4 { 16u8 } else { 0u8 }) | (if b5 { 32u8 } else { 0u8 }) | (
    if b6 { 64u8 } else { 0u8 }) | (if b7 { 128u8 } else { 0u8 })
}

/// Byte `j` of a packed bit run.
pub open spec fn packed_byte(bits: Seq<bool>, j: int) -> u8 {
    byte_from_bits(
        bit_of(bits, 8 * j),
        bit_of(bits, 8 * j + 1),
        bit_of(bits, 8 * j + 2),
        bit_of(bits, 8 * j + 3),
        bit_of(bits, 8 * j + 4),
        bit_of(bits, 8 * j + 5),
        bit_of(bits, 8 * j + 6),
        bit_of(bits, 8 * j + 7),
    )
}

/// Bits packed least significant bit first, the final byte's unused high bits
/// zero.
pub open spec fn pack_bits(bits: Seq<bool>) -> Seq<u8> {
    Seq::new((bits.len() + 7) / 8, |j: int| packed_byte(bits, j))
}

/// Bit `k` of a byte.
pub open spec fn bit_in(x: u8, k: u8) -> bool {
    (x >> k) & 1u8 == 1u8
}

/// Every byte unpacked least significant bit first: `8 × len` values.
pub open spec fn unpack_bits(bytes: Seq<u8>) -> Seq<bool> {
    Seq::new(8 * bytes.len(), |i: int| bit_in(bytes[i / 8], (i % 8) as u8))
}

/// Bytes needed for `n` packed bits.
pub open spec fn packed_len(n: int) -> int {
    (n + 7) / 8
}

/// The bits past `n` in the final byte of `data` are all clear, so the
/// bytes are exactly what packing the first `n` bits would give.
pub open spec fn padding_clear(data: Seq<u8>, n: int) -> bool {
    n % 8 == 0 || data.len() == 0 || (data.last() >> ((n % 8) as u8)) == 0
}

/// A position for error reporting, saturating at the platform's limit.
pub open spec fn sat_usize(n: int) -> usize {
    if n <= usize::MAX {
        n as usize
    } else {
        usize::MAX
    }
}

/// A length widened for error reporting, saturating rather than wrapping.
pub open spec fn sat_u32(n: int) -> u32 {
    if n <= u32::MAX {
        n as u32
    } else {
        u32::MAX
    }
}

/// A length widened for error reporting, saturating rather than wrapping.
pub fn as_u32(n: usize) -> (r: u32)
    ensures
        r == sat_u32(n as int),
{
    if n <= 0xFFFF_FFFF {
        n as u32
    } else {
        0xFFFF_FFFF
    }
}

/// Append raw bytes.
pub fn push_bytes(out: &mut Vec<u8>, data: &[u8])
    ensures
        final(out)@ == old(out)@ + data@,
{
    let ghost start = out@;
    let mut k: usize = 0;
    while k < data.len()
        invariant
            k <= data@.len(),
            out@ == start + data@.take(k as int),
        decreases data@.len() - k,
    {
        out.push(data[k]);
        proof {
            assert(start + data@.take(k + 1) =~= start + data@.take(k as int) + seq![data@[k as int]]);
        }
        k = k + 1;
    }
    proof {
        assert(data@.take(k as int) =~= data@);
    }
}

/// Append a 16-bit value, most significant byte first.
pub fn push_u16(out: &mut Vec<u8>, v: u16)
    ensures
        final(out)@ == old(out)@ + be16(v),
{
    out.push((v / 256) as u8);
    out.push((v % 256) as u8);
    proof {
        assert(final(out)@ =~= old(out)@ + be16(v));
    }
}

/// The big-endian 16-bit value at `i`.
pub fn read_u16(b: &[u8], i: usize) -> (r: u16)
    requires
        i + 1 < b@.len(),
    ensures
        r == u16_at(b@, i as int),
{
    (b[i] as u16) * 256 + (b[i + 1] as u16)
}

/// Append registers as big-endian byte pairs.
pub fn push_registers(out: &mut Vec<u8>, regs: &[RegisterValue])
    ensures
        final(out)@ == old(out)@ + regs_bytes(regs@),
{
    let ghost start = out@;
    let mut k: usize = 0;
    while k < regs.len()
        invariant
            k <= regs@.len(),
            out@ == start + regs_bytes(regs@.take(k as int)),
        decreases regs@.len() - k,
    {
        let v = regs[k].0;
        let ghost before = out@;
        push_u16(out, v);
        proof {
            assert(regs_bytes(regs@.take(k + 1)) =~= regs_bytes(regs@.take(k as int)) + be16(v));
        }
        k = k + 1;
    }
    proof {
        assert(regs@.take(k as int) =~= regs@);
    }
}

/// Append plain words as big-endian byte pairs.
pub fn push_words(out: &mut Vec<u8>, words: &[u16])
    ensures
        final(out)@ == old(out)@ + words_bytes(words@),
{
    let ghost start = out@;
    let ghost regs = words@.map_values(|w: u16| RegisterValue(w));
    let mut k: usize = 0;
    while k < words.len()
        invariant
            k <= words@.len(),
            regs == words@.map_values(|w: u16| RegisterValue(w)),
            out@ == start + regs_bytes(regs.take(k as int)),
        decreases words@.len() - k,
    {
        let v = words[k];
        push_u16(out, v);
        proof {
            assert(regs[k as int] == RegisterValue(v));
            assert(regs_bytes(regs.take(k + 1)) =~= regs_bytes(regs.take(k as int)) + be16(v));
        }
        k = k + 1;
    }
    proof {
        assert(regs.take(k as int) =~= regs);
    }
}

/// Byte pairs read back as registers.
pub fn registers_from(b: &[u8]) -> (r: Vec<RegisterValue>)
    ensures
        r@ == regs_from(b@),
{
    let mut out: Vec<RegisterValue> = Vec::new();
    let len = b.len();
    let n = len / 2;
    let mut k: usize = 0;
    while k < n
        invariant
            len == b@.len(),
            n == b@.len() / 2,
            k <= n,
            out@.len() == k,
            forall|j: int| 0 <= j < k ==> out@[j] == RegisterValue(u16_at(b@, 2 * j)),
        decreases n - k,
    {
        assert(2 * k + 1 < b@.len()) by (nonlinear_arith)
            requires
                k < n,
                n == b@.len() / 2,
        ;
        let v = read_u16(b, 2 * k);
        out.push(RegisterValue(v));
        k = k + 1;
    }
    proof {
        assert(out@ =~= regs_from(b@));
    }
    out
}

/// Byte pairs read back as plain words.
pub fn words_from_bytes(b: &[u8]) -> (r: Vec<u16>)
    ensures
        r@ == words_from(b@),
{
    let mut out: Vec<u16> = Vec::new();
    let len = b.len();
    let n = len / 2;
    let mut k: usize = 0;
    while k < n
        invariant
            len == b@.len(),
            n == b@.len() / 2,
            k <= n,
            out@.len() == k,
            forall|j: int| 0 <= j < k ==> out@[j] == u16_at(b@, 2 * j),
        decreases n - k,
    {
        assert(2 * k + 1 < b@.len()) by (nonlinear_arith)
            requires
                k < n,
                n == b@.len() / 2,
        ;
        let v = read_u16(b, 2 * k);
        out.push(v);
        k = k + 1;
    }
    proof {
        assert(out@ =~= words_from(b@));
    }
    out
}

/// Bit `i` of a run, false past its end.
fn bit_at(bits: &[bool], i: usize) -> (r: bool)
    ensures
        r == bit_of(bits@, i as int),
{
    i < bits.len() && bits[i]
}

/// Bytes needed for `n` packed bits.
pub fn packed_len_of(n: usize) -> (r: usize)
    ensures
        r == packed_len(n as int),
{
    n / 8 + if n % 8 != 0 {
        1
    } else {
        0
    }
}

/// Append bits packed least significant bit first.
pub fn push_bits(out: &mut Vec<u8>, bits: &[bool])
    requires
        bits@.len() + 16 <= usize::MAX,
    ensures
        final(out)@ == old(out)@ + pack_bits(bits@),
{
    let ghost start = out@;
    let n = packed_len_of(bits.len());
    let mut j: usize = 0;
    while j < n
        invariant
            n == packed_len(bits@.len() as int),
            bits@.len() + 16 <= usize::MAX,
            j <= n,
            out@.len() == start.len() + j,
            forall|i: int| 0 <= i < start.len() ==> out@[i] == start[i],
            forall|i: int| 0 <= i < j ==> out@[start.len() + i] == packed_byte(bits@, i),
        decreases n - j,
    {
        assert(8 * j + 7 <= bits@.len() + 13) by (nonlinear_arith)
            requires
                j < n,
                n == (bits@.len() + 7) / 8,
        ;
        let base = 8 * j;
        let byte = (if bit_at(bits, base) { 1u8 } else { 0u8 }) | (if bit_at(bits, base + 1) {
            2u8
        } else {
            0u8
        }) | (if bit_at(bits, base + 2) { 4u8 } else { 0u8 }) | (if bit_at(bits, base + 3) {
            8u8
        } else {
            0u8
        }) | (if bit_at(bits, base + 4) { 16u8 } else { 0u8 }) | (if bit_at(bits, base + 5) {
            32u8
        } else {
            0u8
        }) | (if bit_at(bits, base + 6) { 64u8 } else { 0u8 }) | (if bit_at(bits, base + 7) {
            128u8
        } else {
            0u8
        });
        out.push(byte);
        j = j + 1;
    }
    proof {
        assert(out@ =~= start + pack_bits(bits@));
    }
}

/// Every byte unpacked least significant bit first.
pub fn bits_from_bytes(bytes: &[u8]) -> (r: Vec<bool>)
    requires
        8 * bytes@.len() <= usize::MAX,
    ensures
        r@ == unpack_bits(bytes@),
{
    let mut out: Vec<bool> = Vec::new();
    let mut j: usize = 0;
    while j < bytes.len()
        invariant
            j <= bytes@.len(),
            8 * bytes@.len() <= usize::MAX,
            out@.len() == 8 * j,
            forall|i: int| 0 <= i < 8 * j ==> out@[i] == bit_in(bytes@[i / 8], (i % 8) as u8),
        decreases bytes@.len() - j,
    {
        let x = bytes[j];
        let ghost before = out@;
        out.push((x >> 0u8) & 1u8 == 1u8);
        out.push((x >> 1u8) & 1u8 == 1u8);
        out.push((x >> 2u8) & 1u8 == 1u8);
        out.push((x >> 3u8) & 1u8 == 1u8);
        out.push((x >> 4u8) & 1u8 == 1u8);
        out.push((x >> 5u8) & 1u8 == 1u8);
        out.push((x >> 6u8) & 1u8 == 1u8);
        out.push((x >> 7u8) & 1u8 == 1u8);
        proof {
            assert forall|i: int| 0 <= i < 8 * (j + 1) implies out@[i] == bit_in(
                bytes@[i / 8],
                (i % 8) as u8,
            ) by {
                if i >= 8 * j {
                    assert(i / 8 == j);
                    assert(out@[i] == bit_in(x, (i - 8 * j) as u8));
                }
            }
        }
        j = j + 1;
    }
    proof {
        assert(out@ =~= unpack_bits(bytes@));
    }
    out
}

} // verus!
