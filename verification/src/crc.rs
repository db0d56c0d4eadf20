//! CRC-32 (reflected polynomial `0xEDB88320`) as used on the Bluetooth
//! transport, together with the facts about it that the frame encoder
//! relies on.

use vstd::prelude::*;

verus! {

/// Reflected form of the CRC-32 generator polynomial.
pub const POLY: u32 = 0xEDB8_8320;

/// Register value before any byte has been consumed.
pub const INIT: u32 = 0xFFFF_FFFF;

/// Header byte of a Bluetooth HID output report. The transport strips it
/// before the payload is handed over, but the controller's checksum covers it.
pub const BT_HEADER: u8 = 0xA2;

/// One shift of the checksum register.
pub open spec fn bit_step(crc: u32) -> u32 {
    if crc & 1 != 0 {
        (crc >> 1) ^ POLY
    } else {
        crc >> 1
    }
}

/// `n` shifts of the checksum register.
pub open spec fn bit_steps(crc: u32, n: nat) -> u32
    decreases n,
{
    if n == 0 {
        crc
    } else {
        bit_step(bit_steps(crc, (n - 1) as nat))
    }
}

/// The register after one more byte has been consumed.
pub open spec fn byte_step(crc: u32, b: u8) -> u32 {
    bit_steps(crc ^ (b as u32), 8)
}

/// The register after all of `data` has been consumed, starting from `init`.
pub open spec fn fold(init: u32, data: Seq<u8>) -> u32
    decreases data.len(),
{
    if data.len() == 0 {
        init
    } else {
        byte_step(fold(init, data.drop_last()), data.last())
    }
}

/// Plain CRC-32 of `data`.
pub open spec fn spec_crc32(data: Seq<u8>) -> u32 {
    !fold(INIT, data)
}

/// CRC-32 of `data` preceded by the Bluetooth header byte.
pub open spec fn spec_crc32_bt(data: Seq<u8>) -> u32 {
    !fold(byte_step(INIT, BT_HEADER), data)
}

fn shift_once(crc: u32) -> (r: u32)
    ensures
        r == bit_step(crc),
{
    if (crc & 1) != 0 {
        (crc >> 1) ^ POLY
    } else {
        crc >> 1
    }
}

fn update_byte(crc: u32, b: u8) -> (r: u32)
    ensures
        r == byte_step(crc, b),
{
    let start: u32 = crc ^ (b as u32);
    let mut cur: u32 = start;
    let mut k: u8 = 0;
    while k < 8
        invariant
            k <= 8,
            cur == bit_steps(start, k as nat),
        decreases 8 - k,
    {
        cur = shift_once(cur);
        k = k + 1;
    }
    cur
}

fn update_slice(init: u32, data: &[u8]) -> (r: u32)
    ensures
        r == fold(init, data@),
{
    let mut cur: u32 = init;
    let mut i: usize = 0;
    while i < data.len()
        invariant
            i <= data.len(),
            cur == fold(init, data@.take(i as int)),
        decreases data.len() - i,
    {
        proof {
            let next = data@.take(i + 1);
            assert(next.drop_last() =~= data@.take(i as int));
            assert(next.last() == data@[i as int]);
        }
        cur = update_byte(cur, data[i]);
        i = i + 1;
    }
    proof {
        assert(data@.take(data.len() as int) =~= data@);
    }
    cur
}

/// Plain CRC-32: initial value `0xFFFFFFFF`, final complement.
pub fn crc32(data: &[u8]) -> (r: u32)
    ensures
        r == spec_crc32(data@),
{
    !update_slice(INIT, data)
}

/// CRC-32 for Bluetooth output frames: the register first consumes the
/// header byte `0xA2`, then `data`.
pub fn crc32_bt(data: &[u8]) -> (r: u32)
    ensures
        r == spec_crc32_bt(data@),
{
    let seeded: u32 = update_byte(INIT, BT_HEADER);
    !update_slice(seeded, data)
}

proof fn lemma_bit_step_injective(a: u32, b: u32)
    by (bit_vector)
    requires
        bit_step(a) == bit_step(b),
    ensures
        a == b,
{
}

proof fn lemma_bit_steps_injective(a: u32, b: u32, n: nat)
    requires
        bit_steps(a, n) == bit_steps(b, n),
    ensures
        a == b,
    decreases n,
{
    if n > 0 {
        lemma_bit_step_injective(bit_steps(a, (n - 1) as nat), bit_steps(b, (n - 1) as nat));
        lemma_bit_steps_injective(a, b, (n - 1) as nat);
    }
}

proof fn lemma_xor_cancels(a: u32, b: u32, x: u8, y: u8)
    by (bit_vector)
    requires
        a ^ (x as u32) == b ^ (y as u32),
    ensures
        a == b ==> x == y,
        x == y ==> a == b,
{
}

/// Consuming a byte loses nothing: from the register afterwards, either of
/// the register before and the byte determines the other.
pub proof fn lemma_byte_step_injective(a: u32, b: u32, x: u8, y: u8)
    requires
        byte_step(a, x) == byte_step(b, y),
    ensures
        a == b ==> x == y,
        x == y ==> a == b,
{
    lemma_bit_steps_injective(a ^ (x as u32), b ^ (y as u32), 8);
    lemma_xor_cancels(a, b, x, y);
}

/// Two different starting registers stay different over the same data.
pub proof fn lemma_fold_injective_in_init(a: u32, b: u32, data: Seq<u8>)
    requires
        fold(a, data) == fold(b, data),
    ensures
        a == b,
    decreases data.len(),
{
    if data.len() > 0 {
        lemma_byte_step_injective(
            fold(a, data.drop_last()),
            fold(b, data.drop_last()),
            data.last(),
            data.last(),
        );
        lemma_fold_injective_in_init(a, b, data.drop_last());
    }
}

/// Two buffers of one length that differ in exactly one byte leave the
/// register in different states.
pub proof fn lemma_fold_single_byte(init: u32, d1: Seq<u8>, d2: Seq<u8>, i: int)
    requires
        d1.len() == d2.len(),
        0 <= i < d1.len(),
        d1[i] != d2[i],
        forall|j: int| 0 <= j < d1.len() && j != i ==> d1[j] == d2[j],
    ensures
        fold(init, d1) != fold(init, d2),
    decreases d1.len(),
{
    let head1 = d1.drop_last();
    let head2 = d2.drop_last();
    if i == d1.len() - 1 {
        assert(head1 =~= head2);
        if fold(init, d1) == fold(init, d2) {
            lemma_byte_step_injective(fold(init, head1), fold(init, head2), d1.last(), d2.last());
        }
    } else {
        lemma_fold_single_byte(init, head1, head2, i);
        if fold(init, d1) == fold(init, d2) {
            lemma_byte_step_injective(fold(init, head1), fold(init, head2), d1.last(), d2.last());
        }
    }
}

proof fn lemma_complement_injective(a: u32, b: u32)
    by (bit_vector)
    requires
        !a == !b,
    ensures
        a == b,
{
}

proof fn lemma_header_moves_register()
    ensures
        byte_step(INIT, BT_HEADER) != INIT,
{
    let s0: u32 = INIT ^ (BT_HEADER as u32);
    let s1 = bit_step(s0);
    let s2 = bit_step(s1);
    let s3 = bit_step(s2);
    let s4 = bit_step(s3);
    let s5 = bit_step(s4);
    let s6 = bit_step(s5);
    let s7 = bit_step(s6);
    let s8 = bit_step(s7);
    reveal_with_fuel(bit_steps, 9);
    assert(bit_steps(s0, 8) == s8);
    assert(s0 == 0xFFFF_FF5Du32) by (bit_vector)
        requires
            s0 == 0xFFFF_FFFFu32 ^ (0xA2u8 as u32),
    ;
    assert(bit_step(bit_step(bit_step(bit_step(bit_step(bit_step(bit_step(bit_step(0xFFFF_FF5Du32))))))))
        != 0xFFFF_FFFFu32) by (bit_vector);
}

/// Changing any single byte of a buffer changes both checksums.
pub proof fn law_single_byte_change(d1: Seq<u8>, d2: Seq<u8>, i: int)
    requires
        d1.len() == d2.len(),
        0 <= i < d1.len(),
        d1[i] != d2[i],
        forall|j: int| 0 <= j < d1.len() && j != i ==> d1[j] == d2[j],
    ensures
        spec_crc32(d1) != spec_crc32(d2),
        spec_crc32_bt(d1) != spec_crc32_bt(d2),
{
    lemma_fold_single_byte(INIT, d1, d2, i);
    lemma_fold_single_byte(byte_step(INIT, BT_HEADER), d1, d2, i);
    if spec_crc32(d1) == spec_crc32(d2) {
        lemma_complement_injective(fold(INIT, d1), fold(INIT, d2));
    }
    if spec_crc32_bt(d1) == spec_crc32_bt(d2) {
        lemma_complement_injective(
            fold(byte_step(INIT, BT_HEADER), d1),
            fold(byte_step(INIT, BT_HEADER), d2),
        );
    }
}

/// The header byte matters: over any buffer the Bluetooth checksum differs
/// from the plain one.
pub proof fn law_header_byte_matters(data: Seq<u8>)
    ensures
        spec_crc32_bt(data) != spec_crc32(data),
{
    lemma_header_moves_register();
    if spec_crc32_bt(data) == spec_crc32(data) {
        lemma_complement_injective(fold(byte_step(INIT, BT_HEADER), data), fold(INIT, data));
        lemma_fold_injective_in_init(byte_step(INIT, BT_HEADER), INIT, data);
    }
}

/// The Bluetooth checksum of a buffer is the plain checksum of the header
/// byte followed by the buffer.
pub proof fn law_bt_is_plain_with_header(data: Seq<u8>)
    ensures
        spec_crc32_bt(data) == spec_crc32(seq![BT_HEADER] + data),
    decreases data.len(),
{
    let whole = seq![BT_HEADER] + data;
    let seeded = byte_step(INIT, BT_HEADER);
    assert(whole.len() == data.len() + 1);
    assert(fold(INIT, whole) == byte_step(fold(INIT, whole.drop_last()), whole.last()));
    if data.len() == 0 {
        assert(whole.drop_last() =~= Seq::<u8>::empty());
        assert(whole.last() == BT_HEADER);
        assert(fold(INIT, whole.drop_last()) == INIT);
        assert(fold(seeded, data) == seeded);
    } else {
        law_bt_is_plain_with_header(data.drop_last());
        assert(whole.drop_last() =~= seq![BT_HEADER] + data.drop_last());
        assert(whole.last() == data.last());
        assert(fold(seeded, data) == byte_step(fold(seeded, data.drop_last()), data.last()));
        lemma_complement_injective(
            fold(seeded, data.drop_last()),
            fold(INIT, seq![BT_HEADER] + data.drop_last()),
        );
    }
}

} // verus!
