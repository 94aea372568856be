//! Wire encoding of timestamps.
//!
//! Frames exchanged between nodes carry their timestamps as contiguous
//! 5-byte big-endian fields, one per 40-bit tick value. A received
//! payload additionally carries a 2-byte checksum trailer, so the
//! number of fields in a payload of `len` bytes is `(len - 2) / 5`.

use vstd::prelude::*;

use crate::ticks::TICK_MODULUS;

verus! {

/// Place value of byte `k` (0 = most significant) within a 5-byte field.
pub open spec fn be_weight(k: int) -> int {
    if k == 0 {
        0x1_0000_0000
    } else if k == 1 {
        0x100_0000
    } else if k == 2 {
        0x1_0000
    } else if k == 3 {
        0x100
    } else {
        1
    }
}

/// Byte `k` (0 = most significant) of the low 40 bits of `v`.
pub open spec fn be_byte(v: u64, k: int) -> u8 {
    (((v as int) / be_weight(k)) % 256) as u8
}

/// The 40-bit value held by field `i` of a byte sequence of 5-byte fields.
pub open spec fn packed_field(s: Seq<u8>, i: int) -> int {
    s[5 * i] * 0x1_0000_0000 + s[5 * i + 1] * 0x100_0000 + s[5 * i + 2] * 0x1_0000 + s[5 * i + 3]
        * 0x100 + s[5 * i + 4]
}

/// Reads the 5-byte big-endian field number `nb_data` out of a byte slice.
pub fn convert_u8_u64(u8_array: &[u8], nb_data: usize) -> (r: u64)
    requires
        5 * nb_data + 5 <= u8_array@.len(),
    ensures
        r == packed_field(u8_array@, nb_data as int),
        r < TICK_MODULUS,
{
    let len = u8_array.len();
    let j = nb_data * 5;
    let b0 = u8_array[j] as u64;
    let b1 = u8_array[j + 1] as u64;
    let b2 = u8_array[j + 2] as u64;
    let b3 = u8_array[j + 3] as u64;
    let b4 = u8_array[j + 4] as u64;
    proof {
        assert(b0 < 256 && b1 < 256 && b2 < 256 && b3 < 256 ==> (b0 << 32) == b0 * 0x1_0000_0000
            && (b1 << 24) == b1 * 0x100_0000 && (b2 << 16) == b2 * 0x1_0000 && (b3 << 8) == b3
            * 0x100) by (bit_vector);
    }
    (b0 << 32) + (b1 << 24) + (b2 << 16) + (b3 << 8) + b4
}

/// Writes the first five entries of `u64time` as contiguous 5-byte
/// big-endian fields (the low 40 bits of each entry) into `u8_array`.
pub fn convert_u64_u8(u64time: &[u64], u8_array: &mut [u8; 25])
    requires
        u64time@.len() >= 5,
    ensures
        forall|n: int|
            0 <= n < 25 ==> final(u8_array)@[n] == be_byte(u64time@[n / 5], n % 5),
{
    let mut i: usize = 0;
    while i < 5
        invariant
            i <= 5,
            u64time@.len() >= 5,
            forall|n: int| 0 <= n < 5 * i ==> u8_array@[n] == be_byte(u64time@[n / 5], n % 5),
        decreases 5 - i,
    {
        let v = u64time[i];
        let j = i * 5;
        proof {
            assert(((v >> 32) & 0xFF) < 256 && ((v >> 32) & 0xFF) == ((v as int) / 0x1_0000_0000)
                % 256 && ((v >> 24) & 0xFF) < 256 && ((v >> 24) & 0xFF) == ((v as int) / 0x100_0000)
                % 256 && ((v >> 16) & 0xFF) < 256 && ((v >> 16) & 0xFF) == ((v as int) / 0x1_0000)
                % 256 && ((v >> 8) & 0xFF) < 256 && ((v >> 8) & 0xFF) == ((v as int) / 0x100) % 256
                && (v & 0xFF) < 256 && (v & 0xFF) == (v as int) % 256) by (bit_vector);
        }
        u8_array[j] = ((v >> 32) & 0xFF) as u8;
        u8_array[j + 1] = ((v >> 24) & 0xFF) as u8;
        u8_array[j + 2] = ((v >> 16) & 0xFF) as u8;
        u8_array[j + 3] = ((v >> 8) & 0xFF) as u8;
        u8_array[j + 4] = (v & 0xFF) as u8;
        proof {
            assert forall|n: int| 0 <= n < 5 * (i + 1) implies u8_array@[n] == be_byte(
                u64time@[n / 5],
                n % 5,
            ) by {
                if 5 * i <= n {
                    let k = n - 5 * i;
                    vstd::arithmetic::div_mod::lemma_fundamental_div_mod_converse_div(
                        n,
                        5,
                        i as int,
                        k,
                    );
                    vstd::arithmetic::div_mod::lemma_fundamental_div_mod_converse_mod(
                        n,
                        5,
                        i as int,
                        k,
                    );
                }
            }
        }
        i = i + 1;
    }
}

/// Encoding a value and reading the field back yields the value's low
/// 40 bits: the wire format is lossless for every legal tick value.
pub proof fn lemma_wire_round_trip(v: u64, s: Seq<u8>, i: int)
    requires
        0 <= i,
        s.len() >= 5 * i + 5,
        forall|k: int| 0 <= k < 5 ==> s[5 * i + k] == be_byte(v, k),
    ensures
        packed_field(s, i) == v % TICK_MODULUS,
{
    assert(s[5 * i + 0] == be_byte(v, 0) && s[5 * i + 1] == be_byte(v, 1) && s[5 * i + 2]
        == be_byte(v, 2) && s[5 * i + 3] == be_byte(v, 3) && s[5 * i + 4] == be_byte(v, 4));
    assert(((((v as int) / 0x1_0000_0000) % 256) as u8) * 0x1_0000_0000 + ((((v as int)
        / 0x100_0000) % 256) as u8) * 0x100_0000 + ((((v as int) / 0x1_0000) % 256) as u8)
        * 0x1_0000 + ((((v as int) / 0x100) % 256) as u8) * 0x100 + (((v as int) % 256) as u8) == v
        % 0x100_0000_0000) by (bit_vector);
    assert(v % TICK_MODULUS == v % 0x100_0000_0000);
}

/// How many 5-byte fields a received payload of `len` bytes holds, capped
/// at the six fields a frame may carry (the trailing 2 bytes are checksum).
pub open spec fn payload_field_count(len: int) -> int {
    if len < 2 {
        0
    } else if (len - 2) / 5 > 6 {
        6
    } else {
        (len - 2) / 5
    }
}

/// Decodes every timestamp field of a received payload; fields the
/// payload does not carry are left zero.
pub fn parse_uwb_payload(payload: &[u8]) -> (data: [u64; 6])
    ensures
        forall|i: int|
            0 <= i < payload_field_count(payload@.len() as int) ==> data@[i] == packed_field(
                payload@,
                i,
            ),
        forall|i: int|
            payload_field_count(payload@.len() as int) <= i < 6 ==> data@[i] == 0,
        forall|i: int| 0 <= i < 6 ==> data@[i] < TICK_MODULUS,
{
    let mut data: [u64; 6] = [0u64; 6];
    let len = payload.len();
    let count: usize = if len < 2 {
        0
    } else if (len - 2) / 5 > 6 {
        6
    } else {
        (len - 2) / 5
    };
    let mut nb_data: usize = 0;
    while nb_data < count
        invariant
            count == payload_field_count(payload@.len() as int),
            nb_data <= count,
            count <= 6,
            forall|i: int| 0 <= i < nb_data ==> data@[i] == packed_field(payload@, i),
            forall|i: int| nb_data <= i < 6 ==> data@[i] == 0,
            forall|i: int| 0 <= i < 6 ==> data@[i] < TICK_MODULUS,
        decreases count - nb_data,
    {
        proof {
            let len_i = payload@.len() as int;
            vstd::arithmetic::div_mod::lemma_fundamental_div_mod(len_i - 2, 5);
            vstd::arithmetic::div_mod::lemma_mod_bound(len_i - 2, 5);
        }
        let field = convert_u8_u64(payload, nb_data);
        data[nb_data] = field;
        nb_data = nb_data + 1;
    }
    data
}

} // verus!
