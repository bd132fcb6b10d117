//! Variable-length integers.
//!
//! The two top bits of the first byte say how long an integer is: one, two, four
//! or eight bytes, the most significant first. What remains of the first byte and
//! the bytes after it hold the value, so that 62 bits is the most an integer can
//! carry.

use bytes::{Bytes, BytesMut};
use vstd::prelude::*;

use crate::buffer;
use crate::protocol::{ProbeError, ProbeResult};

verus! {

/// One more than the largest value that can be carried.
pub open spec fn carried_limit() -> int {
    0x4000_0000_0000_0000
}

/// What of a value is carried: its low 62 bits.
pub open spec fn carried(value: u64) -> u64 {
    (value % 0x4000_0000_0000_0000) as u64
}

/// How many bytes the encoding of a value takes.
pub open spec fn encoded_len(value: u64) -> nat {
    if value < 0x40 {
        1
    } else if value < 0x4000 {
        2
    } else if value < 0x4000_0000 {
        4
    } else {
        8
    }
}

/// The encoding of a value.
pub open spec fn encoding(value: u64) -> Seq<u8> {
    if value < 0x40 {
        seq![value as u8]
    } else if value < 0x4000 {
        buffer::be16((value + 0x4000) as u16)
    } else if value < 0x4000_0000 {
        buffer::be32((value + 0x8000_0000) as u32)
    } else {
        buffer::be64((carried(value) + 0xc000_0000_0000_0000) as u64)
    }
}

/// How many bytes an encoding takes that begins with the given byte.
pub open spec fn len_from_first(first: u8) -> nat {
    if first < 0x40 {
        1
    } else if first < 0x80 {
        2
    } else if first < 0xc0 {
        4
    } else {
        8
    }
}

/// The number that a run of bytes makes, the most significant first.
pub open spec fn big_endian(bytes: Seq<u8>) -> nat
    decreases bytes.len(),
{
    if bytes.len() == 0 {
        0
    } else {
        big_endian(bytes.drop_last()) * 0x100 + bytes.last() as nat
    }
}

/// Whether an encoding stands complete at the front of the bytes.
pub open spec fn is_complete(bytes: Seq<u8>) -> bool {
    bytes.len() > 0 && bytes.len() >= len_from_first(bytes[0])
}

/// The value whose encoding stands at the front of the bytes: all bits of the
/// encoding but the two that give its length.
pub open spec fn front_value(bytes: Seq<u8>) -> u64 {
    let len = len_from_first(bytes[0]);
    let all = big_endian(bytes.take(len as int));
    if len == 1 {
        (all % 0x40) as u64
    } else if len == 2 {
        (all % 0x4000) as u64
    } else if len == 4 {
        (all % 0x4000_0000) as u64
    } else {
        (all % 0x4000_0000_0000_0000) as u64
    }
}

/// The bytes behind the encoding at the front.
pub open spec fn behind_front(bytes: Seq<u8>) -> Seq<u8> {
    bytes.skip(len_from_first(bytes[0]) as int)
}

proof fn be16_number(n: u16)
    ensures
        buffer::be16(n).len() == 2,
        big_endian(buffer::be16(n)) == n,
{
    let s = buffer::be16(n);
    reveal_with_fuel(big_endian, 3);
    assert(s.drop_last() =~= seq![s[0]]);
    assert(s.drop_last().drop_last() =~= Seq::<u8>::empty());
}

proof fn big_endian_concat(a: Seq<u8>, b: Seq<u8>)
    requires
        b.len() == 2,
    ensures
        big_endian(a + b) == big_endian(a) * 0x1_0000 + big_endian(b),
{
    reveal_with_fuel(big_endian, 3);
    let ab = a + b;
    assert(ab.drop_last() =~= a.push(b[0]));
    assert(ab.drop_last().drop_last() =~= a);
    assert(b.drop_last() =~= seq![b[0]]);
    assert(b.drop_last().drop_last() =~= Seq::<u8>::empty());
}

proof fn be32_number(n: u32)
    ensures
        buffer::be32(n).len() == 4,
        big_endian(buffer::be32(n)) == n,
{
    let high = (n / 0x1_0000) as u16;
    let low = (n % 0x1_0000) as u16;
    be16_number(high);
    be16_number(low);
    big_endian_concat(buffer::be16(high), buffer::be16(low));
}

proof fn be64_number(n: u64)
    ensures
        buffer::be64(n).len() == 8,
        big_endian(buffer::be64(n)) == n,
{
    let high = (n / 0x1_0000_0000) as u32;
    let low = (n % 0x1_0000_0000) as u32;
    be32_number(high);
    be32_number(low);
    let h2 = buffer::be16((low / 0x1_0000) as u16);
    let l2 = buffer::be16((low % 0x1_0000) as u16);
    be16_number((low / 0x1_0000) as u16);
    be16_number((low % 0x1_0000) as u16);
    big_endian_concat(buffer::be32(high), h2);
    big_endian_concat(buffer::be32(high) + h2, l2);
    assert(buffer::be64(n) =~= buffer::be32(high) + h2 + l2);
    big_endian_concat(h2, l2);
}

/// The encoding of a value has the length that its first byte gives, and reading
/// it gives back the value, as far as 62 bits carry it. What follows the encoding
/// does not matter.
pub proof fn encoding_round_trip(value: u64, rest: Seq<u8>)
    ensures
        encoding(value).len() == encoded_len(value),
        len_from_first(encoding(value)[0]) == encoded_len(value),
        is_complete(encoding(value) + rest),
        front_value(encoding(value) + rest) == carried(value),
        behind_front(encoding(value) + rest) == rest,
        value < carried_limit() ==> carried(value) == value,
{
    let bytes = encoding(value) + rest;
    if value < 0x40 {
        reveal_with_fuel(big_endian, 2);
        assert(bytes.take(1) =~= seq![value as u8]);
        assert(bytes.take(1).drop_last() =~= Seq::<u8>::empty());
    } else if value < 0x4000 {
        let n = (value + 0x4000) as u16;
        be16_number(n);
        assert(bytes.take(2) =~= buffer::be16(n));
    } else if value < 0x4000_0000 {
        let n = (value + 0x8000_0000) as u32;
        be32_number(n);
        assert(bytes[0] == n / 0x100_0000);
        assert(bytes.take(4) =~= buffer::be32(n));
    } else {
        let n = (carried(value) + 0xc000_0000_0000_0000) as u64;
        be64_number(n);
        assert(bytes[0] == n / 0x100_0000_0000_0000);
        assert(bytes.take(8) =~= buffer::be64(n));
    }
    assert(behind_front(bytes) =~= rest);
}

/// Appends the encoding of a value.
pub fn put_varint(out: &mut BytesMut, value: u64)
    requires
        buffer::gathered(*old(out)).len() + encoded_len(value) <= isize::MAX,
    ensures
        buffer::gathered(*final(out)) == buffer::gathered(*old(out)) + encoding(value),
{
    if value < 0x40 {
        buffer::put_u8(out, value as u8);
    } else if value < 0x4000 {
        assert((value as u16) | 0x4000 == value + 0x4000) by (bit_vector)
            requires
                value < 0x4000,
        ;
        buffer::put_u16(out, (value as u16) | 0x4000);
    } else if value < 0x4000_0000 {
        assert((value as u32) | 0x8000_0000 == value + 0x8000_0000) by (bit_vector)
            requires
                value < 0x4000_0000,
        ;
        buffer::put_u32(out, (value as u32) | 0x8000_0000);
    } else {
        assert(value | 0xc000_0000_0000_0000 == value % 0x4000_0000_0000_0000
            + 0xc000_0000_0000_0000) by (bit_vector);
        buffer::put_u64(out, value | 0xc000_0000_0000_0000);
    }
}

/// How many bytes an encoding takes that begins with the given byte.
pub(crate) fn needed_bytes(first: u8) -> (needed: usize)
    ensures
        needed == len_from_first(first),
{
    assert(first >> 6 == first / 0x40) by (bit_vector);
    match first >> 6 {
        0 => 1,
        1 => 2,
        2 => 4,
        _ => 8,
    }
}

/// Takes a value off the front of a buffer. Where no encoding stands complete
/// there, the buffer is left as it is.
pub fn get_varint(buf: &mut Bytes) -> (value: ProbeResult<u64>)
    ensures
        match value {
            Ok(value) => {
                &&& is_complete(buffer::held(*old(buf)))
                &&& value == front_value(buffer::held(*old(buf)))
                &&& buffer::held(*final(buf)) == behind_front(buffer::held(*old(buf)))
            },
            Err(error) => {
                &&& !is_complete(buffer::held(*old(buf)))
                &&& error == ProbeError::InvalidVarint
                &&& *final(buf) == *old(buf)
            },
        },
{
    if !buffer::has_remaining(buf) {
        return Err(ProbeError::InvalidVarint);
    }
    let needed: usize = needed_bytes(buffer::held_slice(buf)[0]);
    if buffer::remaining(buf) < needed {
        return Err(ProbeError::InvalidVarint);
    }
    let ghost front = buffer::held(*buf).take(needed as int);
    match needed {
        1 => {
            let n: u8 = buffer::get_u8(buf);
            proof {
                reveal_with_fuel(big_endian, 2);
                assert(front.drop_last() =~= Seq::<u8>::empty());
                assert(n as u64 & 0x3f == n % 0x40) by (bit_vector);
            }
            Ok(n as u64 & 0x3f)
        },
        2 => {
            let n: u16 = buffer::get_u16(buf);
            proof {
                be16_number(n);
                assert(n as u64 & 0x3fff == n % 0x4000) by (bit_vector);
            }
            Ok(n as u64 & 0x3fff)
        },
        4 => {
            let n: u32 = buffer::get_u32(buf);
            proof {
                be32_number(n);
                assert(n as u64 & 0x3fff_ffff == n % 0x4000_0000) by (bit_vector);
            }
            Ok(n as u64 & 0x3fff_ffff)
        },
        _ => {
            let n: u64 = buffer::get_u64(buf);
            proof {
                be64_number(n);
                assert(n & 0x3fff_ffff_ffff_ffff == n % 0x4000_0000_0000_0000) by (bit_vector);
            }
            Ok(n & 0x3fff_ffff_ffff_ffff)
        },
    }
}

/// Whether an encoding is complete, what it holds and what is behind it, from its
/// bytes: the two highest bits of the first say how many there are, and all other
/// bits make the value, the most significant first.
pub proof fn front_bytes(bytes: Seq<u8>)
    requires
        bytes.len() > 0,
    ensures
        bytes[0] < 0x40 ==> {
            &&& is_complete(bytes)
            &&& front_value(bytes) == bytes[0]
            &&& behind_front(bytes) == bytes.skip(1)
        },
        0x40 <= bytes[0] < 0x80 ==> {
            &&& is_complete(bytes) <==> bytes.len() >= 2
            &&& is_complete(bytes) ==> front_value(bytes) == (bytes[0] - 0x40) * 0x100 + bytes[1]
            &&& behind_front(bytes) == bytes.skip(2)
        },
        0x80 <= bytes[0] < 0xc0 ==> {
            &&& is_complete(bytes) <==> bytes.len() >= 4
            &&& is_complete(bytes) ==> front_value(bytes) == (bytes[0] - 0x80) * 0x100_0000
                + bytes[1] * 0x1_0000 + bytes[2] * 0x100 + bytes[3]
            &&& behind_front(bytes) == bytes.skip(4)
        },
        0xc0 <= bytes[0] ==> {
            &&& is_complete(bytes) <==> bytes.len() >= 8
            &&& is_complete(bytes) ==> front_value(bytes) == (bytes[0] - 0xc0)
                * 0x100_0000_0000_0000 + bytes[1] * 0x1_0000_0000_0000 + bytes[2]
                * 0x100_0000_0000 + bytes[3] * 0x1_0000_0000 + bytes[4] * 0x100_0000 + bytes[5]
                * 0x1_0000 + bytes[6] * 0x100 + bytes[7]
            &&& behind_front(bytes) == bytes.skip(8)
        },
{
    if is_complete(bytes) {
        let count = len_from_first(bytes[0]) as int;
        let front = bytes.take(count);
        assert(front[0] == bytes[0]);
        reveal_with_fuel(big_endian, 3);
        if count == 1 {
            assert(front.drop_last() =~= Seq::<u8>::empty());
        } else {
            let two = front.take(2);
            assert(two.drop_last() =~= seq![front[0]]);
            assert(two.drop_last().drop_last() =~= Seq::<u8>::empty());
            if count == 2 {
                assert(front =~= two);
            } else {
                pair_number(front, 2);
                if count == 4 {
                    assert(front.take(4) =~= front);
                } else {
                    pair_number(front, 4);
                    pair_number(front, 6);
                    assert(front.take(8) =~= front);
                }
            }
        }
    }
}

proof fn pair_number(bytes: Seq<u8>, count: int)
    requires
        0 <= count,
        count + 2 <= bytes.len(),
    ensures
        big_endian(bytes.take(count + 2)) == big_endian(bytes.take(count)) * 0x1_0000
            + bytes[count] * 0x100 + bytes[count + 1],
{
    let pair = seq![bytes[count], bytes[count + 1]];
    assert(bytes.take(count + 2) =~= bytes.take(count) + pair);
    big_endian_concat(bytes.take(count), pair);
    reveal_with_fuel(big_endian, 3);
    assert(pair.drop_last() =~= seq![bytes[count]]);
    assert(pair.drop_last().drop_last() =~= Seq::<u8>::empty());
}

/// The bytes of an encoding: one, two, four or eight, as few as hold the value
/// beside two bits, the most significant first. The two highest bits give their
/// number. Of a value of more than 62 bits the low 62 are there.
pub proof fn encoding_bytes(value: u64)
    ensures
        ({
            let bytes = encoding(value);
            &&& value < 0x40 ==> bytes == seq![value as u8]
            &&& 0x40 <= value < 0x4000 ==> {
                &&& bytes.len() == 2
                &&& bytes[0] >= 0x40
                &&& (bytes[0] - 0x40) * 0x100 + bytes[1] == value
            }
            &&& 0x4000 <= value < 0x4000_0000 ==> {
                &&& bytes.len() == 4
                &&& bytes[0] >= 0x80
                &&& (bytes[0] - 0x80) * 0x100_0000 + bytes[1] * 0x1_0000 + bytes[2] * 0x100
                    + bytes[3] == value
            }
            &&& 0x4000_0000 <= value ==> {
                &&& bytes.len() == 8
                &&& bytes[0] >= 0xc0
                &&& (bytes[0] - 0xc0) * 0x100_0000_0000_0000 + bytes[1] * 0x1_0000_0000_0000
                    + bytes[2] * 0x100_0000_0000 + bytes[3] * 0x1_0000_0000 + bytes[4]
                    * 0x100_0000 + bytes[5] * 0x1_0000 + bytes[6] * 0x100 + bytes[7] == value
                    % 0x4000_0000_0000_0000
            }
        }),
{
    encoding_round_trip(value, Seq::empty());
    assert(encoding(value) + Seq::<u8>::empty() =~= encoding(value));
    front_bytes(encoding(value));
}

/// No encoding is complete where there are no bytes.
pub proof fn nothing_is_incomplete()
    ensures
        !is_complete(Seq::<u8>::empty()),
{
}

} // verus!
