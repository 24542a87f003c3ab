//! The frame that carries one pair to the remote service.
//!
//! A frame is sixteen bytes: the bit pattern of `x`, most significant byte
//! first, followed by that of `y` in the same form. A frame is written whole
//! or the attempt counts as failed; a receiver reads exactly one frame per
//! connection.

use vstd::prelude::*;
use crate::value::ValuePair;

verus! {

/// Length of one encoded number.
pub const FIELD_LEN: usize = 8;

/// Length of one frame.
pub const FRAME_LEN: usize = 16;

/// Why a byte string is no frame.
#[derive(Clone, Copy, Debug, PartialEq, Eq, Structural)]
pub enum FrameError {
    /// The byte string does not have the length of a frame.
    WrongLength,
}

/// Byte `i` of `bits`, counted from the most significant one.
pub open spec fn byte_of(bits: u64, i: int) -> u8 {
    ((bits >> ((8 * (7 - i)) as u64)) & 0xff) as u8
}

/// The eight bytes of `bits`, most significant first.
pub open spec fn field_bytes(bits: u64) -> Seq<u8> {
    Seq::new(8, |i: int| byte_of(bits, i))
}

/// The number whose eight bytes, most significant first, are `b0` to `b7`.
pub open spec fn bits_of(b0: u8, b1: u8, b2: u8, b3: u8, b4: u8, b5: u8, b6: u8, b7: u8) -> u64 {
    (b0 as u64) << 56 | (b1 as u64) << 48 | (b2 as u64) << 40 | (b3 as u64) << 32
        | (b4 as u64) << 24 | (b5 as u64) << 16 | (b6 as u64) << 8 | (b7 as u64)
}

/// The number encoded in the eight bytes of `bytes` that start at `at`.
pub open spec fn field_value(bytes: Seq<u8>, at: int) -> u64 {
    bits_of(
        bytes[at],
        bytes[at + 1],
        bytes[at + 2],
        bytes[at + 3],
        bytes[at + 4],
        bytes[at + 5],
        bytes[at + 6],
        bytes[at + 7],
    )
}

/// The frame of `pair`: `x` in the first eight bytes, `y` in the last eight.
pub open spec fn frame_of(pair: ValuePair) -> Seq<u8> {
    field_bytes(pair.x_bits) + field_bytes(pair.y_bits)
}

/// The pair that a byte string carries, if it is a frame.
pub open spec fn pair_of(bytes: Seq<u8>) -> Option<ValuePair> {
    if bytes.len() == 16 {
        Some(ValuePair { x_bits: field_value(bytes, 0), y_bits: field_value(bytes, 8) })
    } else {
        None
    }
}

/// Splitting a number into bytes and joining them gives the number back.
pub proof fn lemma_join_split(bits: u64)
    ensures
        bits_of(
            byte_of(bits, 0),
            byte_of(bits, 1),
            byte_of(bits, 2),
            byte_of(bits, 3),
            byte_of(bits, 4),
            byte_of(bits, 5),
            byte_of(bits, 6),
            byte_of(bits, 7),
        ) == bits,
{
    assert(((((bits >> 56u64) & 0xff) as u8) as u64) << 56 | ((((bits >> 48u64) & 0xff) as u8)
        as u64) << 48 | ((((bits >> 40u64) & 0xff) as u8) as u64) << 40 | ((((bits >> 32u64)
        & 0xff) as u8) as u64) << 32 | ((((bits >> 24u64) & 0xff) as u8) as u64) << 24 | ((((bits
        >> 16u64) & 0xff) as u8) as u64) << 16 | ((((bits >> 8u64) & 0xff) as u8) as u64) << 8
        | ((((bits >> 0u64) & 0xff) as u8) as u64) == bits) by (bit_vector);
}

/// Joining eight bytes and splitting the number gives the bytes back.
pub proof fn lemma_split_join(b0: u8, b1: u8, b2: u8, b3: u8, b4: u8, b5: u8, b6: u8, b7: u8)
    ensures
        ({
            let bits = bits_of(b0, b1, b2, b3, b4, b5, b6, b7);
            &&& byte_of(bits, 0) == b0
            &&& byte_of(bits, 1) == b1
            &&& byte_of(bits, 2) == b2
            &&& byte_of(bits, 3) == b3
            &&& byte_of(bits, 4) == b4
            &&& byte_of(bits, 5) == b5
            &&& byte_of(bits, 6) == b6
            &&& byte_of(bits, 7) == b7
        }),
{
    let bits = bits_of(b0, b1, b2, b3, b4, b5, b6, b7);
    assert(bits == (b0 as u64) << 56 | (b1 as u64) << 48 | (b2 as u64) << 40 | (b3 as u64) << 32
        | (b4 as u64) << 24 | (b5 as u64) << 16 | (b6 as u64) << 8 | (b7 as u64));
    assert(((bits >> 56u64) & 0xff) as u8 == b0 && ((bits >> 48u64) & 0xff) as u8 == b1 && ((bits
        >> 40u64) & 0xff) as u8 == b2 && ((bits >> 32u64) & 0xff) as u8 == b3 && ((bits >> 24u64)
        & 0xff) as u8 == b4 && ((bits >> 16u64) & 0xff) as u8 == b5 && ((bits >> 8u64) & 0xff) as u8
        == b6 && ((bits >> 0u64) & 0xff) as u8 == b7) by (bit_vector)
        requires
            bits == (b0 as u64) << 56 | (b1 as u64) << 48 | (b2 as u64) << 40 | (b3 as u64) << 32
                | (b4 as u64) << 24 | (b5 as u64) << 16 | (b6 as u64) << 8 | (b7 as u64),
    ;
}

/// A frame decodes to the pair it was made from.
pub proof fn law_decode_inverts_encode(pair: ValuePair)
    ensures
        frame_of(pair).len() == FRAME_LEN,
        pair_of(frame_of(pair)) == Some(pair),
{
    let frame = frame_of(pair);
    lemma_join_split(pair.x_bits);
    lemma_join_split(pair.y_bits);
    assert forall|i: int| 0 <= i < 8 implies frame[i] == byte_of(pair.x_bits, i) && frame[8 + i]
        == byte_of(pair.y_bits, i) by {}
    assert(field_value(frame, 0) == pair.x_bits);
    assert(field_value(frame, 8) == pair.y_bits);
}

/// Every byte string of frame length is the frame of the pair it decodes to:
/// no two byte strings carry the same pair.
pub proof fn law_encode_inverts_decode(bytes: Seq<u8>)
    requires
        bytes.len() == FRAME_LEN,
    ensures
        pair_of(bytes) is Some,
        frame_of(pair_of(bytes).unwrap()) == bytes,
{
    let pair = pair_of(bytes).unwrap();
    lemma_split_join(
        bytes[0],
        bytes[1],
        bytes[2],
        bytes[3],
        bytes[4],
        bytes[5],
        bytes[6],
        bytes[7],
    );
    lemma_split_join(
        bytes[8],
        bytes[9],
        bytes[10],
        bytes[11],
        bytes[12],
        bytes[13],
        bytes[14],
        bytes[15],
    );
    let frame = frame_of(pair);
    assert forall|i: int| 0 <= i < 16 implies frame[i] == bytes[i] by {
        if i < 8 {
            assert(frame[i] == byte_of(pair.x_bits, i));
        } else {
            assert(frame[i] == byte_of(pair.y_bits, i - 8));
        }
    }
    assert(frame =~= bytes);
}

/// Two pairs with the same frame are the same pair.
pub proof fn law_frames_tell_pairs_apart(a: ValuePair, b: ValuePair)
    requires
        frame_of(a) == frame_of(b),
    ensures
        a == b,
{
    law_decode_inverts_encode(a);
    law_decode_inverts_encode(b);
}

/// Appends the eight bytes of `bits`, most significant first.
fn put_field(out: &mut Vec<u8>, bits: u64)
    ensures
        final(out)@ == old(out)@ + field_bytes(bits),
{
    let mut i: usize = 0;
    while i < 8
        invariant
            i <= 8,
            out@.len() == old(out)@.len() + i,
            out@ == old(out)@ + field_bytes(bits).take(i as int),
        decreases 8 - i,
    {
        let shift: u64 = (8 * (7 - i)) as u64;
        let byte: u8 = ((bits >> shift) & 0xff) as u8;
        out.push(byte);
        i += 1;
        assert(field_bytes(bits).take(i as int) =~= field_bytes(bits).take(i - 1).push(
            byte_of(bits, i - 1),
        ));
    }
    assert(field_bytes(bits).take(8) =~= field_bytes(bits));
}

/// Reads the eight bytes of `bytes` that start at `at` as one number.
fn get_field(bytes: &[u8], at: usize) -> (bits: u64)
    requires
        at + 8 <= bytes@.len(),
    ensures
        bits == field_value(bytes@, at as int),
{
    (bytes[at] as u64) << 56 | (bytes[at + 1] as u64) << 48 | (bytes[at + 2] as u64) << 40 | (
    bytes[at + 3] as u64) << 32 | (bytes[at + 4] as u64) << 24 | (bytes[at + 5] as u64) << 16 | (
    bytes[at + 6] as u64) << 8 | (bytes[at + 7] as u64)
}

/// Encodes `pair` as one frame.
pub fn encode(pair: ValuePair) -> (frame: Vec<u8>)
    ensures
        frame@ == frame_of(pair),
        frame@.len() == FRAME_LEN,
{
    let mut frame: Vec<u8> = Vec::with_capacity(FRAME_LEN);
    put_field(&mut frame, pair.x_bits);
    put_field(&mut frame, pair.y_bits);
    assert(frame@ =~= frame_of(pair));
    frame
}

/// Decodes one frame. A byte string of any other length is refused.
pub fn decode(bytes: &[u8]) -> (decoded: Result<ValuePair, FrameError>)
    ensures
        decoded is Ok <==> bytes@.len() == FRAME_LEN,
        decoded is Err ==> decoded == Err::<ValuePair, FrameError>(FrameError::WrongLength),
        decoded is Ok ==> Some(decoded.unwrap()) == pair_of(bytes@),
        decoded is Ok ==> frame_of(decoded.unwrap()) == bytes@,
{
    if bytes.len() != FRAME_LEN {
        return Err(FrameError::WrongLength);
    }
    let x_bits = get_field(bytes, 0);
    let y_bits = get_field(bytes, FIELD_LEN);
    proof {
        law_encode_inverts_decode(bytes@);
    }
    Ok(ValuePair { x_bits, y_bits })
}

} // verus!
