//! The wire unit: an identifier of fixed width, then the payload's bytes.
//!
//! A frame says nothing of how it travels. A transport moves frames without
//! reading them; only the registry of the receiver gives the bytes a meaning.

use crate::message::MessagePayload;
use crate::registration::RegistrationId;
use vstd::prelude::*;

verus! {

/// The number of bytes that the identifier takes at the start of a frame.
pub const FRAME_HEADER_LEN: usize = 8;

/// The `count` lowest bytes of `value`, least significant first.
pub open spec fn low_bytes(value: nat, count: nat) -> Seq<u8>
    decreases count,
{
    if count == 0 {
        Seq::empty()
    } else {
        seq![(value % 256) as u8] + low_bytes(value / 256, (count - 1) as nat)
    }
}

/// The number that `bytes` stand for, least significant first.
pub open spec fn value_of(bytes: Seq<u8>) -> nat
    decreases bytes.len(),
{
    if bytes.len() == 0 {
        0
    } else {
        (bytes[0] as nat) + 256 * value_of(bytes.drop_first())
    }
}

/// 256 to the power of `exponent`.
pub open spec fn pow256(exponent: nat) -> nat
    decreases exponent,
{
    if exponent == 0 {
        1
    } else {
        256 * pow256((exponent - 1) as nat)
    }
}

/// The frame of a payload for the type with identifier `reg_id`.
pub open spec fn frame_of(reg_id: nat, payload: Seq<u8>) -> Seq<u8> {
    low_bytes(reg_id, 8) + payload
}

/// What a frame holds: the identifier and the payload; `None` for bytes that
/// are too few to hold an identifier.
pub open spec fn frame_parts(frame: Seq<u8>) -> Option<(nat, Seq<u8>)> {
    if frame.len() < 8 {
        None
    } else {
        Some((value_of(frame.subrange(0, 8)), frame.subrange(8, frame.len() as int)))
    }
}

/// As many bytes as asked for are made.
pub proof fn lemma_low_bytes_len(value: nat, count: nat)
    ensures
        low_bytes(value, count).len() == count,
    decreases count,
{
    if count > 0 {
        lemma_low_bytes_len(value / 256, (count - 1) as nat);
    }
}

/// Bytes stand for the number they were made of, if the number fits in them.
pub proof fn lemma_low_bytes_round_trip(value: nat, count: nat)
    requires
        value < pow256(count),
    ensures
        value_of(low_bytes(value, count)) == value,
    decreases count,
{
    if count > 0 {
        let rest = low_bytes(value / 256, (count - 1) as nat);
        lemma_low_bytes_round_trip(value / 256, (count - 1) as nat);
        assert(low_bytes(value, count).drop_first() =~= rest);
        assert(low_bytes(value, count)[0] == (value % 256) as u8);
    }
}

/// Bytes stand for a number below 256 to the power of their count.
pub proof fn lemma_value_of_bound(bytes: Seq<u8>)
    ensures
        value_of(bytes) < pow256(bytes.len()),
    decreases bytes.len(),
{
    if bytes.len() > 0 {
        lemma_value_of_bound(bytes.drop_first());
    }
}

/// Eight bytes hold every number of 64 bits.
pub proof fn lemma_pow256_eight()
    ensures
        pow256(8) == 0x1_0000_0000_0000_0000,
{
    reveal_with_fuel(pow256, 9);
}

/// A frame holds what it was made of: the identifier and the payload come
/// back from the frame unchanged.
pub proof fn lemma_frame_round_trip(reg_id: nat, payload: Seq<u8>)
    requires
        reg_id <= u64::MAX,
    ensures
        frame_parts(frame_of(reg_id, payload)) == Some((reg_id, payload)),
{
    let frame = frame_of(reg_id, payload);
    lemma_low_bytes_len(reg_id, 8);
    assert(frame.subrange(0, 8) =~= low_bytes(reg_id, 8));
    assert(frame.subrange(8, frame.len() as int) =~= payload);
    lemma_pow256_eight();
    lemma_low_bytes_round_trip(reg_id, 8);
}

/// Makes the frame of `payload` for the type with identifier `reg_id`.
pub fn encode_frame(reg_id: RegistrationId, payload: &MessagePayload) -> (frame: Vec<u8>)
    ensures
        frame@ == frame_of(reg_id@, payload@),
        frame_parts(frame@) == Some((reg_id@, payload@)),
{
    let mut frame: Vec<u8> = Vec::new();
    let mut rest: u64 = reg_id.inner() as u64;
    let mut place: usize = 0;
    assert(frame@ + low_bytes(rest as nat, 8) =~= low_bytes(reg_id@, 8));
    while place < FRAME_HEADER_LEN
        invariant
            place <= 8,
            frame@ + low_bytes(rest as nat, (8 - place) as nat) == low_bytes(reg_id@, 8),
        decreases 8 - place,
    {
        let ghost before = frame@;
        frame.push((rest % 256) as u8);
        assert(frame@ + low_bytes((rest / 256) as nat, (8 - place - 1) as nat) =~= before
            + low_bytes(rest as nat, (8 - place) as nat));
        rest = rest / 256;
        place += 1;
    }
    assert(frame@ =~= low_bytes(reg_id@, 8));
    let bytes = payload.as_bytes();
    let mut i: usize = 0;
    assert(frame@ =~= low_bytes(reg_id@, 8) + payload@.take(0));
    while i < bytes.len()
        invariant
            i <= bytes@.len(),
            bytes@ == payload@,
            frame@ == low_bytes(reg_id@, 8) + payload@.take(i as int),
        decreases bytes@.len() - i,
    {
        frame.push(bytes[i]);
        assert(payload@.take(i + 1) =~= payload@.take(i as int).push(payload@[i as int]));
        assert(frame@ =~= low_bytes(reg_id@, 8) + payload@.take(i + 1));
        i += 1;
    }
    assert(payload@.take(bytes@.len() as int) =~= payload@);
    proof {
        lemma_frame_round_trip(reg_id@, payload@);
    }
    frame
}

/// Takes a frame apart; `None` for bytes that are too few to hold an
/// identifier, or whose identifier is beyond what this machine can count.
pub fn decode_frame(frame: &Vec<u8>) -> (parts: Option<(RegistrationId, MessagePayload)>)
    ensures
        match parts {
            Some((reg_id, payload)) => frame_parts(frame@) == Some((reg_id@, payload@)),
            None => frame_parts(frame@) matches Some((reg_id, _)) ==> reg_id > usize::MAX,
        },
{
    if frame.len() < FRAME_HEADER_LEN {
        return None;
    }
    let ghost header = frame@.subrange(0, 8);
    let mut id: u64 = 0;
    let mut place: usize = 8;
    assert(header.subrange(8, 8) =~= Seq::<u8>::empty());
    while place > 0
        invariant
            place <= 8,
            frame@.len() >= 8,
            header == frame@.subrange(0, 8),
            id == value_of(header.subrange(place as int, 8)),
        decreases place,
    {
        proof {
            lemma_value_of_bound(header.subrange(place as int, 8));
            reveal_with_fuel(pow256, 9);
            assert(header.subrange(place - 1, 8).drop_first() =~= header.subrange(place as int, 8));
            assert(header.subrange(place - 1, 8)[0] == frame@[place - 1]);
            assert(pow256((8 - place) as nat) <= pow256(7));
        }
        place -= 1;
        id = id * 256 + frame[place] as u64;
    }
    assert(header.subrange(0, 8) =~= header);
    if id > usize::MAX as u64 {
        return None;
    }
    let mut bytes: Vec<u8> = Vec::new();
    let mut i: usize = 8;
    assert(bytes@ =~= frame@.subrange(8, 8));
    while i < frame.len()
        invariant
            8 <= i <= frame@.len(),
            bytes@ == frame@.subrange(8, i as int),
        decreases frame@.len() - i,
    {
        bytes.push(frame[i]);
        assert(frame@.subrange(8, i + 1) =~= frame@.subrange(8, i as int).push(frame@[i as int]));
        i += 1;
    }
    Some((RegistrationId::new_with(id as usize), MessagePayload::new(bytes)))
}

} // verus!
