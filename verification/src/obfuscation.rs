use vstd::prelude::*;

use crate::bytes::{append_bytes, be32_bytes, be32_decode, be32_encode, be32_value,
    lemma_be32_round_trip};
use crate::errors::CryptoError;
use crate::rng::{random_bytes, random_u32};

verus! {

/// The smallest number of random padding bytes appended to a frame.
pub const MIN_PADDING: u32 = 16;

/// The largest number of random padding bytes appended to a frame.
pub const MAX_PADDING: u32 = 79;

/// The keystream byte that position `i` of a frame is XORed with.
pub open spec fn keystream_byte(i: int) -> u8 {
    0x5Au8 ^ ((i % 256) as u8)
}

/// `s` with every byte XORed against the position-dependent keystream.
pub open spec fn mask_bytes(s: Seq<u8>) -> Seq<u8> {
    Seq::new(s.len(), |i: int| s[i] ^ keystream_byte(i))
}

/// The clear frame for `data` padded with `pad`, after masking: a four-byte
/// big-endian length prefix, the payload, and the padding, XORed with the
/// keystream.
pub open spec fn frame_bytes(data: Seq<u8>, pad: Seq<u8>) -> Seq<u8> {
    mask_bytes(be32_bytes(data.len() as u32) + data + pad)
}

/// What deobfuscation returns on a frame: unmask it, read the declared
/// length, and return exactly that many payload bytes; reject a frame whose
/// header is missing or whose declared length exceeds the bytes present.
pub open spec fn deobfuscate_spec(frame: Seq<u8>) -> Result<Seq<u8>, CryptoError> {
    let clear = mask_bytes(frame);
    if clear.len() < 4 {
        Err(CryptoError::InvalidInputLength)
    } else {
        let declared = be32_value(clear[0], clear[1], clear[2], clear[3]) as int;
        if clear.len() < 4 + declared {
            Err(CryptoError::TruncatedFrame)
        } else {
            Ok(clear.subrange(4, 4 + declared))
        }
    }
}

/// Masking is an involution: applying the keystream twice gives the original
/// bytes back.
pub proof fn lemma_mask_involutive(s: Seq<u8>)
    ensures
        mask_bytes(mask_bytes(s)) == s,
{
    assert forall|i: int| 0 <= i < s.len() implies mask_bytes(mask_bytes(s))[i] == s[i] by {
        let b = s[i];
        let k = keystream_byte(i);
        assert((b ^ k) ^ k == b) by (bit_vector);
    }
    assert(mask_bytes(mask_bytes(s)) =~= s);
}

/// Deobfuscation inverts obfuscation: for every payload and every padding,
/// whatever its length, the frame built for the payload deobfuscates to
/// exactly that payload.
pub proof fn lemma_obfuscate_round_trip(data: Seq<u8>, pad: Seq<u8>)
    requires
        data.len() <= u32::MAX,
    ensures
        deobfuscate_spec(frame_bytes(data, pad)) == Ok::<Seq<u8>, CryptoError>(data),
{
    let n32 = data.len() as u32;
    let clear = be32_bytes(n32) + data + pad;
    lemma_mask_involutive(clear);
    assert(mask_bytes(frame_bytes(data, pad)) == clear);
    assert(clear.len() == 4 + data.len() + pad.len());
    lemma_be32_round_trip(n32);
    assert(clear[0] == be32_bytes(n32)[0]);
    assert(clear[1] == be32_bytes(n32)[1]);
    assert(clear[2] == be32_bytes(n32)[2]);
    assert(clear[3] == be32_bytes(n32)[3]);
    assert(be32_value(clear[0], clear[1], clear[2], clear[3]) == n32);
    assert(clear.subrange(4, 4 + data.len() as int) =~= data);
}

/// Frames `data` for the wire: a four-byte big-endian length prefix, the
/// payload, and 16 to 79 random padding bytes, the whole frame XORed with the
/// position-dependent keystream. The result always deobfuscates back to
/// `data`.
pub fn obfuscate(data: &Vec<u8>) -> (r: Vec<u8>)
    requires
        data@.len() <= u32::MAX,
    ensures
        exists|pad: Seq<u8>|
            MIN_PADDING <= pad.len() <= MAX_PADDING && r@ == frame_bytes(data@, pad),
        deobfuscate_spec(r@) == Ok::<Seq<u8>, CryptoError>(data@),
{
    let draw: u32 = random_u32();
    let pad_len: u32 = draw % 64 + MIN_PADDING;
    let padding: Vec<u8> = random_bytes(pad_len as usize);
    let mut clear: Vec<u8> = be32_encode(data.len() as u32);
    append_bytes(&mut clear, data.as_slice());
    append_bytes(&mut clear, padding.as_slice());
    let r = mask_vec(&clear);
    proof {
        assert(clear@ == be32_bytes(data@.len() as u32) + data@ + padding@);
        assert(r@ == frame_bytes(data@, padding@));
        lemma_obfuscate_round_trip(data@, padding@);
    }
    r
}

/// Reverses `obfuscate`: unmasks the frame, reads the declared length, and
/// returns exactly that many payload bytes, discarding the padding. Fails
/// with `InvalidInputLength` when the frame has no complete header and with
/// `TruncatedFrame` when the declared length exceeds the bytes present.
pub fn deobfuscate(frame: &Vec<u8>) -> (r: Result<Vec<u8>, CryptoError>)
    ensures
        match r {
            Ok(d) => deobfuscate_spec(frame@) == Ok::<Seq<u8>, CryptoError>(d@),
            Err(e) => deobfuscate_spec(frame@) == Err::<Seq<u8>, CryptoError>(e),
        },
{
    let clear = mask_vec(frame);
    if clear.len() < 4 {
        return Err(CryptoError::InvalidInputLength);
    }
    let declared: u32 = be32_decode(clear[0], clear[1], clear[2], clear[3]);
    let declared_len: usize = declared as usize;
    if clear.len() - 4 < declared_len {
        return Err(CryptoError::TruncatedFrame);
    }
    let mut out: Vec<u8> = Vec::new();
    let mut i: usize = 0;
    while i < declared_len
        invariant
            i <= declared_len,
            declared_len + 4 <= clear@.len(),
            clear@.len() <= usize::MAX,
            out@ == clear@.subrange(4, 4 + i as int),
        decreases declared_len - i,
    {
        out.push(clear[4 + i]);
        proof {
            assert(clear@.subrange(4, 4 + (i + 1) as int)
                =~= clear@.subrange(4, 4 + i as int).push(clear@[4 + i as int]));
        }
        i = i + 1;
    }
    Ok(out)
}

/// XORs every byte with the position-dependent keystream, returning a fresh
/// buffer.
fn mask_vec(data: &Vec<u8>) -> (r: Vec<u8>)
    ensures
        r@ == mask_bytes(data@),
{
    let mut out: Vec<u8> = Vec::new();
    let mut i: usize = 0;
    while i < data.len()
        invariant
            i <= data@.len(),
            out@.len() == i,
            forall|j: int| 0 <= j < i ==> #[trigger] out@[j] == data@[j] ^ keystream_byte(j),
        decreases data@.len() - i,
    {
        let k: u8 = 0x5Au8 ^ ((i % 256) as u8);
        out.push(data[i] ^ k);
        i = i + 1;
    }
    proof {
        assert(out@ =~= mask_bytes(data@));
    }
    out
}

} // verus!
