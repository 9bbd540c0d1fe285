use crate::errors::RithmicApiError;
use vstd::prelude::*;
use vstd::slice::slice_subrange;

verus! {

/// The width of the length header that starts every frame.
pub const HEADER_LEN: usize = 4;

/// The four bytes that announce a payload of `len` bytes, most significant
/// byte first.
pub open spec fn length_header(len: nat) -> Seq<u8> {
    seq![
        (len / 0x100_0000) as u8,
        (len / 0x1_0000 % 256) as u8,
        (len / 0x100 % 256) as u8,
        (len % 256) as u8,
    ]
}

/// The payload length that the first four bytes of `data` announce.
pub open spec fn announced_len(data: Seq<u8>) -> nat {
    (data[0] * 0x100_0000 + data[1] * 0x1_0000 + data[2] * 0x100 + data[3]) as nat
}

/// The frame that carries `payload`: its length header, then the payload.
pub open spec fn frame(payload: Seq<u8>) -> Seq<u8> {
    length_header(payload.len()) + payload
}

/// `data` holds a length header and at least as many bytes behind it as the
/// header announces.
pub open spec fn is_whole_frame(data: Seq<u8>) -> bool {
    data.len() >= HEADER_LEN && announced_len(data) <= data.len() - HEADER_LEN
}

/// The payload of a whole frame: the announced number of bytes behind the
/// header.
pub open spec fn payload(data: Seq<u8>) -> Seq<u8> {
    data.subrange(HEADER_LEN as int, HEADER_LEN + announced_len(data))
}

/// Wraps a serialized message into a frame. A payload too long for the
/// 32-bit header is refused, so the header of a frame always tells the exact
/// length of what follows.
pub fn encode_frame(payload: &[u8]) -> (r: Result<Vec<u8>, RithmicApiError>)
    ensures
        payload@.len() <= u32::MAX ==> (r matches Ok(f) && f@ == frame(payload@)),
        payload@.len() > u32::MAX ==> r matches Err(RithmicApiError::ServerErrorDebug(_)),
{
    if payload.len() > 0xFFFF_FFFF {
        return Err(
            RithmicApiError::ServerErrorDebug(
                "Failed to encode RithmicMessage: payload exceeds the frame length header".to_owned(),
            ),
        );
    }
    Ok(frame_payload(payload))
}

/// Wraps a payload that fits the length header into a frame.
pub(crate) fn frame_payload(payload: &[u8]) -> (framed: Vec<u8>)
    requires
        payload@.len() <= u32::MAX,
    ensures
        framed@ == frame(payload@),
{
    let len = payload.len();
    let mut framed: Vec<u8> = Vec::with_capacity(HEADER_LEN);
    framed.push((len / 0x100_0000) as u8);
    framed.push((len / 0x1_0000 % 256) as u8);
    framed.push((len / 0x100 % 256) as u8);
    framed.push((len % 256) as u8);
    let mut i: usize = 0;
    while i < len
        invariant
            len == payload@.len(),
            i <= len,
            framed@ == length_header(len as nat) + payload@.subrange(0, i as int),
        decreases len - i,
    {
        framed.push(payload[i]);
        i += 1;
    }
    assert(payload@.subrange(0, len as int) == payload@);
    framed
}

/// Takes the payload out of one received frame. Data that ends before the
/// header or before the announced length is a framing error; bytes behind
/// the announced length are left unread.
pub fn decode_frame(data: &[u8]) -> (r: Result<&[u8], RithmicApiError>)
    ensures
        is_whole_frame(data@) ==> (r matches Ok(p) && p@ == payload(data@)),
        !is_whole_frame(data@) ==> r matches Err(RithmicApiError::Io(_)),
{
    let len = data.len();
    if len < HEADER_LEN {
        return Err(RithmicApiError::Io("frame ends inside its length header".to_owned()));
    }
    let announced: u32 = data[0] as u32 * 0x100_0000 + data[1] as u32 * 0x1_0000 + data[2] as u32
        * 0x100 + data[3] as u32;
    if announced as u64 > (len - HEADER_LEN) as u64 {
        return Err(RithmicApiError::Io("frame ends before its announced length".to_owned()));
    }
    Ok(slice_subrange(data, HEADER_LEN, HEADER_LEN + announced as usize))
}

/// Framing round trip: a frame made from a payload is whole, announces the
/// payload's exact length, and decodes to the payload.
pub proof fn lemma_frame_round_trip(p: Seq<u8>)
    requires
        p.len() <= u32::MAX,
    ensures
        is_whole_frame(frame(p)),
        announced_len(frame(p)) == p.len(),
        frame(p).len() == HEADER_LEN + p.len(),
        payload(frame(p)) == p,
{
    let f = frame(p);
    assert(f[0] == length_header(p.len())[0]);
    assert(f[1] == length_header(p.len())[1]);
    assert(f[2] == length_header(p.len())[2]);
    assert(f[3] == length_header(p.len())[3]);
}

/// Bytes that follow a frame do not change what the frame decodes to.
pub proof fn lemma_frame_ignores_trailing_bytes(p: Seq<u8>, trailing: Seq<u8>)
    requires
        p.len() <= u32::MAX,
    ensures
        is_whole_frame(frame(p) + trailing),
        payload(frame(p) + trailing) == p,
{
    lemma_frame_round_trip(p);
    let f = frame(p) + trailing;
    assert(f[0] == frame(p)[0]);
    assert(f[1] == frame(p)[1]);
    assert(f[2] == frame(p)[2]);
    assert(f[3] == frame(p)[3]);
}

/// A frame cut short anywhere is not whole: a short read never passes for a
/// shorter or an empty message.
pub proof fn lemma_cut_frame_is_not_whole(p: Seq<u8>, kept: int)
    requires
        p.len() <= u32::MAX,
        0 <= kept < frame(p).len(),
    ensures
        !is_whole_frame(frame(p).subrange(0, kept)),
{
    lemma_frame_round_trip(p);
    let f = frame(p);
    let cut = f.subrange(0, kept);
    if kept >= HEADER_LEN {
        assert(cut[0] == f[0]);
        assert(cut[1] == f[1]);
        assert(cut[2] == f[2]);
        assert(cut[3] == f[3]);
    }
}

} // verus!
