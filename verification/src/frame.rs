//! The upload frame and its chunks.
//!
//! A frame is the payload, one zero byte of padding where the payload length
//! is 4095 modulo 4096, and a big-endian CRC-16/IBM-3740 over both. The frame
//! travels in chunks of 4096 bytes; the last chunk is shorter, or a lone zero
//! byte where the frame fills its chunks exactly.

use vstd::prelude::*;
use vstd::slice::slice_subrange;
use crate::endian::{be16, push_be16};

verus! {

/// Length of every chunk but the last.
pub const CHUNK_SIZE: usize = 4096;

/// The CRC-16/IBM-3740 checksum of `data`: polynomial 0x1021, initial value
/// 0xffff, no reflection, no final xor.
pub uninterp spec fn crc16_ibm_3740(data: Seq<u8>) -> u16;

/// Calls `crc::Crc::<u16>::checksum` with the catalog entry
/// `crc::CRC_16_IBM_3740`. The contract names what that call returns and
/// claims that it depends on the bytes alone; nothing is proved of the value.
#[verifier::external_body]
fn checksum(data: &[u8]) -> (sum: u16)
    ensures
        sum == crc16_ibm_3740(data@),
{
    crc::Crc::<u16>::new(&crc::CRC_16_IBM_3740).checksum(data)
}

/// Whether a payload of `len` bytes gets a byte of padding.
pub open spec fn needs_padding(len: nat) -> bool {
    len % 4096 == 4095
}

/// The payload with its padding.
pub open spec fn padded(payload: Seq<u8>) -> Seq<u8> {
    if needs_padding(payload.len()) {
        payload.push(0u8)
    } else {
        payload
    }
}

/// `body` followed by the two bytes of `sum`, most significant first.
pub open spec fn sealed(body: Seq<u8>, sum: u16) -> Seq<u8> {
    body + be16(sum)
}

/// The frame for `payload`.
pub open spec fn frame_of(payload: Seq<u8>) -> Seq<u8> {
    sealed(padded(payload), crc16_ibm_3740(padded(payload)))
}

/// Copies the payload and pads it.
pub fn pad(payload: &[u8]) -> (body: Vec<u8>)
    ensures
        body@ == padded(payload@),
{
    let mut body: Vec<u8> = Vec::new();
    body.extend_from_slice(payload);
    assert(body@ =~= payload@);
    if payload.len() % CHUNK_SIZE == 4095 {
        body.push(0);
    }
    body
}

/// Appends the checksum `sum` to `body`, big-endian.
pub fn seal(body: Vec<u8>, sum: u16) -> (frame: Vec<u8>)
    ensures
        frame@ == sealed(body@, sum),
{
    let mut frame = body;
    push_be16(&mut frame, sum);
    frame
}

/// Builds the frame for `payload`: pads it, computes the checksum over the
/// padded bytes and appends it.
pub fn build_frame(payload: &[u8]) -> (frame: Vec<u8>)
    ensures
        frame@ == frame_of(payload@),
{
    let body = pad(payload);
    let sum = checksum(body.as_slice());
    seal(body, sum)
}

/// The number of chunks that carry a frame of `len` bytes: the full chunks
/// and one more, which is the rest of the frame or the terminator.
pub open spec fn chunk_count(len: nat) -> nat {
    len / 4096 + 1
}

/// Chunk number `i` of `frame`: the bytes from offset `4096 * i` on, at most
/// 4096 of them; where no byte is left, the terminator, a lone zero byte.
pub open spec fn chunk_at(frame: Seq<u8>, i: int) -> Seq<u8> {
    if 4096 * i + 4096 <= frame.len() {
        frame.subrange(4096 * i, 4096 * i + 4096)
    } else if 4096 * i < frame.len() {
        frame.subrange(4096 * i, frame.len() as int)
    } else {
        seq![0u8]
    }
}

/// The chunks of `frame`, in the order in which they are sent.
pub open spec fn chunks(frame: Seq<u8>) -> Seq<Seq<u8>> {
    Seq::new(chunk_count(frame.len()), |i: int| chunk_at(frame, i))
}

/// The number of chunks that carry `frame`.
pub fn count_chunks(frame: &[u8]) -> (count: usize)
    ensures
        count == chunk_count(frame@.len()),
{
    frame.len() / CHUNK_SIZE + 1
}

/// Copies chunk number `i` out of `frame`.
pub fn chunk(frame: &[u8], i: usize) -> (piece: Vec<u8>)
    ensures
        piece@ == chunk_at(frame@, i as int),
{
    let full = frame.len() / CHUNK_SIZE;
    let mut piece: Vec<u8> = Vec::new();
    if i < full {
        let start = i * CHUNK_SIZE;
        piece.extend_from_slice(slice_subrange(frame, start, start + CHUNK_SIZE));
        assert(piece@ =~= chunk_at(frame@, i as int));
    } else if i == full && frame.len() % CHUNK_SIZE > 0 {
        let start = i * CHUNK_SIZE;
        piece.extend_from_slice(slice_subrange(frame, start, frame.len()));
        assert(piece@ =~= chunk_at(frame@, i as int));
    } else {
        piece.push(0);
        assert(piece@ =~= chunk_at(frame@, i as int));
    }
    piece
}

/// The padded payload never has a length of 4095 modulo 4096, and it is the
/// payload itself unless the payload has such a length.
pub proof fn lemma_padding(payload: Seq<u8>)
    ensures
        padded(payload).len() % 4096 != 4095,
        needs_padding(payload.len()) <==> padded(payload) != payload,
        needs_padding(payload.len()) ==> padded(payload) == payload + seq![0u8],
        padded(payload).subrange(0, payload.len() as int) == payload,
{
    if needs_padding(payload.len()) {
        assert(padded(payload).len() == payload.len() + 1);
        assert(payload.push(0u8) =~= payload + seq![0u8]);
    }
    assert(padded(payload).subrange(0, payload.len() as int) =~= payload);
}

/// The frame ends with the checksum of the padded payload, most significant
/// byte first, and the two checksum bytes travel in one chunk: the last that
/// holds frame bytes.
pub proof fn lemma_checksum_in_one_chunk(payload: Seq<u8>)
    ensures
        ({
            let frame = frame_of(payload);
            let sum = crc16_ibm_3740(padded(payload));
            let last = (frame.len() - 1) / 4096;
            let piece = chunk_at(frame, last);
            &&& frame.len() == padded(payload).len() + 2
            &&& frame.subrange(0, frame.len() - 2) == padded(payload)
            &&& frame[frame.len() - 2] == (sum / 256) as u8
            &&& frame[frame.len() - 1] == (sum % 256) as u8
            &&& frame.len() % 4096 != 1
            &&& piece.len() >= 2
            &&& piece.subrange(piece.len() - 2, piece.len() as int) == be16(sum)
        }),
{
    let frame = frame_of(payload);
    let sum = crc16_ibm_3740(padded(payload));
    let last = (frame.len() - 1) / 4096;
    let piece = chunk_at(frame, last);
    lemma_padding(payload);
    assert(frame.subrange(0, frame.len() - 2) =~= padded(payload));
    assert(piece.subrange(piece.len() - 2, piece.len() as int) =~= be16(sum));
}

/// Every chunk before the last is 4096 bytes long. The last is the rest of
/// the frame, between 1 and 4095 bytes, or the one-byte terminator where the
/// frame length is a multiple of 4096.
pub proof fn lemma_chunk_lengths(frame: Seq<u8>, i: int)
    requires
        0 <= i < chunk_count(frame.len()),
    ensures
        i + 1 < chunk_count(frame.len()) ==> chunk_at(frame, i).len() == 4096,
        i + 1 == chunk_count(frame.len()) && frame.len() % 4096 > 0 ==> chunk_at(frame, i).len()
            == frame.len() % 4096,
        i + 1 == chunk_count(frame.len()) && frame.len() % 4096 == 0 ==> chunk_at(frame, i)
            == seq![0u8],
        1 <= chunk_at(frame, i).len() <= 4096,
{
}

/// The first `n` chunks, joined, are the first `4096 * n` bytes of the frame.
proof fn lemma_full_chunks_join(frame: Seq<u8>, n: nat)
    requires
        n <= frame.len() / 4096,
    ensures
        chunks(frame).take(n as int).flatten() == frame.subrange(0, 4096 * (n as int)),
    decreases n,
{
    let all = chunks(frame);
    if n == 0 {
        assert(all.take(0) =~= Seq::<Seq<u8>>::empty());
        assert(all.take(0).flatten() =~= frame.subrange(0, 0));
    } else {
        let m = (n - 1) as nat;
        lemma_full_chunks_join(frame, m);
        assert(all.take(n as int) =~= all.take(m as int).push(all[m as int]));
        all.take(m as int).lemma_flatten_push(all[m as int]);
        assert(frame.subrange(0, 4096 * (m as int)) + chunk_at(frame, m as int) =~= frame.subrange(0, 4096 * (n as int)));
    }
}

/// The chunks, joined in order, are the frame; where the frame length is a
/// multiple of 4096, they are the frame and the terminator.
pub proof fn lemma_chunks_join(frame: Seq<u8>)
    ensures
        chunks(frame).len() == frame.len() / 4096 + 1,
        frame.len() % 4096 > 0 ==> chunks(frame).flatten() == frame,
        frame.len() % 4096 == 0 ==> chunks(frame).flatten() == frame + seq![0u8],
{
    let all = chunks(frame);
    let n = frame.len() / 4096;
    lemma_full_chunks_join(frame, n);
    assert(all =~= all.take(n as int).push(all[n as int]));
    all.take(n as int).lemma_flatten_push(all[n as int]);
    if frame.len() % 4096 > 0 {
        assert(frame.subrange(0, 4096 * (n as int)) + chunk_at(frame, n as int) =~= frame);
    } else {
        assert(frame.subrange(0, 4096 * (n as int)) =~= frame);
    }
}

} // verus!
