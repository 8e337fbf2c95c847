//! ZGFX (RDP8 bulk compression) framing of outbound EGFX payloads.
//!
//! Every EGFX message sent over the graphics DVC channel must be
//! wrapped in an `RDP_SEGMENTED_DATA` envelope.  Payloads of up to
//! 65534 bytes travel as one uncompressed SINGLE segment; larger
//! payloads must be split into MULTIPART segments of at most 65534
//! data bytes each, because decoders allocate a fixed 65536-byte output
//! buffer per segment and fail on anything larger.

use vstd::prelude::*;

verus! {

/// Maximum uncompressed data bytes per ZGFX segment.  The one-byte
/// bulk-data header (`0x04`) is counted in the segment size field,
/// which leaves 65534 bytes of payload below the decoder's 65536-byte
/// per-segment buffer.
pub const ZGFX_MAX_SEGMENT_DATA: usize = 65534;

/// A 16-bit little-endian encoding of `v`.
pub open spec fn spec_le16(v: int) -> Seq<u8> {
    seq![(v % 256) as u8, ((v / 256) % 256) as u8]
}

/// A 32-bit little-endian encoding of `v`.
pub open spec fn spec_le32(v: int) -> Seq<u8> {
    seq![
        (v % 256) as u8,
        ((v / 256) % 256) as u8,
        ((v / 65536) % 256) as u8,
        ((v / 16777216) % 256) as u8,
    ]
}

/// The SINGLE-segment envelope: descriptor `0xE0`, the uncompressed
/// RDP8 bulk header `0x04`, then the payload verbatim.
pub open spec fn spec_zgfx_single(payload: Seq<u8>) -> Seq<u8> {
    seq![0xE0u8, 0x04u8] + payload
}

/// The number of MULTIPART segments for a payload of `len` bytes:
/// `ceil(len / 65534)`.
pub open spec fn spec_chunk_count(len: int) -> int {
    (len + 65533) / 65534
}

/// The concatenated MULTIPART segments of `payload`: for each chunk of
/// up to 65534 bytes, a 32-bit little-endian segment size counting the
/// bulk header byte plus the chunk, the bulk header `0x04`, then the
/// chunk itself.
pub open spec fn spec_segments(payload: Seq<u8>) -> Seq<u8>
    decreases payload.len(),
{
    if payload.len() == 0 {
        seq![]
    } else {
        let csize = if payload.len() > 65534 {
            65534int
        } else {
            payload.len() as int
        };
        spec_le32(csize + 1) + seq![0x04u8] + payload.take(csize) + spec_segments(
            payload.skip(csize),
        )
    }
}

/// The MULTIPART envelope: descriptor `0xE1`, the segment count as
/// 16-bit little-endian, the total uncompressed size as 32-bit
/// little-endian, then the segments.
pub open spec fn spec_zgfx_multipart(payload: Seq<u8>) -> Seq<u8> {
    seq![0xE1u8] + spec_le16(spec_chunk_count(payload.len() as int)) + spec_le32(
        payload.len() as int,
    ) + spec_segments(payload)
}

/// The ZGFX envelope chosen for a payload: SINGLE up to 65534 bytes,
/// MULTIPART above.
pub open spec fn spec_zgfx_wrap(payload: Seq<u8>) -> Seq<u8> {
    if payload.len() <= 65534 {
        spec_zgfx_single(payload)
    } else {
        spec_zgfx_multipart(payload)
    }
}

/// A SINGLE-segment envelope is exactly two bytes of header followed
/// by the payload: its length is the payload's plus two.
pub proof fn lemma_zgfx_single_shape(payload: Seq<u8>)
    ensures
        spec_zgfx_single(payload).len() == payload.len() + 2,
        spec_zgfx_single(payload)[0] == 0xE0u8,
        spec_zgfx_single(payload)[1] == 0x04u8,
        spec_zgfx_single(payload).skip(2) == payload,
{
    assert(spec_zgfx_single(payload).skip(2) =~= payload);
}

/// The MULTIPART segments of a payload carry every payload byte plus
/// five bytes of header per segment, with `ceil(len / 65534)` segments.
pub proof fn lemma_segments_len(payload: Seq<u8>)
    ensures
        spec_segments(payload).len() == payload.len() + 5 * spec_chunk_count(
            payload.len() as int,
        ),
    decreases payload.len(),
{
    if payload.len() == 0 {
    } else {
        let csize = if payload.len() > 65534 {
            65534int
        } else {
            payload.len() as int
        };
        lemma_segments_len(payload.skip(csize));
        assert(spec_chunk_count(payload.len() as int) == 1 + spec_chunk_count(
            payload.len() - csize,
        )) by {
            if payload.len() > 65534 {
                assert((payload.len() + 65533) / 65534 == 1 + (payload.len() - 65534 + 65533)
                    / 65534) by (nonlinear_arith)
                    requires
                        payload.len() > 65534,
                ;
            } else {
                assert((payload.len() + 65533) / 65534 == 1) by (nonlinear_arith)
                    requires
                        0 < payload.len() <= 65534,
                ;
            }
        }
    }
}

/// The MULTIPART envelope begins `0xE1`, the segment count, then the
/// total size, and its overall length is the payload's plus seven plus
/// five per segment.
pub proof fn lemma_zgfx_multipart_shape(payload: Seq<u8>)
    ensures
        spec_zgfx_multipart(payload)[0] == 0xE1u8,
        spec_zgfx_multipart(payload).subrange(1, 3) == spec_le16(
            spec_chunk_count(payload.len() as int),
        ),
        spec_zgfx_multipart(payload).subrange(3, 7) == spec_le32(payload.len() as int),
        spec_zgfx_multipart(payload).skip(7) == spec_segments(payload),
        spec_zgfx_multipart(payload).len() == 7 + payload.len() + 5 * spec_chunk_count(
            payload.len() as int,
        ),
{
    lemma_segments_len(payload);
    assert(spec_zgfx_multipart(payload).subrange(1, 3) =~= spec_le16(
        spec_chunk_count(payload.len() as int),
    ));
    assert(spec_zgfx_multipart(payload).subrange(3, 7) =~= spec_le32(payload.len() as int));
    assert(spec_zgfx_multipart(payload).skip(7) =~= spec_segments(payload));
}

/// Append `v` to `out` in 16-bit little-endian order.
fn push_le16(out: &mut Vec<u8>, v: u16)
    ensures
        final(out)@ == old(out)@ + spec_le16(v as int),
{
    out.push((v % 256) as u8);
    out.push(((v / 256) % 256) as u8);
    proof {
        assert(final(out)@ =~= old(out)@ + spec_le16(v as int));
    }
}

/// Append `v` to `out` in 32-bit little-endian order.
fn push_le32(out: &mut Vec<u8>, v: u32)
    ensures
        final(out)@ == old(out)@ + spec_le32(v as int),
{
    out.push((v % 256) as u8);
    out.push(((v / 256) % 256) as u8);
    out.push(((v / 65536) % 256) as u8);
    out.push(((v / 16777216) % 256) as u8);
    proof {
        assert(final(out)@ =~= old(out)@ + spec_le32(v as int));
    }
}

/// Build a ZGFX MULTIPART (`0xE1`) envelope from raw uncompressed
/// data.
///
/// The payload is split into chunks of at most 65534 bytes; each chunk
/// is emitted as a segment whose 32-bit size field counts the one-byte
/// bulk header plus the chunk.  The format's 16-bit segment count
/// bounds the accepted payload length.
#[verifier::rlimit(60)]
pub fn zgfx_build_multipart(payload: &Vec<u8>) -> (r: Vec<u8>)
    requires
        payload@.len() <= 65534 * 65535,
    ensures
        r@ == spec_zgfx_multipart(payload@),
{
    let len = payload.len();
    let count64: u64 = ((len as u64) + 65533) / 65534;
    let segment_count: u16 = count64 as u16;
    proof {
        assert((len as u64 + 65533) / 65534 <= 65535u64) by (nonlinear_arith)
            requires
                len as u64 <= 65534u64 * 65535u64,
        ;
        assert(segment_count as int == spec_chunk_count(len as int));
    }
    let mut out: Vec<u8> = Vec::new();
    out.push(0xE1);
    push_le16(&mut out, segment_count);
    push_le32(&mut out, len as u32);
    proof {
        assert(out@ =~= seq![0xE1u8] + spec_le16(spec_chunk_count(payload@.len() as int))
            + spec_le32(payload@.len() as int));
        assert(payload@.skip(0) =~= payload@);
        assert(out@ + spec_segments(payload@) =~= spec_zgfx_multipart(payload@));
    }
    let mut off: usize = 0;
    while off < len
        invariant
            0 <= off <= len,
            len == payload@.len(),
            len <= 65534 * 65535,
            out@ + spec_segments(payload@.skip(off as int)) == spec_zgfx_multipart(payload@),
        decreases len - off,
    {
        let csize: usize = if len - off > 65534 {
            65534
        } else {
            len - off
        };
        let seg_size: u32 = (csize as u32) + 1;
        let ghost before = out@;
        let ghost rest = payload@.skip(off as int);
        push_le32(&mut out, seg_size);
        out.push(0x04);
        let mut k: usize = 0;
        while k < csize
            invariant
                0 <= k <= csize,
                off + csize <= len == payload@.len(),
                out@ == before + spec_le32(csize + 1) + seq![0x04u8] + payload@.subrange(
                    off as int,
                    off + k,
                ),
            decreases csize - k,
        {
            out.push(payload[off + k]);
            proof {
                assert(out@ =~= before + spec_le32(csize as int + 1) + seq![0x04u8]
                    + payload@.subrange(off as int, off + k + 1));
            }
            k += 1;
        }
        proof {
            assert(rest.take(csize as int) =~= payload@.subrange(off as int, off + csize));
            assert(rest.skip(csize as int) =~= payload@.skip(off + csize));
            assert(spec_segments(rest) == spec_le32(csize as int + 1) + seq![0x04u8]
                + rest.take(csize as int) + spec_segments(rest.skip(csize as int)));
            assert(out@ + spec_segments(payload@.skip(off + csize)) =~= before + spec_segments(
                rest,
            ));
        }
        off += csize;
    }
    proof {
        assert(payload@.skip(len as int) =~= Seq::<u8>::empty());
        assert(out@ =~= out@ + spec_segments(payload@.skip(len as int)));
    }
    out
}

/// Wrap an outbound EGFX payload in its ZGFX envelope: a SINGLE
/// segment for up to 65534 bytes, MULTIPART above.
pub fn zgfx_wrap_payload(payload: &Vec<u8>) -> (r: Vec<u8>)
    requires
        payload@.len() <= 65534 * 65535,
    ensures
        r@ == spec_zgfx_wrap(payload@),
{
    if payload.len() <= 65534 {
        let mut out: Vec<u8> = Vec::new();
        out.push(0xE0);
        out.push(0x04);
        out.extend_from_slice(payload.as_slice());
        proof {
            assert(out@ =~= spec_zgfx_single(payload@));
        }
        out
    } else {
        zgfx_build_multipart(payload)
    }
}

} // verus!
