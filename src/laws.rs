use vstd::prelude::*;

use crate::codec::{
    declared_content_size, max_compress_input, spec_capacity_hint, zstd_compresses, zstd_content,
    zstd_decodes, zstd_frame,
};
use crate::negotiate::{delivered, fits};
use crate::status::Status;
use crate::{compress_outcome, decompress_outcome, decompresses, untouched};

verus! {

/// Compressing `data` and then decompressing the bytes that the first call committed,
/// into a buffer that can hold `data`, gives back `data` exactly, provided the content
/// fits the capacity that decompression hands the decoder.
pub proof fn lemma_round_trip(
    data: Seq<u8>,
    level: i32,
    c_before: Seq<u8>,
    c_after: Seq<u8>,
    c_slot_before: usize,
    c_len: usize,
    d_before: Seq<u8>,
    d_after: Seq<u8>,
    d_slot_before: usize,
    d_len: usize,
    d_status: Status,
)
    requires
        data.len() > 0,
        compress_outcome(data, level, c_before, c_after, c_slot_before, c_len, Status::Success),
        data.len() <= spec_capacity_hint(
            c_len as nat,
            declared_content_size(c_after.subrange(0, c_len as int)),
        ),
        d_before.len() >= data.len(),
        decompress_outcome(
            c_after.subrange(0, c_len as int),
            d_before,
            d_after,
            d_slot_before,
            d_len,
            d_status,
        ),
    ensures
        c_after.subrange(0, c_len as int) == zstd_frame(data, level),
        d_status == Status::Success,
        d_len == data.len(),
        d_after.subrange(0, d_len as int) == data,
{
    let frame = zstd_frame(data, level);
    assert(data.len() <= max_compress_input());
    assert(zstd_compresses(data, level));
    assert(c_len == frame.len());
    assert(c_after.subrange(0, c_len as int) =~= frame);
    assert(zstd_content(frame) == data);
    assert(decompresses(frame));
    assert(fits(data.len(), d_before.len()));
    assert(d_after.subrange(0, d_len as int) =~= data);
}

/// Asking with an empty buffer reports the size and writes nothing; offering a buffer
/// of exactly the reported size then commits the whole result, provided it is not empty.
pub proof fn lemma_size_query_then_fill(
    produced: Seq<u8>,
    probe: Seq<u8>,
    probe_after: Seq<u8>,
    probe_status: Status,
    reported: usize,
    buf: Seq<u8>,
    buf_after: Seq<u8>,
    buf_status: Status,
    used: usize,
)
    requires
        produced.len() > 0,
        probe.len() == 0,
        delivered(produced, probe, probe_after, probe_status, reported),
        buf.len() == reported,
        delivered(produced, buf, buf_after, buf_status, used),
    ensures
        probe_status == Status::BufferTooSmall,
        probe_after == probe,
        buf_status == Status::Success,
        used == reported,
        buf_after == produced,
{
    assert(buf_after =~= produced);
}

/// After a compress call reports a non-zero size with `BufferTooSmall`, a second call on
/// the same input and level with a buffer of exactly that size succeeds and receives
/// exactly the frame.
pub proof fn lemma_compress_size_query(
    data: Seq<u8>,
    level: i32,
    probe: Seq<u8>,
    probe_after: Seq<u8>,
    slot_before: usize,
    reported: usize,
    buf: Seq<u8>,
    buf_after: Seq<u8>,
    slot_between: usize,
    used: usize,
    buf_status: Status,
)
    requires
        compress_outcome(data, level, probe, probe_after, slot_before, reported, Status::BufferTooSmall),
        reported > 0,
        buf.len() == reported,
        compress_outcome(data, level, buf, buf_after, slot_between, used, buf_status),
    ensures
        reported == zstd_frame(data, level).len(),
        buf_status == Status::Success,
        used == reported,
        buf_after == zstd_frame(data, level),
{
    assert(buf_after =~= zstd_frame(data, level));
}

/// After a decompress call reports a non-zero size with `BufferTooSmall`, a second call
/// on the same input with a buffer of exactly that size succeeds and receives exactly
/// the content.
pub proof fn lemma_decompress_size_query(
    data: Seq<u8>,
    probe: Seq<u8>,
    probe_after: Seq<u8>,
    slot_before: usize,
    reported: usize,
    buf: Seq<u8>,
    buf_after: Seq<u8>,
    slot_between: usize,
    used: usize,
    buf_status: Status,
)
    requires
        decompress_outcome(data, probe, probe_after, slot_before, reported, Status::BufferTooSmall),
        reported > 0,
        buf.len() == reported,
        decompress_outcome(data, buf, buf_after, slot_between, used, buf_status),
    ensures
        reported == zstd_content(data).len(),
        buf_status == Status::Success,
        used == reported,
        buf_after == zstd_content(data),
{
    assert(buf_after =~= zstd_content(data));
}

/// Two compress calls on the same input and level with buffers of the same capacity
/// report the same status and, where a size is reported, the same size and bytes.
pub proof fn lemma_compress_deterministic(
    data: Seq<u8>,
    level: i32,
    before1: Seq<u8>,
    after1: Seq<u8>,
    slot_before1: usize,
    slot1: usize,
    s1: Status,
    before2: Seq<u8>,
    after2: Seq<u8>,
    slot_before2: usize,
    slot2: usize,
    s2: Status,
)
    requires
        before1.len() == before2.len(),
        compress_outcome(data, level, before1, after1, slot_before1, slot1, s1),
        compress_outcome(data, level, before2, after2, slot_before2, slot2, s2),
    ensures
        s1 == s2,
        s1 == Status::Success || s1 == Status::BufferTooSmall ==> slot1 == slot2,
        s1 == Status::Success ==> after1.subrange(0, slot1 as int) == after2.subrange(0, slot2 as int),
{
    if s1 == Status::Success {
        assert(after1.subrange(0, slot1 as int) =~= after2.subrange(0, slot2 as int));
    }
}

/// Two decompress calls on the same input with buffers of the same capacity report the
/// same status and, where a size is reported, the same size and bytes.
pub proof fn lemma_decompress_deterministic(
    data: Seq<u8>,
    before1: Seq<u8>,
    after1: Seq<u8>,
    slot_before1: usize,
    slot1: usize,
    s1: Status,
    before2: Seq<u8>,
    after2: Seq<u8>,
    slot_before2: usize,
    slot2: usize,
    s2: Status,
)
    requires
        before1.len() == before2.len(),
        decompress_outcome(data, before1, after1, slot_before1, slot1, s1),
        decompress_outcome(data, before2, after2, slot_before2, slot2, s2),
    ensures
        s1 == s2,
        s1 == Status::Success || s1 == Status::BufferTooSmall ==> slot1 == slot2,
        s1 == Status::Success ==> after1.subrange(0, slot1 as int) == after2.subrange(0, slot2 as int),
{
    if s1 == Status::Success {
        assert(after1.subrange(0, slot1 as int) =~= after2.subrange(0, slot2 as int));
    }
}

/// A compressed frame that does not fit (an empty buffer, or one shorter than the
/// frame) is reported by its exact size with `BufferTooSmall`, and nothing is written.
pub proof fn lemma_compress_too_small(
    data: Seq<u8>,
    level: i32,
    before: Seq<u8>,
    after: Seq<u8>,
    slot_before: usize,
    slot_after: usize,
    s: Status,
)
    requires
        data.len() <= max_compress_input(),
        zstd_compresses(data, level),
        !fits(zstd_frame(data, level).len(), before.len()),
        compress_outcome(data, level, before, after, slot_before, slot_after, s),
    ensures
        s == Status::BufferTooSmall,
        after == before,
        slot_after == zstd_frame(data, level).len(),
{
}

/// Decoded content that does not fit (an empty buffer, or one shorter than the content)
/// is reported by its exact size with `BufferTooSmall`, and nothing is written.
pub proof fn lemma_decompress_too_small(
    data: Seq<u8>,
    before: Seq<u8>,
    after: Seq<u8>,
    slot_before: usize,
    slot_after: usize,
    s: Status,
)
    requires
        decompresses(data),
        !fits(zstd_content(data).len(), before.len()),
        decompress_outcome(data, before, after, slot_before, slot_after, s),
    ensures
        s == Status::BufferTooSmall,
        after == before,
        slot_after == zstd_content(data).len(),
{
}

/// Bytes that the codec cannot decode give `CodecError`, with no partial output and the
/// length slot as it was.
pub proof fn lemma_undecodable_is_codec_error(
    data: Seq<u8>,
    before: Seq<u8>,
    after: Seq<u8>,
    slot_before: usize,
    slot_after: usize,
    s: Status,
)
    requires
        !zstd_decodes(data),
        decompress_outcome(data, before, after, slot_before, slot_after, s),
    ensures
        s == Status::CodecError,
        untouched(before, after, slot_before, slot_after),
{
}

/// The copy never reaches past the caller's capacity: the buffer keeps its length, and
/// a result larger than the capacity leaves it as it was, with `BufferTooSmall`.
pub proof fn lemma_no_write_beyond_capacity(
    produced: Seq<u8>,
    before: Seq<u8>,
    after: Seq<u8>,
    s: Status,
    reported: usize,
)
    requires
        delivered(produced, before, after, s, reported),
    ensures
        after.len() == before.len(),
        produced.len() > before.len() ==> s == Status::BufferTooSmall && after == before,
{
}

} // verus!
