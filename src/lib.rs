//! A flat, allocation-free boundary around the zstd codec. The caller owns all memory:
//! a call either fills the caller's buffer or reports the exact size it needs, and
//! every outcome is a status code.
use vstd::prelude::*;

pub mod codec;
pub mod laws;
pub mod negotiate;
pub mod status;

use crate::codec::{
    capacity_hint, codec_compress, codec_decompress, compress_input_limit, declared_content_size,
    frame_content_size, max_compress_input, spec_capacity_hint, zstd_compresses, zstd_content, zstd_decodes,
    zstd_frame,
};
use crate::negotiate::{args_valid, arguments_valid, deliver, delivered};
use crate::status::{status_of, Status};

verus! {

/// A failed call leaves the caller's buffer and length slot as they were.
pub open spec fn untouched(before: Seq<u8>, after: Seq<u8>, slot_before: usize, slot_after: usize) -> bool {
    after == before && slot_after == slot_before
}

/// What a compress call with valid arguments reports and leaves behind. A frame that
/// the codec makes decodes back to the input.
pub open spec fn compress_outcome(
    data: Seq<u8>,
    level: i32,
    before: Seq<u8>,
    after: Seq<u8>,
    slot_before: usize,
    slot_after: usize,
    s: Status,
) -> bool {
    if data.len() > max_compress_input() {
        s == Status::InternalFault && untouched(before, after, slot_before, slot_after)
    } else if zstd_compresses(data, level) {
        &&& zstd_decodes(zstd_frame(data, level))
        &&& zstd_content(zstd_frame(data, level)) == data
        &&& delivered(zstd_frame(data, level), before, after, s, slot_after)
    } else {
        s == Status::CodecError && untouched(before, after, slot_before, slot_after)
    }
}

/// Whether a decompress call on `data` gets its content from the codec: the frames
/// decode and their content fits the capacity that the call hands the decoder.
pub open spec fn decompresses(data: Seq<u8>) -> bool {
    &&& zstd_decodes(data)
    &&& zstd_content(data).len() <= spec_capacity_hint(data.len(), declared_content_size(data))
}

/// What a decompress call with valid arguments reports and leaves behind.
pub open spec fn decompress_outcome(
    data: Seq<u8>,
    before: Seq<u8>,
    after: Seq<u8>,
    slot_before: usize,
    slot_after: usize,
    s: Status,
) -> bool {
    if decompresses(data) {
        delivered(zstd_content(data), before, after, s, slot_after)
    } else {
        s == Status::CodecError && untouched(before, after, slot_before, slot_after)
    }
}

fn compress_into(data: &[u8], level: i32, out: &mut [u8], out_len: &mut usize) -> (s: Status)
    ensures
        compress_outcome(data@, level, old(out)@, final(out)@, *old(out_len), *final(out_len), s),
{
    if data.len() > compress_input_limit() {
        return Status::InternalFault;
    }
    let produced = codec_compress(data, level);
    deliver(produced, out, out_len)
}

fn decompress_into(data: &[u8], out: &mut [u8], out_len: &mut usize) -> (s: Status)
    ensures
        decompress_outcome(data@, old(out)@, final(out)@, *old(out_len), *final(out_len), s),
{
    let hint = capacity_hint(data.len(), frame_content_size(data));
    let produced = codec_decompress(data, hint);
    deliver(produced, out, out_len)
}

/// Compresses `input` at `level` into `out`. An absent or empty input, or an absent
/// length slot, is rejected before any work. Otherwise the slot receives the exact
/// compressed size, and the bytes are copied to the front of `out` only when they fit.
/// An absent output region is an empty `out`.
pub fn zstd_compress(input: Option<&[u8]>, level: i32, out: &mut [u8], out_len: Option<&mut usize>) -> (code: i32)
    ensures
        0 <= code <= 4,
        !args_valid(input, out_len is Some) ==> {
            &&& code == Status::InvalidArguments.spec_code()
            &&& final(out)@ == old(out)@
            &&& out_len matches Some(slot) ==> *final(slot) == *slot
        },
        args_valid(input, out_len is Some) ==> match (input, out_len) {
            (Some(data), Some(slot)) => compress_outcome(
                data@,
                level,
                old(out)@,
                final(out)@,
                *slot,
                *final(slot),
                status_of(code),
            ),
            _ => false,
        },
{
    if !arguments_valid(input, out_len.is_some()) {
        return Status::InvalidArguments.code();
    }
    match input {
        Some(data) => match out_len {
            Some(slot) => compress_into(data, level, out, slot).code(),
            None => Status::InvalidArguments.code(),
        },
        None => Status::InvalidArguments.code(),
    }
}

/// Decompresses `input` into `out`, under the same protocol as `zstd_compress`. The
/// decoder is given the larger of the content size that the first frame declares (up
/// to 1 GiB) and three times the input length; larger content is a codec error.
pub fn zstd_decompress(input: Option<&[u8]>, out: &mut [u8], out_len: Option<&mut usize>) -> (code: i32)
    ensures
        0 <= code <= 4,
        !args_valid(input, out_len is Some) ==> {
            &&& code == Status::InvalidArguments.spec_code()
            &&& final(out)@ == old(out)@
            &&& out_len matches Some(slot) ==> *final(slot) == *slot
        },
        args_valid(input, out_len is Some) ==> match (input, out_len) {
            (Some(data), Some(slot)) => decompress_outcome(
                data@,
                old(out)@,
                final(out)@,
                *slot,
                *final(slot),
                status_of(code),
            ),
            _ => false,
        },
{
    if !arguments_valid(input, out_len.is_some()) {
        return Status::InvalidArguments.code();
    }
    match input {
        Some(data) => match out_len {
            Some(slot) => decompress_into(data, out, slot).code(),
            None => Status::InvalidArguments.code(),
        },
        None => Status::InvalidArguments.code(),
    }
}

} // verus!
