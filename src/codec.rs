use vstd::prelude::*;

verus! {

/// The error type of the codec's calls, carried through opaque.
#[verifier::external_type_specification]
#[verifier::external_body]
pub struct ExIoError(std::io::Error);

/// Whether the codec compresses `data` at compression `level`.
pub uninterp spec fn zstd_compresses(data: Seq<u8>, level: i32) -> bool;

/// The zstd frame that the codec makes of `data` at compression `level`.
pub uninterp spec fn zstd_frame(data: Seq<u8>, level: i32) -> Seq<u8>;

/// Whether `frame` is a sequence of well-formed frames that the codec decodes.
pub uninterp spec fn zstd_decodes(frame: Seq<u8>) -> bool;

/// The content that the codec decodes from the frames in `frame`.
pub uninterp spec fn zstd_content(frame: Seq<u8>) -> Seq<u8>;

/// The content size that the header of the first frame in `frame` declares, if it
/// declares one and can be read.
pub uninterp spec fn declared_content_size(frame: Seq<u8>) -> Option<u64>;

/// The largest input handed to the compressor: its work buffer is the input plus a
/// margin of about 1/256 of it and a few bytes, which then stays within what an
/// allocation may request.
pub open spec fn max_compress_input() -> nat {
    (isize::MAX as nat) / 2
}

pub fn compress_input_limit() -> (r: usize)
    ensures
        r == max_compress_input(),
{
    (isize::MAX as usize) / 2
}

/// The largest declared content size that is reserved up front (1 GiB). A header may
/// claim any size; reserving more than this on its word alone could exhaust memory.
pub open spec fn max_declared_reserve() -> nat {
    0x4000_0000
}

/// Three times the input length, held below what an allocation may request: the
/// capacity given to the decompressor when the frame declares nothing better.
pub open spec fn fallback_capacity(input_len: nat) -> nat {
    vstd::math::min(3 * input_len as int, isize::MAX as int) as nat
}

/// The output capacity handed to the decompressor: the larger of the content size that
/// the first frame declares, when it is at most `max_declared_reserve`, and the
/// fallback. Content beyond that capacity makes the decompressor fail.
pub open spec fn spec_capacity_hint(input_len: nat, declared: Option<u64>) -> nat {
    match declared {
        Some(n) => if n <= max_declared_reserve() {
            vstd::math::max(n as int, fallback_capacity(input_len) as int) as nat
        } else {
            fallback_capacity(input_len)
        },
        None => fallback_capacity(input_len),
    }
}

pub fn capacity_hint(input_len: usize, declared: Option<u64>) -> (r: usize)
    ensures
        r == spec_capacity_hint(input_len as nat, declared),
        r <= isize::MAX,
{
    let limit: usize = isize::MAX as usize;
    let fallback: usize = if input_len <= limit / 3 {
        input_len * 3
    } else {
        limit
    };
    match declared {
        Some(n) => if n <= 0x4000_0000u64 && n as usize > fallback {
            n as usize
        } else {
            fallback
        },
        None => fallback,
    }
}

/// Relies on zstd::bulk::compress: whether it succeeds depends on `data` and `level`
/// alone (the level is clamped to the supported range, and the output buffer is zstd's
/// compress bound, which every frame fits). On success the bytes are the codec's frame
/// of `data` at `level`; zstd is lossless, and no level sets a window beyond the
/// decoder's default limit, so the frame decodes back to `data`. The work buffer stays
/// within `isize::MAX` for the inputs admitted here.
#[verifier::external_body]
pub(crate) fn codec_compress(data: &[u8], level: i32) -> (r: Result<Vec<u8>, std::io::Error>)
    requires
        data@.len() <= max_compress_input(),
    ensures
        r is Ok <==> zstd_compresses(data@, level),
        r matches Ok(v) ==> {
            &&& v@ == zstd_frame(data@, level)
            &&& zstd_decodes(v@)
            &&& zstd_content(v@) == data@
        },
{
    zstd::bulk::compress(data, level)
}

/// Relies on zstd::bulk::decompress: it succeeds exactly when `data` decodes and its
/// content fits in `capacity` bytes (larger content is an error), and then returns
/// that content. It reserves `capacity` bytes up front, which must stay within
/// `isize::MAX`.
#[verifier::external_body]
pub(crate) fn codec_decompress(data: &[u8], capacity: usize) -> (r: Result<Vec<u8>, std::io::Error>)
    requires
        capacity <= isize::MAX,
    ensures
        r is Ok <==> (zstd_decodes(data@) && zstd_content(data@).len() <= capacity),
        r matches Ok(v) ==> v@ == zstd_content(data@),
{
    zstd::bulk::decompress(data, capacity)
}

/// Relies on zstd_safe::get_frame_content_size: the size that the frame header declares;
/// an unknown size and an unreadable header both come back as `None`.
#[verifier::external_body]
pub(crate) fn frame_content_size(data: &[u8]) -> (r: Option<u64>)
    ensures
        r == declared_content_size(data@),
{
    match zstd::zstd_safe::get_frame_content_size(data) {
        Ok(n) => n,
        Err(_) => None,
    }
}

} // verus!
