use vstd::prelude::*;

use crate::status::Status;

verus! {

/// A call is well-formed when its input is present and non-empty and it names a length slot.
pub open spec fn args_valid(input: Option<&[u8]>, has_len_slot: bool) -> bool {
    has_len_slot && match input {
        Some(b) => b@.len() > 0,
        None => false,
    }
}

/// The result is copied only into a non-empty buffer that can hold all of it.
pub open spec fn fits(needed: nat, capacity: nat) -> bool {
    0 < capacity && needed <= capacity
}

/// The status that the size negotiation settles on.
pub open spec fn negotiated_status(needed: nat, capacity: nat) -> Status {
    if fits(needed, capacity) {
        Status::Success
    } else {
        Status::BufferTooSmall
    }
}

/// The caller's buffer after negotiation: the result in front and the rest untouched
/// when it fits, the buffer unchanged when it does not.
pub open spec fn filled(before: Seq<u8>, produced: Seq<u8>) -> Seq<u8> {
    if fits(produced.len(), before.len()) {
        produced + before.subrange(produced.len() as int, before.len() as int)
    } else {
        before
    }
}

/// What a call reports and leaves behind once the codec has produced `produced`.
pub open spec fn delivered(
    produced: Seq<u8>,
    before: Seq<u8>,
    after: Seq<u8>,
    status: Status,
    reported: usize,
) -> bool {
    &&& reported == produced.len()
    &&& status == negotiated_status(produced.len(), before.len())
    &&& after == filled(before, produced)
}

/// Rejects a call whose input is absent or empty or which names no length slot.
pub fn arguments_valid(input: Option<&[u8]>, has_len_slot: bool) -> (r: bool)
    ensures
        r == args_valid(input, has_len_slot),
{
    match input {
        Some(b) => has_len_slot && b.len() > 0,
        None => false,
    }
}

/// Decides between committing the copy and reporting the size only.
pub fn fits_capacity(needed: usize, capacity: usize) -> (r: bool)
    ensures
        r == fits(needed as nat, capacity as nat),
{
    0 < capacity && needed <= capacity
}

/// Copies `produced` to the front of `out`, writing nothing past its length.
pub fn copy_result(produced: &[u8], out: &mut [u8])
    requires
        produced@.len() <= old(out)@.len(),
    ensures
        final(out)@ == produced@ + old(out)@.subrange(produced@.len() as int, old(out)@.len() as int),
{
    let mut i: usize = 0;
    while i < produced.len()
        invariant
            i <= produced@.len() <= out@.len(),
            out@.len() == old(out)@.len(),
            forall|k: int| 0 <= k < i ==> out@[k] == produced@[k],
            forall|k: int| i <= k < out@.len() ==> out@[k] == old(out)@[k],
        decreases produced@.len() - i,
    {
        out[i] = produced[i];
        i = i + 1;
    }
    assert(out@ =~= produced@ + old(out)@.subrange(produced@.len() as int, old(out)@.len() as int));
}

/// Hands the codec's result to the caller: on success it reports the exact size and
/// copies the bytes when they fit; a codec failure leaves buffer and slot alone.
pub fn deliver(produced: Result<Vec<u8>, std::io::Error>, out: &mut [u8], out_len: &mut usize) -> (s: Status)
    ensures
        match produced {
            Ok(p) => delivered(p@, old(out)@, final(out)@, s, *final(out_len)),
            Err(_) => {
                &&& s == Status::CodecError
                &&& final(out)@ == old(out)@
                &&& *final(out_len) == *old(out_len)
            },
        },
{
    match produced {
        Ok(p) => {
            *out_len = p.len();
            if fits_capacity(p.len(), out.len()) {
                copy_result(p.as_slice(), out);
                Status::Success
            } else {
                Status::BufferTooSmall
            }
        },
        Err(_) => Status::CodecError,
    }
}

} // verus!
