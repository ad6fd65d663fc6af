//! Null-terminated buffer codec.
//!
//! The kernel-resident patch mechanism is reached through a fixed-ABI call
//! that takes C strings: each variable-length value crossing the boundary
//! must be converted to an independently owned byte buffer ending in a
//! single null byte. A value containing an embedded null byte cannot be
//! represented and is a hard input error — never a silent truncation.

use vstd::prelude::*;

verus! {

/// The null-terminated encoding of `data`.
pub open spec fn encode_spec(data: Seq<u8>) -> Seq<u8> {
    data.push(0u8)
}

/// The bytes carried by a null-terminated buffer `b`: everything before
/// the terminator.
pub open spec fn decode_spec(b: Seq<u8>) -> Seq<u8> {
    b.take(b.len() - 1)
}

/// A well-formed null-terminated buffer: non-empty, terminated by a null
/// byte, with no null byte anywhere before the terminator.
pub open spec fn nul_terminated(b: Seq<u8>) -> bool {
    &&& b.len() >= 1
    &&& b[b.len() - 1] == 0u8
    &&& forall|i: int| 0 <= i < b.len() - 1 ==> b[i] != 0u8
}

/// An owned null-terminated byte buffer, safe to hand across the
/// fixed-ABI boundary for exactly the duration of one call.
#[derive(Debug)]
pub struct CBuf {
    bytes: Vec<u8>,
}

impl View for CBuf {
    type V = Seq<u8>;

    closed spec fn view(&self) -> Seq<u8> {
        self.bytes@
    }
}

impl CBuf {
    /// The raw buffer, terminator included, for the caller that performs
    /// the foreign call.
    pub fn raw(&self) -> (r: &[u8])
        ensures
            r@ == self@,
    {
        self.bytes.as_slice()
    }
}

/// Encode `data` as a null-terminated buffer.
///
/// Succeeds exactly when `data` contains no null byte; the buffer then
/// carries the bytes of `data` unchanged, followed by the terminator.
/// A value with an embedded null byte is rejected before any privileged
/// call could see it.
pub fn encode_nul_terminated(data: &[u8]) -> (r: Option<CBuf>)
    ensures
        match r {
            Some(buf) => {
                &&& !data@.contains(0u8)
                &&& buf@ == encode_spec(data@)
                &&& nul_terminated(buf@)
            },
            None => data@.contains(0u8),
        },
{
    let mut out: Vec<u8> = Vec::new();
    let mut i: usize = 0;
    while i < data.len()
        invariant
            i <= data@.len(),
            out@ == data@.take(i as int),
            forall|j: int| 0 <= j < i ==> data@[j] != 0u8,
        decreases data@.len() - i,
    {
        let b = data[i];
        if b == 0 {
            proof {
                assert(data@.contains(0u8)) by {
                    assert(data@[i as int] == 0u8);
                }
            }
            return None;
        }
        out.push(b);
        i = i + 1;
    }
    proof {
        assert(out@ =~= data@);
        if data@.contains(0u8) {
            let k = choose|k: int| 0 <= k < data@.len() && data@[k] == 0u8;
            assert(data@[k] != 0u8);
        }
    }
    out.push(0u8);
    proof {
        assert(out@ =~= encode_spec(data@));
    }
    Some(CBuf { bytes: out })
}

/// Decode a null-terminated buffer back to the bytes it carries: the
/// prefix before the terminator.
pub fn decode_nul_terminated(buf: &CBuf) -> (r: Vec<u8>)
    requires
        nul_terminated(buf@),
    ensures
        r@ == decode_spec(buf@),
{
    let raw = buf.raw();
    let mut out: Vec<u8> = Vec::new();
    let mut i: usize = 0;
    let end = raw.len() - 1;
    while i < end
        invariant
            end == buf@.len() - 1,
            raw@ == buf@,
            i <= end,
            out@ == buf@.take(i as int),
        decreases end - i,
    {
        out.push(raw[i]);
        i = i + 1;
    }
    out
}

/// Encoding then decoding a value free of null bytes round-trips its
/// bytes exactly.
pub proof fn lemma_nul_round_trip(data: Seq<u8>)
    requires
        !data.contains(0u8),
    ensures
        nul_terminated(encode_spec(data)),
        decode_spec(encode_spec(data)) == data,
{
    assert forall|i: int| 0 <= i < encode_spec(data).len() - 1 implies encode_spec(
        data,
    )[i] != 0u8 by {
        assert(encode_spec(data)[i] == data[i]);
        if data[i] == 0u8 {
            assert(data.contains(0u8));
        }
    }
    assert(decode_spec(encode_spec(data)) =~= data);
}

} // verus!
