//! Packs a window id and a local id (menu entry, tray icon, shortcut) into
//! one integer: the window id in the high 16 bits, the local id in the low 16.
use vstd::prelude::*;

verus! {

/// Number of distinct window ids, and of distinct local ids per window.
pub const ID_LIMIT: u32 = 65536;

/// Why a pair cannot be encoded.
#[derive(Debug, Clone, Copy, PartialEq, Eq, Structural)]
pub enum CodecError {
    /// The window id does not fit in its 16 bits.
    WindowIdOutOfRange,
    /// The local id does not fit in its 16 bits.
    LocalIdOutOfRange,
}

/// The pairs that have a composite id.
pub open spec fn encodable(window_id: int, local_id: int) -> bool {
    0 <= window_id < ID_LIMIT && 0 <= local_id < ID_LIMIT
}

/// The composite id of a pair.
pub open spec fn composite(window_id: int, local_id: int) -> int {
    window_id * ID_LIMIT + local_id
}

/// The pair that a composite id stands for.
pub open spec fn split(id: int) -> (int, int) {
    (id / ID_LIMIT as int, id % ID_LIMIT as int)
}

/// Encodes `(window_id, local_id)`; a value wider than its 16 bits is an error,
/// never truncated.
pub fn encode_id(window_id: u32, local_id: u32) -> (r: Result<u32, CodecError>)
    ensures
        encodable(window_id as int, local_id as int) <==> r is Ok,
        r matches Ok(id) ==> id == composite(window_id as int, local_id as int),
        window_id >= ID_LIMIT ==> r == Err::<u32, CodecError>(CodecError::WindowIdOutOfRange),
        window_id < ID_LIMIT && local_id >= ID_LIMIT ==> r == Err::<u32, CodecError>(
            CodecError::LocalIdOutOfRange,
        ),
{
    if window_id >= ID_LIMIT {
        return Err(CodecError::WindowIdOutOfRange);
    }
    if local_id >= ID_LIMIT {
        return Err(CodecError::LocalIdOutOfRange);
    }
    let id = (window_id << 16u32) | local_id;
    assert(id == window_id * 65536 + local_id) by (bit_vector)
        requires
            id == (window_id << 16u32) | local_id,
            window_id < 65536,
            local_id < 65536,
    ;
    Ok(id)
}

/// Decodes a composite id into `(window_id, local_id)`.
pub fn decode_id(id: u32) -> (r: (u32, u32))
    ensures
        (r.0 as int, r.1 as int) == split(id as int),
        encodable(r.0 as int, r.1 as int),
{
    let window_id = id >> 16u32;
    let local_id = id & 0xffffu32;
    assert(window_id == id / 65536 && local_id == id % 65536) by (bit_vector)
        requires
            window_id == id >> 16u32,
            local_id == id & 0xffffu32,
    ;
    (window_id, local_id)
}

/// Decoding the composite id of an encodable pair gives the pair back.
pub proof fn lemma_decode_encode(window_id: int, local_id: int)
    requires
        encodable(window_id, local_id),
    ensures
        split(composite(window_id, local_id)) == (window_id, local_id),
{
    let id = composite(window_id, local_id);
    assert(id / 65536 == window_id && id % 65536 == local_id) by (nonlinear_arith)
        requires
            id == window_id * 65536 + local_id,
            0 <= local_id < 65536,
            0 <= window_id,
    ;
}

/// Two different encodable pairs never share a composite id.
pub proof fn lemma_encode_injective(w1: int, l1: int, w2: int, l2: int)
    requires
        encodable(w1, l1),
        encodable(w2, l2),
        (w1, l1) != (w2, l2),
    ensures
        composite(w1, l1) != composite(w2, l2),
{
    lemma_decode_encode(w1, l1);
    lemma_decode_encode(w2, l2);
}

} // verus!
