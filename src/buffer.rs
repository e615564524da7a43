use vstd::prelude::*;

verus! {

/// Fixed-capacity byte buffer that holds one frame.
#[verifier::external_type_specification]
#[verifier::external_body]
#[verifier::reject_recursive_types(T)]
pub struct ExHeaplessVec<T, const N: usize>(heapless::Vec<T, N>);

/// The bytes held by a frame buffer, first to last.
pub uninterp spec fn packet_bytes(v: heapless::Vec<u8, 128>) -> Seq<u8>;

/// Relies on `heapless::Vec::new`: a vector that holds nothing.
#[verifier::external_body]
pub(crate) fn buf_new() -> (r: heapless::Vec<u8, 128>)
    ensures
        packet_bytes(r) == Seq::<u8>::empty(),
{
    heapless::Vec::new()
}

/// Relies on `heapless::Vec::push`: below the capacity of 128 the byte is
/// appended; at capacity the vector is left as it was and the byte handed back.
#[verifier::external_body]
pub(crate) fn buf_push(v: &mut heapless::Vec<u8, 128>, b: u8) -> (r: Result<(), u8>)
    ensures
        packet_bytes(*old(v)).len() < 128 ==> r is Ok,
        packet_bytes(*old(v)).len() < 128 ==> packet_bytes(*final(v)) == packet_bytes(*old(v)).push(b),
        packet_bytes(*old(v)).len() >= 128 ==> r is Err && r->Err_0 == b,
        packet_bytes(*old(v)).len() >= 128 ==> packet_bytes(*final(v)) == packet_bytes(*old(v)),
{
    v.push(b)
}

/// Relies on `heapless::Vec::as_slice`: the elements in order, never more
/// than the capacity.
#[verifier::external_body]
pub(crate) fn buf_as_slice(v: &heapless::Vec<u8, 128>) -> (r: &[u8])
    ensures
        r@ == packet_bytes(*v),
        r@.len() <= 128,
{
    v.as_slice()
}

/// Appends a byte that is known to fit.
pub fn push_byte(v: &mut heapless::Vec<u8, 128>, b: u8)
    requires
        packet_bytes(*old(v)).len() < 128,
    ensures
        packet_bytes(*final(v)) == packet_bytes(*old(v)).push(b),
{
    let _ = buf_push(v, b);
}

/// Appends `bytes[start..end]`, which is known to fit.
pub fn push_range(v: &mut heapless::Vec<u8, 128>, bytes: &[u8], start: usize, end: usize)
    requires
        start <= end <= bytes@.len(),
        packet_bytes(*old(v)).len() + (end - start) <= 128,
    ensures
        packet_bytes(*final(v)) == packet_bytes(*old(v)) + bytes@.subrange(start as int, end as int),
{
    let ghost init = packet_bytes(*v);
    let mut i: usize = start;
    while i < end
        invariant
            start <= i <= end <= bytes@.len(),
            init.len() + (end - start) <= 128,
            packet_bytes(*v) == init + bytes@.subrange(start as int, i as int),
        decreases end - i,
    {
        push_byte(v, bytes[i]);
        proof {
            assert(bytes@.subrange(start as int, i + 1) =~= bytes@.subrange(start as int, i as int).push(bytes@[i as int]));
        }
        i = i + 1;
    }
}

/// A new buffer holding `bytes[start..end]`.
pub fn buf_from_range(bytes: &[u8], start: usize, end: usize) -> (r: heapless::Vec<u8, 128>)
    requires
        start <= end <= bytes@.len(),
        end - start <= 128,
    ensures
        packet_bytes(r) == bytes@.subrange(start as int, end as int),
{
    let mut v = buf_new();
    push_range(&mut v, bytes, start, end);
    proof {
        assert(Seq::<u8>::empty() + bytes@.subrange(start as int, end as int) =~= bytes@.subrange(start as int, end as int));
    }
    v
}

} // verus!
