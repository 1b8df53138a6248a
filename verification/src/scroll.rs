//! Moving bytes inside the frame: the primitives behind scrolling.

use vstd::prelude::*;

verus! {

/// `buf` with the `count` bytes from `start` on copied to its front; the
/// bytes from `count` on stay as they are.
pub open spec fn moved_to_front(buf: Seq<u8>, start: int, count: int) -> Seq<u8> {
    Seq::new(
        buf.len(),
        |i: int|
            if i < count {
                buf[start + i]
            } else {
                buf[i]
            },
    )
}

/// `buf` with every byte from `from` on set to zero.
pub open spec fn zeroed_from(buf: Seq<u8>, from: int) -> Seq<u8> {
    Seq::new(
        buf.len(),
        |i: int|
            if i >= from {
                0u8
            } else {
                buf[i]
            },
    )
}

/// `buf` moved up by `shift` bytes: byte `i` takes the value of byte
/// `i + shift`, and the last `shift` bytes become zero.
pub open spec fn shifted_up(buf: Seq<u8>, shift: int) -> Seq<u8> {
    Seq::new(
        buf.len(),
        |i: int|
            if i + shift < buf.len() {
                buf[i + shift]
            } else {
                0u8
            },
    )
}

/// Copies the `count` bytes from `start` on to the front of `buf`, lowest
/// address first. Source and destination may overlap: the source never lies
/// before the destination, so no byte is overwritten before it is read.
pub fn move_to_front(buf: &mut Vec<u8>, start: usize, count: usize)
    requires
        start + count <= old(buf).len(),
    ensures
        final(buf)@ == moved_to_front(old(buf)@, start as int, count as int),
        final(buf).len() == old(buf).len(),
    no_unwind
{
    let mut i: usize = 0;
    while i < count
        invariant
            i <= count,
            start + count <= buf.len(),
            buf.len() == old(buf).len(),
            forall|j: int| 0 <= j < i ==> buf@[j] == old(buf)@[start + j],
            forall|j: int| i <= j < buf.len() ==> buf@[j] == old(buf)@[j],
        decreases count - i,
    {
        let byte: u8 = buf[start + i];
        buf[i] = byte;
        i = i + 1;
    }
    assert(buf@ =~= moved_to_front(old(buf)@, start as int, count as int));
}

/// Sets every byte of `buf` from `from` on to zero.
pub fn zero_from(buf: &mut Vec<u8>, from: usize)
    requires
        from <= old(buf).len(),
    ensures
        final(buf)@ == zeroed_from(old(buf)@, from as int),
        final(buf).len() == old(buf).len(),
    no_unwind
{
    let len: usize = buf.len();
    let mut i: usize = from;
    while i < len
        invariant
            from <= i <= len,
            len == buf.len(),
            buf.len() == old(buf).len(),
            forall|j: int| 0 <= j < from ==> buf@[j] == old(buf)@[j],
            forall|j: int| from <= j < i ==> buf@[j] == 0u8,
        decreases len - i,
    {
        buf[i] = 0;
        i = i + 1;
    }
    assert(buf@ =~= zeroed_from(old(buf)@, from as int));
}

/// Moves the content of `buf` up by `shift` bytes and zero-fills the `shift`
/// bytes that this exposes at the end. The length of `buf` stays.
pub fn shift_up(buf: &mut Vec<u8>, shift: usize)
    requires
        shift <= old(buf).len(),
    ensures
        final(buf)@ == shifted_up(old(buf)@, shift as int),
        final(buf).len() == old(buf).len(),
    no_unwind
{
    let len: usize = buf.len();
    move_to_front(buf, shift, len - shift);
    zero_from(buf, len - shift);
    assert(buf@ =~= shifted_up(old(buf)@, shift as int));
}

/// Moving the whole of a buffer to its own front changes nothing.
pub proof fn lemma_move_whole_is_identity(buf: Seq<u8>)
    ensures
        moved_to_front(buf, 0, buf.len() as int) == buf,
{
    assert(moved_to_front(buf, 0, buf.len() as int) =~= buf);
}

} // verus!
