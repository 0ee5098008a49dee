use vstd::prelude::*;

verus! {

/// A buffer of `len` words, all zero.
pub fn alloc_box_buffer(len: usize) -> (buffer: Vec<u32>)
    ensures
        buffer@.len() == len,
        forall|i: int| 0 <= i < len ==> buffer@[i] == 0,
{
    let mut buffer: Vec<u32> = Vec::new();
    let mut i: usize = 0;
    while i < len
        invariant
            i <= len,
            buffer@.len() == i,
            forall|k: int| 0 <= k < i ==> buffer@[k] == 0,
        decreases len - i,
    {
        buffer.push(0);
        i += 1;
    }
    buffer
}

} // verus!
