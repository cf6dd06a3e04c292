//! Allocation types and helpers.

use vstd::prelude::*;

verus! {

/// Error returned when heap allocation fails.
#[derive(Debug, Clone, Copy, PartialEq, Eq, Structural)]
pub struct AllocError;

/// Heap-allocated box.
pub type HeapBox<T> = Box<T>;

/// Heap-allocated box for large allocations.
pub type VmallocBox<T> = Box<T>;

/// Growable vector.
pub type HeapVec<T> = Vec<T>;

/// Box a value on the heap.
pub fn heap_box<T>(val: T) -> (r: HeapBox<T>)
    ensures
        *r == val,
{
    Box::new(val)
}

/// Create a vector with pre-allocated capacity.
pub fn heap_vec_with_capacity<T>(cap: usize) -> (r: Result<HeapVec<T>, AllocError>)
    ensures
        r is Ok,
        r->Ok_0@ == Seq::<T>::empty(),
{
    Ok(Vec::with_capacity(cap))
}

/// Push a value onto a vector. The standard allocator aborts when it runs out
/// of memory, so this never returns an error.
pub fn heap_vec_push<T>(v: &mut HeapVec<T>, val: T) -> (r: Result<(), AllocError>)
    ensures
        r is Ok,
        final(v)@ == old(v)@.push(val),
{
    v.push(val);
    Ok(())
}

/// Remove and return the front element of a vector, or `None` if empty. O(n)
/// (shifts the rest down); used for FIFO queues whose depth is small enough
/// that the shift cost is negligible relative to the per-element work.
pub fn heap_vec_remove_front<T>(v: &mut HeapVec<T>) -> (r: Option<T>)
    ensures
        old(v)@.len() == 0 ==> r is None && final(v)@ == old(v)@,
        old(v)@.len() > 0 ==> r == Some(old(v)@[0]) && final(v)@ == old(v)@.subrange(
            1,
            old(v)@.len() as int,
        ),
{
    if v.is_empty() {
        None
    } else {
        let front = v.remove(0);
        assert(v@ =~= old(v)@.subrange(1, old(v)@.len() as int));
        Some(front)
    }
}

/// A vector used through `heap_vec_push` and `heap_vec_remove_front` is a
/// queue: what is pushed last comes out after everything that was there, and
/// taking the front does not disturb the order of the rest.
pub proof fn push_then_take_is_first_in_first_out<T>(queue: Seq<T>, val: T)
    ensures
        queue.len() == 0 ==> queue.push(val)[0] == val,
        queue.len() > 0 ==> queue.push(val)[0] == queue[0] && queue.push(val).subrange(
            1,
            (queue.len() + 1) as int,
        ) == queue.subrange(1, queue.len() as int).push(val),
{
    if queue.len() > 0 {
        assert(queue.push(val).subrange(1, (queue.len() + 1) as int) =~= queue.subrange(
            1,
            queue.len() as int,
        ).push(val));
    }
}

} // verus!
