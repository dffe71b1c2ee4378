//! Small numeric and memory primitives meant to sit behind a native call
//! boundary: a constant, a two's-complement sum, in-place increments of an
//! integer array and of a point, and an owned byte block that is handed out
//! and given back with its exact size.
use vstd::prelude::*;

verus! {

/// The 32-bit two's-complement value that the mathematical integer `v`
/// wraps to.
pub open spec fn wrap_i32(v: int) -> int {
    let m = v % 0x1_0000_0000;
    if m > i32::MAX {
        m - 0x1_0000_0000
    } else {
        m
    }
}

/// Wrapping leaves a value that already fits in 32 bits unchanged.
proof fn lemma_wrap_in_range(v: int)
    ensures
        i32::MIN <= v <= i32::MAX ==> wrap_i32(v) == v,
{
    if 0 <= v <= i32::MAX {
        assert(v % 0x1_0000_0000 == v);
    } else if i32::MIN <= v < 0 {
        assert(v % 0x1_0000_0000 == v + 0x1_0000_0000);
    }
}

/// Always 42.
pub fn simple() -> (r: i32)
    ensures
        r == 42,
{
    42
}

/// The sum of `a` and `b`, wrapping around on overflow.
pub fn add(a: i32, b: i32) -> (r: i32)
    ensures
        r == wrap_i32(a + b),
        i32::MIN <= a + b <= i32::MAX ==> r == a + b,
{
    proof {
        lemma_wrap_in_range(a + b);
    }
    let s: i64 = a as i64 + b as i64;
    if s > i32::MAX as i64 {
        (s - 0x1_0000_0000) as i32
    } else if s < i32::MIN as i64 {
        (s + 0x1_0000_0000) as i32
    } else {
        s as i32
    }
}

/// Adds one to every element of `a` in place, each wrapping around on
/// overflow. The length is unchanged.
pub fn array_add(a: &mut [i32])
    ensures
        final(a)@.len() == old(a)@.len(),
        forall|i: int|
            0 <= i < old(a)@.len() ==> #[trigger] final(a)@[i] == wrap_i32(old(a)@[i] + 1),
        forall|i: int|
            0 <= i < old(a)@.len() && old(a)@[i] < i32::MAX
                ==> #[trigger] final(a)@[i] == old(a)@[i] + 1,
{
    let n: usize = a.len();
    let mut i: usize = 0;
    while i < n
        invariant
            n == a@.len(),
            a@.len() == old(a)@.len(),
            0 <= i <= n,
            forall|j: int| 0 <= j < i ==> #[trigger] a@[j] == wrap_i32(old(a)@[j] + 1),
            forall|j: int| i <= j < n ==> #[trigger] a@[j] == old(a)@[j],
        decreases n - i,
    {
        let v: i32 = a[i];
        a[i] = crate::add(v, 1);
        i = i + 1;
    }
}

/// A point with two 32-bit signed coordinates.
#[derive(Clone, Copy, Debug, PartialEq, Eq, Structural)]
pub struct Point {
    pub x: i32,
    pub y: i32,
}

/// Adds one to both coordinates of `p` in place, each wrapping around on
/// overflow.
pub fn struct_add(p: &mut Point)
    ensures
        final(p).x == wrap_i32(old(p).x + 1),
        final(p).y == wrap_i32(old(p).y + 1),
        old(p).x < i32::MAX ==> final(p).x == old(p).x + 1,
        old(p).y < i32::MAX ==> final(p).y == old(p).y + 1,
{
    p.x = crate::add(p.x, 1);
    p.y = crate::add(p.y, 1);
}

/// The largest byte count that a block can have: the platform's largest
/// layout size for single-byte items.
pub const MAX_BLOCK_SIZE: usize = isize::MAX as usize;

/// A fresh block of `size` bytes, all zero, owned by the caller until it is
/// given back to `memfree` with the same size. A size beyond
/// `MAX_BLOCK_SIZE` has no layout and is not accepted.
pub fn memalloc(size: usize) -> (r: Vec<u8>)
    requires
        size <= MAX_BLOCK_SIZE,
    ensures
        r@ == Seq::new(size as nat, |_i: int| 0u8),
{
    let mut block: Vec<u8> = Vec::with_capacity(size);
    let mut i: usize = 0;
    while i < size
        invariant
            0 <= i <= size,
            block@ == Seq::new(i as nat, |_i: int| 0u8),
        decreases size - i,
    {
        block.push(0u8);
        i = i + 1;
    }
    block
}

/// Gives back a block obtained from `memalloc`, together with the size it
/// was requested with. The block is released and cannot be used again.
#[allow(unused_variables)]
pub fn memfree(block: Vec<u8>, size: usize)
    requires
        block@.len() == size,
        size <= MAX_BLOCK_SIZE,
{
    // The block is owned here and released when it goes out of scope.
}

} // verus!
