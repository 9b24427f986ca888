//! Tab ids: each tab of the window gets its own, so that engine callbacks
//! find their tab again after the tabs were reordered.
use vstd::prelude::*;

verus! {

/// `x` wrapped into the range of `i32`, as two's-complement addition wraps.
pub open spec fn wrap_i32(x: int) -> i32 {
    ((x - i32::MIN) % 0x1_0000_0000 + i32::MIN) as i32
}

/// Hands out tab ids in increasing order, wrapping around at `i32::MAX`.
pub struct TabIdAllocator {
    next: i32,
}

impl View for TabIdAllocator {
    type V = i32;

    /// The id the next call hands out.
    closed spec fn view(&self) -> i32 {
        self.next
    }
}

impl TabIdAllocator {
    /// Starts at 1: the window's initial tab has id 0.
    pub fn new() -> (ids: Self)
        ensures
            ids@ == 1,
    {
        TabIdAllocator { next: 1 }
    }
}

/// A new id for a tab; the following call hands out the next integer
/// (wrapping at `i32::MAX`).
pub fn next_tab_id(ids: &mut TabIdAllocator) -> (id: i32)
    ensures
        id == old(ids)@,
        final(ids)@ == wrap_i32(old(ids)@ + 1),
{
    let id = ids.next;
    if ids.next == i32::MAX {
        ids.next = i32::MIN;
    } else {
        ids.next = ids.next + 1;
    }
    id
}

/// The id handed out by the `k`-th call (counting from 0) after the
/// allocator stood at `start`.
pub open spec fn nth_id(start: i32, k: nat) -> i32 {
    wrap_i32(start + k)
}

/// One step of the allocator moves from the `k`-th id to the next.
pub proof fn lemma_step_advances(start: i32, k: nat)
    ensures
        wrap_i32(nth_id(start, k) + 1) == nth_id(start, k + 1),
{
    let a = start + k - i32::MIN;
    let m: int = 0x1_0000_0000;
    let r = a % m;
    assert(0 <= r < m);
    vstd::arithmetic::div_mod::lemma_fundamental_div_mod(a, m);
    vstd::arithmetic::div_mod::lemma_fundamental_div_mod(a + 1, m);
    vstd::arithmetic::div_mod::lemma_mod_add_multiples_vanish(r + 1, m);
    vstd::arithmetic::div_mod::lemma_mod_multiples_vanish(a / m, r + 1, m);
    assert(a + 1 == m * (a / m) + (r + 1));
}

/// Fewer than 2^32 successive calls never hand out the same id twice.
pub proof fn lemma_ids_distinct(start: i32, a: nat, b: nat)
    requires
        a < b < 0x1_0000_0000,
    ensures
        nth_id(start, a) != nth_id(start, b),
{
    let m: int = 0x1_0000_0000;
    let x = start + a - i32::MIN;
    let y = start + b - i32::MIN;
    vstd::arithmetic::div_mod::lemma_fundamental_div_mod(x, m);
    vstd::arithmetic::div_mod::lemma_fundamental_div_mod(y, m);
    if x % m == y % m {
        assert(y - x == m * (y / m - x / m)) by (nonlinear_arith)
            requires
                x == m * (x / m) + x % m,
                y == m * (y / m) + y % m,
                x % m == y % m,
        ;
        assert(0 < y - x < m);
        if y / m - x / m >= 1 {
            assert(m * (y / m - x / m) >= m) by (nonlinear_arith)
                requires
                    y / m - x / m >= 1,
                    m > 0,
            ;
        } else {
            assert(m * (y / m - x / m) <= 0) by (nonlinear_arith)
                requires
                    y / m - x / m <= 0,
                    m > 0,
            ;
        }
    }
}

} // verus!
