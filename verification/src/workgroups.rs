//! How many workgroups a dispatch needs to cover a buffer.

use vstd::prelude::*;
use vstd::arithmetic::div_mod::lemma_fundamental_div_mod;

verus! {

/// Size in bytes of the storage buffer and of the staging buffer.
pub const BUFFER_SIZE: u64 = 640;

/// Invocations in one workgroup, as the kernel declares them.
pub const WORKGROUP_SIZE: u32 = 64;

/// `groups` workgroups of `local_size` invocations reach every one of
/// `elements` elements.
pub open spec fn covers(groups: nat, local_size: nat, elements: nat) -> bool {
    groups * local_size >= elements
}

/// The quotient of `elements` by `local_size`, rounded up.
pub open spec fn groups_needed(elements: nat, local_size: nat) -> nat
    recommends
        local_size > 0,
{
    if elements % local_size == 0 {
        elements / local_size
    } else {
        elements / local_size + 1
    }
}

/// The rounded-up quotient is the least number of workgroups that covers the
/// elements: it covers them, and no smaller number does.
pub proof fn lemma_groups_needed_is_least(elements: nat, local_size: nat, fewer: nat)
    requires
        local_size > 0,
    ensures
        covers(groups_needed(elements, local_size), local_size, elements),
        fewer < groups_needed(elements, local_size) ==> !covers(fewer, local_size, elements),
{
    let whole = elements / local_size;
    let rest = elements % local_size;
    lemma_fundamental_div_mod(elements as int, local_size as int);
    assert(elements == local_size * whole + rest);
    assert(local_size * whole == whole * local_size) by (nonlinear_arith);
    assert((whole + 1) * local_size == whole * local_size + local_size) by (nonlinear_arith);
    if fewer < groups_needed(elements, local_size) {
        if rest == 0 {
            assert(fewer * local_size <= (whole - 1) * local_size) by (nonlinear_arith)
                requires
                    fewer <= whole - 1,
            ;
            assert((whole - 1) * local_size == whole * local_size - local_size)
                by (nonlinear_arith);
        } else {
            assert(fewer * local_size <= whole * local_size) by (nonlinear_arith)
                requires
                    fewer <= whole,
            ;
        }
    }
}

/// The number of workgroups of `local_size` invocations to dispatch over
/// `elements` elements: the quotient rounded up.
///
/// There is no such number when a workgroup has no invocations, and none that
/// a dispatch can take when it is more than `u32::MAX`.
pub fn workgroup_count(elements: u64, local_size: u32) -> (count: Option<u32>)
    ensures
        count is Some <==> local_size > 0 && groups_needed(elements as nat, local_size as nat)
            <= u32::MAX,
        count matches Some(groups) ==> groups == groups_needed(elements as nat, local_size as nat),
{
    if local_size == 0 {
        return None;
    }
    let width: u64 = local_size as u64;
    let whole: u64 = elements / width;
    let rest: u64 = elements % width;
    if rest == 0 {
        if whole > u32::MAX as u64 {
            None
        } else {
            Some(whole as u32)
        }
    } else {
        if whole >= u32::MAX as u64 {
            None
        } else {
            Some((whole + 1) as u32)
        }
    }
}

} // verus!
