//! Deterministic role assignment from the population size.

use vstd::prelude::*;

use crate::roles::Role;

verus! {

/// The smallest population size the fixed role table covers.
pub const MIN_ASSIGNABLE_PERSONS: u64 = 5;

/// The largest population size the fixed role table covers.
pub const MAX_ASSIGNABLE_PERSONS: u64 = 10;

/// The fixed role table: the role of slot `i` in a population of size `n`.
/// The first slots carry the special roles, growing with the population;
/// every remaining slot is a plain villager.
pub open spec fn spec_role_at(n: int, i: int) -> Role {
    if i == 0 {
        Role::Wolf
    } else if i == 1 {
        Role::Seer
    } else if i == 2 && n >= 6 {
        Role::Doctor
    } else if i == 3 && n >= 7 {
        Role::MasterWolf
    } else if i == 6 && n == 10 {
        Role::Wolf
    } else {
        Role::Villager
    }
}

/// The role of slot `slot` in a population of size `len`, per the fixed table.
pub fn role_at(len: u64, slot: u64) -> (r: Role)
    requires
        MIN_ASSIGNABLE_PERSONS <= len <= MAX_ASSIGNABLE_PERSONS,
        slot < len,
    ensures
        r == spec_role_at(len as int, slot as int),
{
    if slot == 0 {
        Role::Wolf
    } else if slot == 1 {
        Role::Seer
    } else if slot == 2 && len >= 6 {
        Role::Doctor
    } else if slot == 3 && len >= 7 {
        Role::MasterWolf
    } else if slot == 6 && len == 10 {
        Role::Wolf
    } else {
        Role::Villager
    }
}

/// One role per participant for a population of `len` persons, following the
/// fixed table. The population bounds are a hard precondition: the populating
/// phase's minimum and maximum exist precisely so that this function is never
/// reached outside its domain.
pub fn roles(len: u64) -> (r: Vec<Role>)
    requires
        MIN_ASSIGNABLE_PERSONS <= len <= MAX_ASSIGNABLE_PERSONS,
    ensures
        r@.len() == len,
        forall|i: int| 0 <= i < len ==> #[trigger] r@[i] == spec_role_at(len as int, i),
{
    let mut arr = Vec::<Role>::new();
    let mut slot: u64 = 0;
    while slot < len
        invariant
            MIN_ASSIGNABLE_PERSONS <= len <= MAX_ASSIGNABLE_PERSONS,
            slot <= len,
            arr@.len() == slot,
            forall|i: int| 0 <= i < slot ==> arr@[i] == spec_role_at(len as int, i),
        decreases len - slot,
    {
        arr.push(role_at(len, slot));
        slot = slot + 1;
    }
    arr
}

/// Role assignment is a function of the population size alone: any two role
/// lists that both follow the fixed table for the same size are equal.
pub proof fn lemma_assignment_deterministic(n: int, a: Seq<Role>, b: Seq<Role>)
    requires
        a.len() == n,
        b.len() == n,
        forall|i: int| 0 <= i < n ==> a[i] == spec_role_at(n, i),
        forall|i: int| 0 <= i < n ==> b[i] == spec_role_at(n, i),
    ensures
        a =~= b,
{
}

} // verus!
