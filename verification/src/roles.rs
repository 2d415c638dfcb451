//! The fixed role enumeration and its properties.

use vstd::prelude::*;

verus! {

/// A participant's role. `Wolf` and `MasterWolf` are the wolf roles; every
/// other role is "eatable" (a valid target for the wolves at night).
#[derive(Clone, Copy, Debug, PartialEq, Eq, Structural)]
pub enum Role {
    NoRole,
    Villager,
    Wolf,
    MasterWolf,
    Seer,
    Doctor,
}

impl Role {
    /// True for every role except the wolf roles.
    pub open spec fn spec_is_eatable(&self) -> bool {
        !(self is Wolf || self is MasterWolf)
    }

    /// Whether a person holding this role may be targeted by the wolves.
    pub fn is_eatable(&self) -> (r: bool)
        ensures
            r == self.spec_is_eatable(),
    {
        match self {
            Role::Wolf => false,
            Role::MasterWolf => false,
            _ => true,
        }
    }

    /// The persisted integer code of each role.
    pub open spec fn spec_to_code(self) -> u8 {
        match self {
            Role::NoRole => 0,
            Role::Villager => 1,
            Role::Wolf => 2,
            Role::MasterWolf => 3,
            Role::Seer => 4,
            Role::Doctor => 5,
        }
    }

    /// The role a persisted integer code stands for; unknown codes fall back
    /// to `NoRole`.
    pub open spec fn spec_from_code(code: u8) -> Role {
        if code == 1 {
            Role::Villager
        } else if code == 2 {
            Role::Wolf
        } else if code == 3 {
            Role::MasterWolf
        } else if code == 4 {
            Role::Seer
        } else if code == 5 {
            Role::Doctor
        } else {
            Role::NoRole
        }
    }

    /// Encodes this role as its persisted integer code.
    pub fn to_code(self) -> (r: u8)
        ensures
            r == self.spec_to_code(),
    {
        match self {
            Role::NoRole => 0,
            Role::Villager => 1,
            Role::Wolf => 2,
            Role::MasterWolf => 3,
            Role::Seer => 4,
            Role::Doctor => 5,
        }
    }

    /// Decodes a persisted integer code into a role.
    pub fn from_code(code: u8) -> (r: Role)
        ensures
            r == Role::spec_from_code(code),
    {
        match code {
            0 => Role::NoRole,
            1 => Role::Villager,
            2 => Role::Wolf,
            3 => Role::MasterWolf,
            4 => Role::Seer,
            5 => Role::Doctor,
            _ => Role::NoRole,
        }
    }
}

/// Encoding a role and decoding it again gives the role back.
pub proof fn lemma_role_code_round_trip(role: Role)
    ensures
        Role::spec_from_code(role.spec_to_code()) == role,
{
}

} // verus!
