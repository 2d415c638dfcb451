//! A transient copy of one persisted participant record.

use vstd::prelude::*;

use crate::roles::Role;

verus! {

/// One participant of a session, as fetched from the persistence
/// collaborator: the core never caches these long-term.
#[derive(Debug)]
pub struct Person {
    pub person_id: String,
    pub village_id: String,
    pub is_alive: bool,
    pub role_code: u8,
    pub eatable: bool,
}

impl Clone for Person {
    /// An exact copy of this person record.
    fn clone(&self) -> (r: Person)
        ensures
            r == *self,
    {
        Person {
            person_id: self.person_id.clone(),
            village_id: self.village_id.clone(),
            is_alive: self.is_alive,
            role_code: self.role_code,
            eatable: self.eatable,
        }
    }
}

impl Person {
    /// A freshly joined person: alive, with the given role code.
    pub fn new(person_id: String, village_id: &str, role_code: u8, eatable: bool) -> (r: Person)
        ensures
            r.person_id == person_id,
            r.village_id@ == village_id@,
            r.is_alive == true,
            r.role_code == role_code,
            r.eatable == eatable,
    {
        Person {
            person_id,
            village_id: village_id.to_owned(),
            is_alive: true,
            role_code,
            eatable,
        }
    }

    /// A copy of this person's identity token.
    pub fn get_id(&self) -> (r: String)
        ensures
            r == self.person_id,
    {
        self.person_id.clone()
    }

    /// The role this person's persisted role code stands for.
    pub fn get_role(&self) -> (r: Role)
        ensures
            r == Role::spec_from_code(self.role_code),
    {
        Role::from_code(self.role_code)
    }
}

} // verus!
