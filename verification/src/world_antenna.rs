//! Typed questions to the registry and its answers.
//!
//! The synchronous query channel beside the registry's event stream: the
//! channel plumbing lives outside the core; the registry's answering rule is
//! `World::answer_whats_asked`.

use vstd::prelude::*;

verus! {

/// One question the outside may ask the registry synchronously.
#[derive(Clone, Debug)]
pub enum AskWorld {
    RawString(String),
    AskVillageName(String),
}

/// The registry's answer to one question.
#[derive(Clone, Debug)]
pub enum WorldAnswered {
    RawString(String),
    VillageName(Option<String>),
}

/// The session name a name answer carries; any other answer carries none.
pub fn village_name_of_answer(answer: WorldAnswered) -> (r: Option<String>)
    ensures
        answer matches WorldAnswered::VillageName(n) ==> r == n,
        !(answer is VillageName) ==> r is None,
{
    match answer {
        WorldAnswered::VillageName(n) => n,
        _ => None,
    }
}

/// The text an echo answer carries; any other answer carries none.
pub fn raw_string_of_answer(answer: WorldAnswered) -> (r: Option<String>)
    ensures
        answer matches WorldAnswered::RawString(s) ==> r == Some(s),
        !(answer is RawString) ==> r is None,
{
    match answer {
        WorldAnswered::RawString(s) => Some(s),
        _ => None,
    }
}

} // verus!
