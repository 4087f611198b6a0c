use vstd::prelude::*;
use crate::contact::Contact;

verus! {

/// What the substep loop does after searching for the earliest contact.
#[derive(Debug, Clone, Copy, PartialEq, Eq, Structural)]
pub enum SubstepAction {
    /// Advance to just before the contact, respond to it, and search again.
    Resolve(Contact),
    /// Commit every body's motion over the remaining time and end the tick.
    Commit,
}

pub open spec fn next_action_spec(resolved: usize, cap: usize, found: Option<Contact>) -> SubstepAction {
    match found {
        Some(c) => if resolved < cap {
            SubstepAction::Resolve(c)
        } else {
            SubstepAction::Commit
        },
        None => SubstepAction::Commit,
    }
}

/// Decides the next step of a tick in which `resolved` contacts have already
/// been resolved. A found contact is resolved while fewer than `cap` have
/// been; past that the remaining motion is committed unresolved, so a tick
/// never resolves more than `cap` contacts.
pub fn next_action(resolved: usize, cap: usize, found: Option<Contact>) -> (r: SubstepAction)
    ensures
        r == next_action_spec(resolved, cap, found),
        resolved >= cap ==> r == SubstepAction::Commit,
{
    match found {
        Some(c) => if resolved < cap {
            SubstepAction::Resolve(c)
        } else {
            SubstepAction::Commit
        },
        None => SubstepAction::Commit,
    }
}

/// How many contacts a tick resolves when its successive searches find
/// `found`, starting with `resolved` already resolved; the tick ends at the
/// first commit.
pub open spec fn resolved_in_tick(found: Seq<Option<Contact>>, resolved: nat, cap: nat) -> nat
    decreases found.len(),
{
    if found.len() == 0 {
        0
    } else if resolved < cap && found[0].is_some() {
        1 + resolved_in_tick(found.drop_first(), resolved + 1, cap)
    } else {
        0
    }
}

/// Whatever the searches find, a tick resolves at most `cap` contacts before
/// it commits: the substep loop always terminates.
pub proof fn lemma_tick_resolves_at_most_cap(found: Seq<Option<Contact>>, cap: nat)
    ensures
        resolved_in_tick(found, 0, cap) <= cap,
{
    lemma_resolved_bound(found, 0, cap);
}

proof fn lemma_resolved_bound(found: Seq<Option<Contact>>, resolved: nat, cap: nat)
    ensures
        resolved_in_tick(found, resolved, cap) + resolved <= if resolved <= cap { cap } else { resolved },
    decreases found.len(),
{
    if found.len() > 0 && resolved < cap && found[0].is_some() {
        lemma_resolved_bound(found.drop_first(), resolved + 1, cap);
    }
}

/// `resolved_in_tick` is the count of `Resolve` decisions that `next_action`
/// makes along the searches.
pub proof fn lemma_next_action_matches_tick(found: Seq<Option<Contact>>, resolved: usize, cap: usize)
    requires
        found.len() > 0,
    ensures
        (next_action_spec(resolved, cap, found[0]) is Resolve) <==> resolved_in_tick(found, resolved as nat, cap as nat) > 0,
{
}

} // verus!
