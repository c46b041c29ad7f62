use vstd::prelude::*;

verus! {

/// What the owner of the reaction slot must do to start a new reaction: tear down
/// `cancel`, if any, and only then start the reaction numbered `start`.
#[derive(Clone, Copy, Debug, PartialEq, Eq, Structural)]
pub struct Handoff {
    pub cancel: Option<u64>,
    pub start: u64,
}

/// The single slot that holds the currently active reaction, by number.
///
/// Reactions are numbered in the order they are started; `next_id` is the number
/// the next one gets.
#[derive(Clone, Copy, Debug, PartialEq, Eq, Structural)]
pub struct ReactionSlot {
    pub active: Option<u64>,
    pub next_id: u64,
}

pub open spec fn successor(id: u64) -> u64 {
    if id == u64::MAX {
        0
    } else {
        (id + 1) as u64
    }
}

impl ReactionSlot {
    /// The slot after a new reaction replaced whatever was active.
    pub open spec fn replaced(self) -> ReactionSlot {
        ReactionSlot { active: Some(self.next_id), next_id: successor(self.next_id) }
    }

    /// The hand-off that goes with `replaced`.
    pub open spec fn handoff(self) -> Handoff {
        Handoff { cancel: self.active, start: self.next_id }
    }

    pub open spec fn new_spec() -> ReactionSlot {
        ReactionSlot { active: None, next_id: 0 }
    }

    /// An empty slot; the first reaction gets number 0.
    pub fn new() -> (r: ReactionSlot)
        ensures
            r == ReactionSlot::new_spec(),
    {
        ReactionSlot { active: None, next_id: 0 }
    }

    /// Make a new reaction the active one. The previous one, if any, is named in
    /// the result to be cancelled first.
    pub fn replace(&mut self) -> (r: Handoff)
        ensures
            r == old(self).handoff(),
            *final(self) == old(self).replaced(),
    {
        let r = Handoff { cancel: self.active, start: self.next_id };
        self.active = Some(self.next_id);
        self.next_id = self.next_id.wrapping_add(1);
        r
    }

    /// A reaction reports that it ran to its end. The slot empties if that reaction
    /// is still the active one; a superseded reaction changes nothing.
    pub fn finished(&mut self, id: u64) -> (r: bool)
        ensures
            r == (old(self).active == Some(id)),
            final(self).next_id == old(self).next_id,
            final(self).active == if r { None } else { old(self).active },
    {
        let is_active = match self.active {
            Some(a) => a == id,
            None => false,
        };
        if is_active {
            self.active = None;
        }
        is_active
    }
}

/// Starting a reaction while another is active leaves exactly one active: the new
/// one, and the hand-off names the previous one for teardown before it starts.
pub proof fn lemma_replace_single_active(slot: ReactionSlot)
    requires
        slot.active.is_some(),
    ensures
        slot.replaced().active == Some(slot.handoff().start),
        slot.handoff().cancel == slot.active,
        slot.replaced().replaced().active == Some(slot.replaced().handoff().start),
        slot.replaced().handoff().cancel == Some(slot.handoff().start),
{
}

} // verus!
