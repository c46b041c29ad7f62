use decibender::ReactionSlot;

#[test]
fn second_reaction_cancels_the_first() {
    let mut slot = ReactionSlot::new();
    let first = slot.replace();
    assert_eq!(first.cancel, None);
    assert_eq!(slot.active, Some(first.start));
    let second = slot.replace();
    assert_eq!(second.cancel, Some(first.start));
    assert_eq!(slot.active, Some(second.start));
    assert_ne!(first.start, second.start);
}

#[test]
fn finished_reaction_empties_only_its_own_slot() {
    let mut slot = ReactionSlot::new();
    let first = slot.replace();
    let second = slot.replace();
    assert!(!slot.finished(first.start));
    assert_eq!(slot.active, Some(second.start));
    assert!(slot.finished(second.start));
    assert_eq!(slot.active, None);
    assert_eq!(slot.replace().cancel, None);
}

#[test]
fn reaction_numbers_wrap_around() {
    let mut slot = ReactionSlot { active: None, next_id: u64::MAX };
    assert_eq!(slot.replace().start, u64::MAX);
    assert_eq!(slot.next_id, 0);
}
