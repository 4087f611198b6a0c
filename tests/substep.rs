use rigid_ccd::contact::Contact;
use rigid_ccd::substep::{next_action, SubstepAction};

fn contact() -> Contact {
    Contact { time: 0.25f32.to_bits(), vertex_body: 0, triangle_body: 1, vertex: 3, triangle: 1 }
}

#[test]
fn found_contact_is_resolved_below_cap() {
    assert_eq!(next_action(0, 64, Some(contact())), SubstepAction::Resolve(contact()));
    assert_eq!(next_action(63, 64, Some(contact())), SubstepAction::Resolve(contact()));
}

#[test]
fn no_contact_commits() {
    assert_eq!(next_action(0, 64, None), SubstepAction::Commit);
}

#[test]
fn cap_reached_commits_unresolved() {
    assert_eq!(next_action(64, 64, Some(contact())), SubstepAction::Commit);
    assert_eq!(next_action(0, 0, Some(contact())), SubstepAction::Commit);
}
