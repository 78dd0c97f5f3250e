use glam::DVec3;
use opencadstudio::modules::parametric::command::{CmdResult, ConstraintKind, HorizontalConstraintSelection};
use opencadstudio::modules::parametric::constraint_bar::ConstraintBarOptionCommand;
use opencadstudio::modules::parametric::equal::{EqualConstraintCommand, INVALID_OBJECT, NO_OBJECT, SAME_OBJECT};
use opencadstudio::modules::parametric::horizontal::{self, HorizontalConstraintCommand};
use opencadstudio::modules::parametric::reference::{keyword, EntityKind, Handle, ParametricRef, PickedEntity};
use opencadstudio::modules::parametric::smooth::{SmoothConstraintCommand, NO_CONSTRAINT_POINT};

fn entity(kind: EntityKind) -> PickedEntity {
    PickedEntity { kind, near_constraint_point: false }
}

fn line() -> PickedEntity {
    entity(EntityKind::Line)
}

fn polyline(closed: bool, straight: Vec<bool>, picked_segment: Option<i32>) -> PickedEntity {
    entity(EntityKind::Polyline { closed, straight, picked_segment })
}

fn reported(r: &CmdResult) -> Option<&str> {
    match r {
        CmdResult::ReportError(m) => Some(m.as_str()),
        _ => None,
    }
}

// ── Equal ──

#[test]
fn two_picks_make_the_second_follow_the_first() {
    let mut command = EqualConstraintCommand::new();
    command.inject_picked_entity(line());
    assert!(matches!(command.on_entity_pick(Handle::new(7), DVec3::ZERO), CmdResult::NeedPoint));
    command.inject_picked_entity(line());
    let CmdResult::AddEqualConstraint { first, others, .. } = command.on_entity_pick(Handle::new(8), DVec3::ZERO) else {
        panic!("the second pick must create the constraint");
    };
    assert_eq!(first, ParametricRef::whole(Handle::new(7)));
    assert_eq!(others, vec![ParametricRef::whole(Handle::new(8))]);
}

#[test]
fn multiple_applies_the_gathered_set_on_enter() {
    let mut command = EqualConstraintCommand::new();
    assert!(matches!(command.on_text_input("M"), Some(CmdResult::NeedPoint)));
    command.inject_picked_entity(line());
    command.on_entity_pick(Handle::new(7), DVec3::ZERO);
    assert!(command.is_selection_gathering());
    command.on_selection_complete(vec![Handle::new(7), Handle::new(8), Handle::new(9)]);
    let CmdResult::AddEqualConstraint { others, .. } = command.on_enter() else {
        panic!("Enter must apply the set");
    };
    assert_eq!(others.len(), 2);
    assert_eq!(others, vec![ParametricRef::whole(Handle::new(8)), ParametricRef::whole(Handle::new(9))]);
}

#[test]
fn equal_refuses_the_same_object_twice_and_empty_picks() {
    let mut command = EqualConstraintCommand::new();
    assert_eq!(reported(&command.on_entity_pick(Handle::new(0), DVec3::ZERO)), Some(NO_OBJECT));
    assert_eq!(reported(&command.on_point(DVec3::ZERO)), Some(NO_OBJECT));
    command.inject_picked_entity(entity(EntityKind::Text));
    assert_eq!(reported(&command.on_entity_pick(Handle::new(3), DVec3::ZERO)), Some(INVALID_OBJECT));
    command.inject_picked_entity(entity(EntityKind::Circle));
    command.on_entity_pick(Handle::new(3), DVec3::ZERO);
    command.inject_picked_entity(entity(EntityKind::Circle));
    assert_eq!(reported(&command.on_entity_pick(Handle::new(3), DVec3::ZERO)), Some(SAME_OBJECT));
    assert_eq!(command.prompt(), "GCEQUAL  Select second object:");
}

#[test]
fn equal_prompts_follow_the_steps() {
    let mut command = EqualConstraintCommand::new();
    assert_eq!(command.prompt(), "GCEQUAL  Select first object or [Multiple]:");
    assert_eq!(command.options().len(), 1);
    assert!(command.on_text_input("  _multiple ").is_some());
    assert_eq!(command.prompt(), "GCEQUAL  Select first object:");
    assert!(command.options().is_empty());
    command.inject_picked_entity(entity(EntityKind::Arc));
    command.on_entity_pick(Handle::new(1), DVec3::ZERO);
    assert_eq!(command.prompt(), "GCEQUAL  Select objects to make equal to the first:");
    let handles: Vec<Handle> = (1..=13).map(Handle::new).collect();
    command.on_selection_complete(handles);
    assert_eq!(
        command.prompt(),
        "GCEQUAL  Select objects to make equal to the first (12 selected, Enter to apply):"
    );
}

#[test]
fn enter_without_a_set_cancels() {
    let mut command = EqualConstraintCommand::new();
    assert!(matches!(command.on_enter(), CmdResult::Cancel));
    assert!(command.on_text_input("X").is_none());
}

#[test]
fn a_polyline_segment_is_taken_only_when_straight() {
    let h = Handle::new(5);
    let straight = polyline(false, vec![true, false, true], Some(2));
    assert_eq!(EqualConstraintCommand::picked_reference(&straight, h), Some(ParametricRef::segment(h, 2)));
    let bulged = polyline(false, vec![true, false, true], Some(1));
    assert_eq!(EqualConstraintCommand::picked_reference(&bulged, h), None);
    let negative = polyline(false, vec![true], Some(-1));
    assert_eq!(EqualConstraintCommand::picked_reference(&negative, h), None);
    let one_segment = polyline(false, vec![true, true], None);
    assert_eq!(EqualConstraintCommand::whole_reference(&one_segment, h), Some(ParametricRef::segment(h, 0)));
    let two_segments = polyline(true, vec![true, true], None);
    assert_eq!(EqualConstraintCommand::whole_reference(&two_segments, h), None);
}

// ── Horizontal ──

#[test]
fn horizontal_on_an_object_at_once() {
    let mut command = HorizontalConstraintCommand::new();
    command.inject_picked_entity(entity(EntityKind::Ellipse { minor_axis_nearer: Some(true) }));
    let r = command.on_entity_pick(Handle::new(4), DVec3::ZERO);
    let CmdResult::AddHorizontalConstraint { selection: HorizontalConstraintSelection::Reference(r), direction, .. } = r
    else {
        panic!("an ellipse pick makes the constraint");
    };
    assert_eq!(r, ParametricRef::ellipse_minor_axis(Handle::new(4)));
    assert_eq!(direction, DVec3::X);
}

#[test]
fn horizontal_two_points_and_the_plane_direction() {
    let mut command = HorizontalConstraintCommand::new();
    command.set_working_plane(DVec3::new(0.0, 2.0, 0.0));
    assert!(matches!(command.on_enter(), CmdResult::NeedPoint));
    assert_eq!(command.prompt(), "GCHORIZONTAL  Select first point:");
    command.inject_picked_entity(line());
    assert_eq!(reported(&command.on_entity_pick(Handle::new(9), DVec3::ONE)), Some(horizontal::INVALID_POINT));
    command.inject_picked_entity(PickedEntity { kind: EntityKind::Line, near_constraint_point: true });
    assert!(matches!(command.on_entity_pick(Handle::new(9), DVec3::ONE), CmdResult::NeedPoint));
    let r = command.on_point(DVec3::new(3.0, 4.0, 0.0));
    let CmdResult::AddHorizontalConstraint {
        selection: HorizontalConstraintSelection::Points(a, b),
        direction,
        ..
    } = r
    else {
        panic!("the second point makes the constraint");
    };
    assert_eq!(a.handle, Some(Handle::new(9)));
    assert_eq!(a.point, DVec3::ONE);
    assert_eq!(b.handle, None);
    assert_eq!(b.point, DVec3::new(3.0, 4.0, 0.0));
    assert_eq!(direction, DVec3::Y);
}

#[test]
fn horizontal_keywords_and_bad_objects() {
    let mut command = HorizontalConstraintCommand::new();
    command.inject_picked_entity(entity(EntityKind::Circle));
    assert_eq!(reported(&command.on_entity_pick(Handle::new(2), DVec3::ZERO)), Some(horizontal::INVALID_OBJECT));
    assert!(command.on_text_input("3P").is_none());
    assert!(matches!(command.on_text_input("2points"), Some(CmdResult::NeedPoint)));
    assert!(command.on_text_input("2P").is_none());
    assert!(matches!(command.on_enter(), CmdResult::Cancel));
}

#[test]
fn a_preselected_ellipse_gives_its_major_axis() {
    let h = Handle::new(11);
    let e = entity(EntityKind::Ellipse { minor_axis_nearer: Some(true) });
    assert_eq!(HorizontalConstraintCommand::preselected_reference(&e, h), Some(ParametricRef::ellipse_major_axis(h)));
    assert_eq!(
        HorizontalConstraintCommand::preselected_reference(&entity(EntityKind::MText), h),
        Some(ParametricRef::text_baseline(h))
    );
    assert_eq!(HorizontalConstraintCommand::preselected_reference(&entity(EntityKind::Arc), h), None);
}

// ── Constraint bar ──

#[test]
fn constraint_bar_hands_its_objects_over_once() {
    let mut command = ConstraintBarOptionCommand::new(vec![Handle::new(1), Handle::new(2)]);
    assert!(command.on_text_input("nothing").is_none());
    let Some(CmdResult::Relaunch(name, handles)) = command.on_text_input(" h ") else {
        panic!("Hide relaunches");
    };
    assert_eq!(name, "GCHIDE");
    assert_eq!(handles, vec![Handle::new(1), Handle::new(2)]);
    let CmdResult::Relaunch(name, handles) = command.on_enter() else {
        panic!("Enter relaunches");
    };
    assert_eq!(name, "GCSHOW");
    assert!(handles.is_empty());
}

#[test]
fn constraint_bar_reset_keyword() {
    let mut command = ConstraintBarOptionCommand::new(vec![Handle::new(3)]);
    let Some(CmdResult::Relaunch(name, _)) = command.on_text_input("_RESET") else {
        panic!("Reset relaunches");
    };
    assert_eq!(name, "CONSTRAINTBAR_RESET");
    assert_eq!(command.options().len(), 3);
}

// ── Smooth ──

#[test]
fn smooth_takes_the_nearer_end_of_an_open_spline() {
    let mut command = SmoothConstraintCommand::new();
    command.inject_picked_entity(entity(EntityKind::Spline { closed: false, periodic: false, nearer_end: Some(1) }));
    let CmdResult::AddParametricConstraint { kind, refs, label } = command.on_entity_pick(Handle::new(6), DVec3::ZERO) else {
        panic!("an open spline makes the constraint");
    };
    assert_eq!(kind, ConstraintKind::Smooth);
    assert_eq!(refs, vec![ParametricRef::point(Handle::new(6), 1)]);
    assert_eq!(label, "Smooth constraint");
}

#[test]
fn smooth_refuses_a_closed_spline() {
    let mut command = SmoothConstraintCommand::new();
    command.inject_picked_entity(entity(EntityKind::Spline { closed: true, periodic: false, nearer_end: Some(0) }));
    assert_eq!(reported(&command.on_entity_pick(Handle::new(6), DVec3::ZERO)), Some(NO_CONSTRAINT_POINT));
    assert!(matches!(command.on_entity_pick(Handle::new(6), DVec3::ZERO), CmdResult::NeedPoint));
}

#[test]
fn keywords_are_trimmed_unprefixed_and_upper_cased() {
    assert_eq!(keyword("  __mUlt "), "MULT".chars().collect::<Vec<char>>());
    assert_eq!(keyword("é"), vec!['é']);
}
