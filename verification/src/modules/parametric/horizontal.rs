//! The Horizontal geometric constraint. Objects are picked one by one,
//! not taken from a selection set, so that a polyline segment or one axis
//! of an ellipse can be addressed without ambiguity; with `2Points`, two
//! points are aligned instead.

use vstd::prelude::*;
use crate::modules::parametric::command::{
    is_report, normalize_or, report, unit_x, CmdOption, CmdResult, CoincidentPick,
    HorizontalConstraintSelection,
};
use crate::modules::parametric::reference::{
    keyword, picked_segment, single_segment, spec_keyword, spec_picked_segment, spec_single_segment, EntityKind, Handle,
    ParametricRef, PickedEntity, RefPart,
};
use crate::text::{chars_of, owned, seq_eq};

verus! {

/// Where the Horizontal command stands.
#[derive(Clone, Copy)]
pub enum HorizontalStep {
    /// `Select an object or [2Points] <2Points>:`
    ObjectOrTwoPoints,
    /// `Select first point:`
    FirstPoint,
    /// `Select second point:`, the first one made.
    SecondPoint(CoincidentPick),
}

/// Interactive front end of the Horizontal constraint.
pub struct HorizontalConstraintCommand {
    step: HorizontalStep,
    picked_entity: Option<PickedEntity>,
    /// The X axis of the working plane the editor set; `None` until it sets
    /// one, which is the world XY plane (X axis along world X).
    plane_x: Option<glam::DVec3>,
}

/// An object Horizontal cannot align.
pub const INVALID_OBJECT: &'static str = "Horizontal: select a line, straight polyline segment, text, MText, or an ellipse axis.";

/// A point pick away from every constraint point.
pub const INVALID_POINT: &'static str = "Horizontal: select an endpoint, center, midpoint, or polyline vertex.";

/// The label of the constraint this command creates.
pub open spec fn horizontal_label() -> Seq<char> {
    "Horizontal constraint"@
}

/// A point of a point pair, picked on `handle` (or in empty space).
pub open spec fn spec_point_pick(handle: Option<Handle>, point: glam::DVec3) -> CoincidentPick {
    CoincidentPick { handle, point, whole_curve: false }
}

/// `r` makes `reference` horizontal.
pub open spec fn is_reference_result(r: CmdResult, reference: ParametricRef) -> bool {
    r matches CmdResult::AddHorizontalConstraint {
        selection: HorizontalConstraintSelection::Reference(x),
        label,
        ..
    } && x == reference && label@ == horizontal_label()
}

/// `r` aligns the two points horizontally.
pub open spec fn is_points_result(r: CmdResult, first: CoincidentPick, second: CoincidentPick) -> bool {
    r matches CmdResult::AddHorizontalConstraint {
        selection: HorizontalConstraintSelection::Points(a, b),
        label,
        ..
    } && a == first && b == second && label@ == horizontal_label()
}

/// The reference a pick makes: a whole line, ray or construction line, the
/// straight polyline segment under the pick point, a text baseline, or the
/// ellipse axis nearer the pick point (the major one on a tie).
pub open spec fn spec_picked_reference(entity: PickedEntity, handle: Handle) -> Option<ParametricRef> {
    match entity.kind {
        EntityKind::Line | EntityKind::Ray | EntityKind::XLine => Some(ParametricRef { entity: handle, part: RefPart::Whole }),
        EntityKind::Polyline { .. } => spec_picked_segment(entity.kind, handle),
        EntityKind::Text | EntityKind::MText => Some(ParametricRef { entity: handle, part: RefPart::TextBaseline }),
        EntityKind::Ellipse { minor_axis_nearer: Some(minor) } => Some(ParametricRef {
            entity: handle,
            part: if minor { RefPart::EllipseMinorAxis } else { RefPart::EllipseMajorAxis },
        }),
        _ => None,
    }
}

/// The reference an object selected before the command makes: a whole
/// line, ray or construction line, a text baseline, the major axis of an
/// ellipse, or a one-segment polyline as its segment.
pub open spec fn spec_preselected_reference(entity: PickedEntity, handle: Handle) -> Option<ParametricRef> {
    match entity.kind {
        EntityKind::Line | EntityKind::Ray | EntityKind::XLine => Some(ParametricRef { entity: handle, part: RefPart::Whole }),
        EntityKind::Text | EntityKind::MText => Some(ParametricRef { entity: handle, part: RefPart::TextBaseline }),
        EntityKind::Ellipse { .. } => Some(ParametricRef { entity: handle, part: RefPart::EllipseMajorAxis }),
        EntityKind::Polyline { .. } => spec_single_segment(entity.kind, handle),
        _ => None,
    }
}

/// Whether `text` is the 2Points keyword.
pub open spec fn is_two_points_keyword(text: Seq<char>) -> bool {
    let k = spec_keyword(text);
    k == "2"@ || k == "2P"@ || k == "2POINT"@ || k == "2POINTS"@
}

/// The prompt shown at `step`.
pub open spec fn spec_prompt(step: HorizontalStep) -> Seq<char> {
    match step {
        HorizontalStep::ObjectOrTwoPoints => "GCHORIZONTAL  Select an object or [2Points] <2Points>:"@,
        HorizontalStep::FirstPoint => "GCHORIZONTAL  Select first point:"@,
        HorizontalStep::SecondPoint(_) => "GCHORIZONTAL  Select second point:"@,
    }
}

impl HorizontalConstraintCommand {
    /// The step the command is at.
    pub closed spec fn step(&self) -> HorizontalStep {
        self.step
    }

    /// The object the editor injected for the coming pick, if any.
    pub closed spec fn picked(&self) -> Option<PickedEntity> {
        self.picked_entity
    }

    /// The X axis of the working plane the editor set, along which objects
    /// are aligned; `None` for the world XY plane, aligned along world X.
    pub closed spec fn plane_x(&self) -> Option<glam::DVec3> {
        self.plane_x
    }

    /// A new command, on the world XY plane.
    pub fn new() -> (c: Self)
        ensures
            c.step() is ObjectOrTwoPoints,
            c.picked() is None,
            c.plane_x() is None,
    {
        HorizontalConstraintCommand { step: HorizontalStep::ObjectOrTwoPoints, picked_entity: None, plane_x: None }
    }

    fn point_pick(handle: Option<Handle>, point: glam::DVec3) -> (p: CoincidentPick)
        ensures
            p == spec_point_pick(handle, point),
    {
        CoincidentPick { handle, point, whole_curve: false }
    }

    /// The working plane's X axis, normalised (world X when it has no
    /// length, and on the world XY plane).
    fn direction(&self) -> glam::DVec3 {
        match self.plane_x {
            Some(x_axis) => normalize_or(x_axis, unit_x()),
            None => unit_x(),
        }
    }

    fn invalid_object() -> (r: CmdResult)
        ensures
            is_report(r, INVALID_OBJECT@),
    {
        report(INVALID_OBJECT)
    }

    fn invalid_point() -> (r: CmdResult)
        ensures
            is_report(r, INVALID_POINT@),
    {
        report(INVALID_POINT)
    }

    /// The reference a pick makes (see `spec_picked_reference`).
    pub fn picked_reference(entity: &PickedEntity, handle: Handle) -> (r: Option<ParametricRef>)
        ensures
            r == spec_picked_reference(*entity, handle),
    {
        match &entity.kind {
            EntityKind::Line | EntityKind::Ray | EntityKind::XLine => Some(ParametricRef::whole(handle)),
            EntityKind::Polyline { .. } => picked_segment(&entity.kind, handle),
            EntityKind::Text | EntityKind::MText => Some(ParametricRef::text_baseline(handle)),
            EntityKind::Ellipse { minor_axis_nearer: Some(minor) } => {
                if *minor {
                    Some(ParametricRef::ellipse_minor_axis(handle))
                } else {
                    Some(ParametricRef::ellipse_major_axis(handle))
                }
            },
            _ => None,
        }
    }

    /// The reference an object selected before the command makes (see
    /// `spec_preselected_reference`).
    pub fn preselected_reference(entity: &PickedEntity, handle: Handle) -> (r: Option<ParametricRef>)
        ensures
            r == spec_preselected_reference(*entity, handle),
    {
        match &entity.kind {
            EntityKind::Line | EntityKind::Ray | EntityKind::XLine => Some(ParametricRef::whole(handle)),
            EntityKind::Text | EntityKind::MText => Some(ParametricRef::text_baseline(handle)),
            EntityKind::Ellipse { .. } => Some(ParametricRef::ellipse_major_axis(handle)),
            EntityKind::Polyline { .. } => single_segment(&entity.kind, handle),
            _ => None,
        }
    }

    fn finish_points(&self, first: CoincidentPick, second: CoincidentPick) -> (r: CmdResult)
        ensures
            is_points_result(r, first, second),
    {
        CmdResult::AddHorizontalConstraint {
            selection: HorizontalConstraintSelection::Points(first, second),
            direction: self.direction(),
            label: "Horizontal constraint",
        }
    }

    pub fn name(&self) -> (n: &'static str)
        ensures
            n@ == "GCHORIZONTAL"@,
    {
        "GCHORIZONTAL"
    }

    pub fn prompt(&self) -> (p: String)
        ensures
            p@ == spec_prompt(self.step()),
    {
        match self.step {
            HorizontalStep::ObjectOrTwoPoints => owned("GCHORIZONTAL  Select an object or [2Points] <2Points>:"),
            HorizontalStep::FirstPoint => owned("GCHORIZONTAL  Select first point:"),
            HorizontalStep::SecondPoint(_) => owned("GCHORIZONTAL  Select second point:"),
        }
    }

    /// The 2Points option, offered at the first prompt only.
    pub fn options(&self) -> (o: Vec<CmdOption>)
        ensures
            self.step() is ObjectOrTwoPoints ==> o@.len() == 1 && o@[0].label@ == "2Points"@ && o@[0].keyword@
                == "2P"@,
            !(self.step() is ObjectOrTwoPoints) ==> o@.len() == 0,
    {
        let mut o = Vec::new();
        if matches!(self.step, HorizontalStep::ObjectOrTwoPoints) {
            o.push(CmdOption::new("2Points", "2P"));
        }
        o
    }

    pub fn wants_text_input(&self) -> (r: bool)
        ensures
            r,
    {
        true
    }

    /// Keywords are read at the first prompt only.
    pub fn point_step_accepts_keywords(&self) -> (r: bool)
        ensures
            r == (self.step() is ObjectOrTwoPoints),
    {
        matches!(self.step, HorizontalStep::ObjectOrTwoPoints)
    }

    /// `2`, `2P`, `2POINT` or `2POINTS` at the first prompt switches to two
    /// points; any other text is not a keyword of this command.
    pub fn on_text_input(&mut self, text: &str) -> (r: Option<CmdResult>)
        ensures
            final(self).picked() == old(self).picked(),
            final(self).plane_x() == old(self).plane_x(),
            if old(self).step() is ObjectOrTwoPoints && is_two_points_keyword(text@) {
                r matches Some(CmdResult::NeedPoint) && final(self).step() is FirstPoint
            } else {
                r is None && final(self).step() == old(self).step()
            },
    {
        let k = keyword(text);
        if matches!(self.step, HorizontalStep::ObjectOrTwoPoints) && (seq_eq(&k, &chars_of("2")) || seq_eq(
            &k,
            &chars_of("2P"),
        ) || seq_eq(&k, &chars_of("2POINT")) || seq_eq(&k, &chars_of("2POINTS"))) {
            self.step = HorizontalStep::FirstPoint;
            Some(CmdResult::NeedPoint)
        } else {
            None
        }
    }

    /// Sets the working plane by its X axis.
    pub fn set_working_plane(&mut self, x_axis: glam::DVec3)
        ensures
            final(self).plane_x() == Some(x_axis),
            final(self).step() == old(self).step(),
            final(self).picked() == old(self).picked(),
    {
        self.plane_x = Some(x_axis);
    }

    pub fn needs_entity_pick(&self) -> (r: bool)
        ensures
            r,
    {
        true
    }

    pub fn entity_pick_accepts_points(&self) -> (r: bool)
        ensures
            r,
    {
        true
    }

    pub fn entity_pick_highlights_hover(&self) -> (r: bool)
        ensures
            r,
    {
        true
    }

    pub fn inject_before_entity_pick(&self) -> (r: bool)
        ensures
            r,
    {
        true
    }

    /// The editor hands over the object under the coming pick.
    pub fn inject_picked_entity(&mut self, entity: PickedEntity)
        ensures
            final(self).picked() == Some(entity),
            final(self).step() == old(self).step(),
            final(self).plane_x() == old(self).plane_x(),
    {
        self.picked_entity = Some(entity);
    }

    /// A pick on an object. At the first prompt it makes the constraint on
    /// the picked object; in point mode the pick must be near a constraint
    /// point, and two such points make the constraint. A pick that found no
    /// object is a point in empty space.
    pub fn on_entity_pick(&mut self, handle: Handle, point: glam::DVec3) -> (r: CmdResult)
        ensures
            final(self).plane_x() == old(self).plane_x(),
            handle.0 == 0 ==> final(self).picked() == old(self).picked() && match old(self).step() {
                HorizontalStep::SecondPoint(first) => is_points_result(r, first, spec_point_pick(None, point))
                    && final(self).step() == old(self).step(),
                _ => r is NeedPoint && final(self).step() == HorizontalStep::SecondPoint(
                    spec_point_pick(None, point),
                ),
            },
            handle.0 != 0 ==> final(self).picked() is None && match old(self).picked() {
                None => r is NeedPoint && final(self).step() == old(self).step(),
                Some(entity) => match old(self).step() {
                    HorizontalStep::ObjectOrTwoPoints => final(self).step() == old(self).step() && match spec_picked_reference(
                        entity,
                        handle,
                    ) {
                        None => is_report(r, INVALID_OBJECT@),
                        Some(reference) => is_reference_result(r, reference),
                    },
                    HorizontalStep::FirstPoint => if !entity.near_constraint_point {
                        is_report(r, INVALID_POINT@) && final(self).step() == old(self).step()
                    } else {
                        r is NeedPoint && final(self).step() == HorizontalStep::SecondPoint(
                            spec_point_pick(Some(handle), point),
                        )
                    },
                    HorizontalStep::SecondPoint(first) => final(self).step() == old(self).step() && if !entity.near_constraint_point {
                        is_report(r, INVALID_POINT@)
                    } else {
                        is_points_result(r, first, spec_point_pick(Some(handle), point))
                    },
                },
            },
    {
        if handle.is_null() {
            return self.on_point(point);
        }
        let entity = match self.picked_entity.take() {
            Some(entity) => entity,
            None => {
                return CmdResult::NeedPoint;
            },
        };
        match self.step {
            HorizontalStep::ObjectOrTwoPoints => {
                match Self::picked_reference(&entity, handle) {
                    Some(reference) => CmdResult::AddHorizontalConstraint {
                        selection: HorizontalConstraintSelection::Reference(reference),
                        direction: self.direction(),
                        label: "Horizontal constraint",
                    },
                    None => Self::invalid_object(),
                }
            },
            HorizontalStep::FirstPoint => {
                if !entity.near_constraint_point {
                    return Self::invalid_point();
                }
                self.step = HorizontalStep::SecondPoint(Self::point_pick(Some(handle), point));
                CmdResult::NeedPoint
            },
            HorizontalStep::SecondPoint(first) => {
                if !entity.near_constraint_point {
                    return Self::invalid_point();
                }
                self.finish_points(first, Self::point_pick(Some(handle), point))
            },
        }
    }

    /// A point in empty space: it starts or completes a point pair.
    pub fn on_point(&mut self, point: glam::DVec3) -> (r: CmdResult)
        ensures
            final(self).picked() == old(self).picked(),
            final(self).plane_x() == old(self).plane_x(),
            match old(self).step() {
                HorizontalStep::SecondPoint(first) => is_points_result(r, first, spec_point_pick(None, point))
                    && final(self).step() == old(self).step(),
                _ => r is NeedPoint && final(self).step() == HorizontalStep::SecondPoint(
                    spec_point_pick(None, point),
                ),
            },
    {
        let pick = Self::point_pick(None, point);
        match self.step {
            HorizontalStep::SecondPoint(first) => self.finish_points(first, pick),
            _ => {
                self.step = HorizontalStep::SecondPoint(pick);
                CmdResult::NeedPoint
            },
        }
    }

    /// Enter at the first prompt takes the default, 2Points; elsewhere it
    /// ends the command.
    pub fn on_enter(&mut self) -> (r: CmdResult)
        ensures
            final(self).picked() == old(self).picked(),
            final(self).plane_x() == old(self).plane_x(),
            old(self).step() is ObjectOrTwoPoints ==> r is NeedPoint && final(self).step() is FirstPoint,
            !(old(self).step() is ObjectOrTwoPoints) ==> r is Cancel && final(self).step() == old(self).step(),
    {
        if matches!(self.step, HorizontalStep::ObjectOrTwoPoints) {
            self.step = HorizontalStep::FirstPoint;
            CmdResult::NeedPoint
        } else {
            CmdResult::Cancel
        }
    }

    pub fn on_escape(&mut self) -> (r: CmdResult)
        ensures
            r is Cancel,
            final(self).step() == old(self).step(),
            final(self).picked() == old(self).picked(),
            final(self).plane_x() == old(self).plane_x(),
    {
        CmdResult::Cancel
    }
}


/// A pick on an ellipse addresses the axis nearer the pick point: the
/// major axis unless the minor one is nearer, and nothing when the axes
/// could not be measured.
pub proof fn law_ellipse_pick_takes_the_nearer_axis(entity: PickedEntity, handle: Handle)
    requires
        entity.kind is Ellipse,
    ensures
        entity.kind == (EntityKind::Ellipse { minor_axis_nearer: Some(false) }) ==> spec_picked_reference(
            entity,
            handle,
        ) == Some(ParametricRef { entity: handle, part: RefPart::EllipseMajorAxis }),
        entity.kind == (EntityKind::Ellipse { minor_axis_nearer: Some(true) }) ==> spec_picked_reference(
            entity,
            handle,
        ) == Some(ParametricRef { entity: handle, part: RefPart::EllipseMinorAxis }),
        entity.kind == (EntityKind::Ellipse { minor_axis_nearer: None }) ==> spec_picked_reference(entity, handle)
            is None,
        spec_picked_reference(entity, handle) matches Some(r) ==> r.entity == handle && (r.part
            == RefPart::EllipseMinorAxis <==> entity.kind == (EntityKind::Ellipse {
            minor_axis_nearer: Some(true),
        })),
{
}

} // verus!
