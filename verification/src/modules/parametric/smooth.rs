//! The Smooth (G2) geometric constraint, started on an open spline: the
//! end of the spline nearer the pick is the constraint point, and the
//! editor finds the curve it meets from an existing Coincident relation.

use vstd::prelude::*;
use crate::modules::parametric::command::{is_report, report, CmdResult, ConstraintKind};
use crate::text::owned;
use crate::modules::parametric::reference::{EntityKind, Handle, ParametricRef, PickedEntity, RefPart};

verus! {

/// Interactive front end of the Smooth constraint.
pub struct SmoothConstraintCommand {
    picked_entity: Option<PickedEntity>,
}

/// A pick that gave no constraint point.
pub const NO_CONSTRAINT_POINT: &'static str = "No valid constraint point found.";

/// The constraint point a pick on an open spline makes: the end nearer the
/// pick point. Closed and periodic splines have no end.
pub open spec fn spec_source_reference(entity: PickedEntity, handle: Handle) -> Option<ParametricRef> {
    match entity.kind {
        EntityKind::Spline { closed, periodic, nearer_end } => if closed || periodic {
            None
        } else {
            match nearer_end {
                Some(marker) => Some(ParametricRef { entity: handle, part: RefPart::Point(marker) }),
                None => None,
            }
        },
        _ => None,
    }
}

/// `r` adds the Smooth constraint at `source`.
pub open spec fn is_smooth_result(r: CmdResult, source: ParametricRef) -> bool {
    r matches CmdResult::AddParametricConstraint { kind, refs, label } && kind == ConstraintKind::Smooth
        && refs@ == seq![source] && label@ == "Smooth constraint"@
}

impl SmoothConstraintCommand {
    /// The object the editor injected for the coming pick, if any.
    pub closed spec fn picked(&self) -> Option<PickedEntity> {
        self.picked_entity
    }

    pub fn new() -> (c: Self)
        ensures
            c.picked() is None,
    {
        SmoothConstraintCommand { picked_entity: None }
    }

    /// The constraint point a pick makes (see `spec_source_reference`).
    pub fn source_reference(entity: &PickedEntity, handle: Handle) -> (r: Option<ParametricRef>)
        ensures
            r == spec_source_reference(*entity, handle),
    {
        match &entity.kind {
            EntityKind::Spline { closed, periodic, nearer_end } => {
                if *closed || *periodic {
                    None
                } else {
                    match nearer_end {
                        Some(marker) => Some(ParametricRef::point(handle, *marker)),
                        None => None,
                    }
                }
            },
            _ => None,
        }
    }

    fn invalid_selection() -> (r: CmdResult)
        ensures
            is_report(r, NO_CONSTRAINT_POINT@),
    {
        report(NO_CONSTRAINT_POINT)
    }

    pub fn name(&self) -> (n: &'static str)
        ensures
            n@ == "GCSMOOTH"@,
    {
        "GCSMOOTH"
    }

    pub fn prompt(&self) -> (p: String)
        ensures
            p@ == "GCSMOOTH  Select first spline curve:"@,
    {
        owned("GCSMOOTH  Select first spline curve:")
    }

    pub fn needs_entity_pick(&self) -> (r: bool)
        ensures
            r,
    {
        true
    }

    pub fn entity_pick_highlights_hover(&self) -> (r: bool)
        ensures
            r,
    {
        true
    }

    pub fn inject_before_entity_pick(&self) -> (r: bool)
        ensures
            r,
    {
        true
    }

    /// The editor hands over the object under the coming pick.
    pub fn inject_picked_entity(&mut self, entity: PickedEntity)
        ensures
            final(self).picked() == Some(entity),
    {
        self.picked_entity = Some(entity);
    }

    /// A pick on an open spline makes the constraint at its nearer end
    /// (measured from the pick point, and injected with the entity).
    pub fn on_entity_pick(&mut self, handle: Handle, _point: glam::DVec3) -> (r: CmdResult)
        ensures
            handle.0 == 0 ==> r is NeedPoint && final(self).picked() == old(self).picked(),
            handle.0 != 0 ==> final(self).picked() is None && match old(self).picked() {
                None => r is NeedPoint,
                Some(entity) => match spec_source_reference(entity, handle) {
                    None => is_report(r, NO_CONSTRAINT_POINT@),
                    Some(source) => is_smooth_result(r, source),
                },
            },
    {
        if handle.is_null() {
            return CmdResult::NeedPoint;
        }
        let entity = match self.picked_entity.take() {
            Some(entity) => entity,
            None => {
                return CmdResult::NeedPoint;
            },
        };
        match Self::source_reference(&entity, handle) {
            Some(source) => {
                let mut refs = Vec::new();
                refs.push(source);
                CmdResult::AddParametricConstraint { kind: ConstraintKind::Smooth, refs, label: "Smooth constraint" }
            },
            None => Self::invalid_selection(),
        }
    }

    /// A click in empty space: the spline is still asked for.
    pub fn on_point(&mut self, _point: glam::DVec3) -> (r: CmdResult)
        ensures
            r is NeedPoint,
            final(self).picked() == old(self).picked(),
    {
        CmdResult::NeedPoint
    }

    pub fn on_enter(&mut self) -> (r: CmdResult)
        ensures
            r is Cancel,
            final(self).picked() == old(self).picked(),
    {
        CmdResult::Cancel
    }

    pub fn on_escape(&mut self) -> (r: CmdResult)
        ensures
            r is Cancel,
            final(self).picked() == old(self).picked(),
    {
        CmdResult::Cancel
    }
}

} // verus!
