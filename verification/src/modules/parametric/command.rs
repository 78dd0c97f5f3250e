//! What a constraint command answers the editor, and the pieces those
//! answers are made of.

use vstd::prelude::*;
use crate::modules::parametric::reference::{Handle, ParametricRef};
use crate::text::owned;

verus! {

/// A point of the drawing, in world coordinates. The commands carry points
/// from a pick to their answer without reading them.
#[verifier::external_type_specification]
#[verifier::external_body]
pub struct ExDVec3(glam::DVec3);

/// Calls `glam::DVec3::normalize_or`: `v` scaled to length one, or
/// `fallback` when `v` cannot be normalised. The result is a
/// floating-point vector, opaque here: nothing is stated of it.
#[verifier::external_body]
pub(crate) fn normalize_or(v: glam::DVec3, fallback: glam::DVec3) -> glam::DVec3 {
    v.normalize_or(fallback)
}

/// Reads `glam::DVec3::X`, the unit vector along world X; opaque here.
#[verifier::external_body]
pub(crate) fn unit_x() -> glam::DVec3 {
    glam::DVec3::X
}

/// An option offered at a prompt: its label and the keyword that picks it.
#[derive(Clone, Copy, PartialEq, Eq, Debug)]
pub struct CmdOption {
    pub label: &'static str,
    pub keyword: &'static str,
}

impl CmdOption {
    pub fn new(label: &'static str, keyword: &'static str) -> (o: CmdOption)
        ensures
            o.label == label,
            o.keyword == keyword,
    {
        CmdOption { label, keyword }
    }
}

/// One point of a point-pair constraint: the object it was picked on
/// (`None` for a click in empty space) and where.
#[derive(Clone, Copy)]
pub struct CoincidentPick {
    pub handle: Option<Handle>,
    pub point: glam::DVec3,
    pub whole_curve: bool,
}

/// What a Horizontal constraint applies to.
#[derive(Clone, Copy)]
pub enum HorizontalConstraintSelection {
    /// An object, or one part of it.
    Reference(ParametricRef),
    /// Two points, to be aligned along the working plane's X axis.
    Points(CoincidentPick, CoincidentPick),
}

/// Constraints created through the generic route.
#[derive(Clone, Copy, PartialEq, Eq, Structural, Debug)]
pub enum ConstraintKind {
    Smooth,
}

/// What the editor must do after a command has handled an event.
pub enum CmdResult {
    /// Keep the command running and ask for the next pick.
    NeedPoint,
    /// End the command without doing anything.
    Cancel,
    /// Show this message; the command keeps running.
    ReportError(String),
    /// End this command and start the named one on these objects.
    Relaunch(String, Vec<Handle>),
    /// Make every object of `others` as long (or of the same radius) as `first`.
    AddEqualConstraint { first: ParametricRef, others: Vec<ParametricRef>, label: &'static str },
    /// Make the selection horizontal along `direction`.
    AddHorizontalConstraint {
        selection: HorizontalConstraintSelection,
        direction: glam::DVec3,
        label: &'static str,
    },
    /// Add a constraint of `kind` on `refs`.
    AddParametricConstraint { kind: ConstraintKind, refs: Vec<ParametricRef>, label: &'static str },
}

/// `r` reports `message`.
pub open spec fn is_report(r: CmdResult, message: Seq<char>) -> bool {
    r matches CmdResult::ReportError(m) && m@ == message
}

/// An error report carrying `message`.
pub fn report(message: &str) -> (r: CmdResult)
    ensures
        is_report(r, message@),
{
    CmdResult::ReportError(owned(message))
}

} // verus!
