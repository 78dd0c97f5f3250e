//! The Equal geometric constraint: the first object sets the size, the
//! second (or, with Multiple, every object of a set) takes its length or
//! radius. Picks are made inside the command; a selection made before it
//! starts is not used.

use vstd::prelude::*;
use crate::modules::parametric::command::{is_report, report, CmdOption, CmdResult};
use crate::modules::parametric::reference::{
    keyword, picked_segment, single_segment, spec_keyword, spec_picked_segment, spec_single_segment, EntityKind, Handle,
    ParametricRef, PickedEntity, RefPart,
};
use crate::text::{chars_of, owned, push_decimal, push_str, seq_eq, spec_decimal};

verus! {

/// Where the Equal command stands.
#[derive(Clone, Copy, PartialEq, Eq, Structural, Debug)]
pub enum EqualStep {
    /// `Select first object or [Multiple]:`, or `Select first object:` once
    /// Multiple was chosen.
    First { multiple: bool },
    /// `Select second object:`, the one that takes the first's size.
    Second(ParametricRef),
    /// `Select objects to make equal to the first:`, a selection set applied
    /// on Enter.
    Others(ParametricRef),
}

/// Interactive front end of the Equal constraint.
pub struct EqualConstraintCommand {
    step: EqualStep,
    picked_entity: Option<PickedEntity>,
    others: Vec<Handle>,
}

/// A click that found no object.
pub const NO_OBJECT: &'static str = "No object found.";

/// An object Equal cannot size.
pub const INVALID_OBJECT: &'static str = "Invalid selection for Equal. Select a line, polyline segment, circle or arc.";

/// The second pick names the first again.
pub const SAME_OBJECT: &'static str = "The object or point is already selected. Select a different object or constraint point.";

/// The label of the constraint this command creates.
pub open spec fn equal_label() -> Seq<char> {
    "Equal constraint"@
}

/// `r` creates the Equal constraint of `first` over `others`.
pub open spec fn is_equal_result(r: CmdResult, first: ParametricRef, others: Seq<ParametricRef>) -> bool {
    r matches CmdResult::AddEqualConstraint { first: f, others: o, label } && f == first && o@ == others
        && label@ == equal_label()
}

/// The reference a pick makes: a whole line, circle or arc, or the straight
/// polyline segment under the pick point.
pub open spec fn spec_picked_reference(entity: PickedEntity, handle: Handle) -> Option<ParametricRef> {
    match entity.kind {
        EntityKind::Line | EntityKind::Circle | EntityKind::Arc => Some(ParametricRef { entity: handle, part: RefPart::Whole }),
        EntityKind::Polyline { .. } => spec_picked_segment(entity.kind, handle),
        _ => None,
    }
}

/// The reference an object of a Multiple set makes: a whole line, circle
/// or arc, or a one-segment polyline as its segment.
pub open spec fn spec_whole_reference(entity: PickedEntity, handle: Handle) -> Option<ParametricRef> {
    match entity.kind {
        EntityKind::Line | EntityKind::Circle | EntityKind::Arc => Some(ParametricRef { entity: handle, part: RefPart::Whole }),
        EntityKind::Polyline { .. } => spec_single_segment(entity.kind, handle),
        _ => None,
    }
}

/// `handles` without every occurrence of `h`, in order.
pub open spec fn without(handles: Seq<Handle>, h: Handle) -> Seq<Handle>
    decreases handles.len(),
{
    if handles.len() == 0 {
        handles
    } else if handles.last() == h {
        without(handles.drop_last(), h)
    } else {
        without(handles.drop_last(), h).push(handles.last())
    }
}

/// Each handle as a whole-object reference.
pub open spec fn wholes(handles: Seq<Handle>) -> Seq<ParametricRef> {
    handles.map_values(|h: Handle| ParametricRef { entity: h, part: RefPart::Whole })
}

/// The prompt shown at `step` with `gathered` objects gathered.
pub open spec fn spec_prompt(step: EqualStep, gathered: nat) -> Seq<char> {
    match step {
        EqualStep::First { multiple: false } => "GCEQUAL  Select first object or [Multiple]:"@,
        EqualStep::First { multiple: true } => "GCEQUAL  Select first object:"@,
        EqualStep::Second(_) => "GCEQUAL  Select second object:"@,
        EqualStep::Others(_) => if gathered == 0 {
            "GCEQUAL  Select objects to make equal to the first:"@
        } else {
            "GCEQUAL  Select objects to make equal to the first ("@ + spec_decimal(gathered)
                + " selected, Enter to apply):"@
        },
    }
}

/// Whether `text` is the Multiple keyword.
pub open spec fn is_multiple_keyword(text: Seq<char>) -> bool {
    spec_keyword(text) == "M"@ || spec_keyword(text) == "MULTIPLE"@
}

impl EqualConstraintCommand {
    /// The step the command is at.
    pub closed spec fn step(&self) -> EqualStep {
        self.step
    }

    /// The object the editor injected for the coming pick, if any.
    pub closed spec fn picked(&self) -> Option<PickedEntity> {
        self.picked_entity
    }

    /// The objects gathered for a Multiple set.
    pub closed spec fn gathered(&self) -> Seq<Handle> {
        self.others@
    }

    pub fn new() -> (c: Self)
        ensures
            c.step() == (EqualStep::First { multiple: false }),
            c.picked() is None,
            c.gathered() == Seq::<Handle>::empty(),
    {
        EqualConstraintCommand { step: EqualStep::First { multiple: false }, picked_entity: None, others: Vec::new() }
    }

    /// The reference a pick makes (see `spec_picked_reference`).
    pub fn picked_reference(entity: &PickedEntity, handle: Handle) -> (r: Option<ParametricRef>)
        ensures
            r == spec_picked_reference(*entity, handle),
    {
        match &entity.kind {
            EntityKind::Line | EntityKind::Circle | EntityKind::Arc => Some(ParametricRef::whole(handle)),
            EntityKind::Polyline { .. } => picked_segment(&entity.kind, handle),
            _ => None,
        }
    }

    /// The reference an object of a Multiple set makes (see
    /// `spec_whole_reference`).
    pub fn whole_reference(entity: &PickedEntity, handle: Handle) -> (r: Option<ParametricRef>)
        ensures
            r == spec_whole_reference(*entity, handle),
    {
        match &entity.kind {
            EntityKind::Line | EntityKind::Circle | EntityKind::Arc => Some(ParametricRef::whole(handle)),
            EntityKind::Polyline { .. } => single_segment(&entity.kind, handle),
            _ => None,
        }
    }

    fn finish(first: ParametricRef, others: Vec<ParametricRef>) -> (r: CmdResult)
        ensures
            is_equal_result(r, first, others@),
    {
        CmdResult::AddEqualConstraint { first, others, label: "Equal constraint" }
    }

    pub fn name(&self) -> (n: &'static str)
        ensures
            n@ == "GCEQUAL"@,
    {
        "GCEQUAL"
    }

    pub fn prompt(&self) -> (p: String)
        ensures
            p@ == spec_prompt(self.step(), self.gathered().len()),
    {
        match self.step {
            EqualStep::First { multiple: false } => owned("GCEQUAL  Select first object or [Multiple]:"),
            EqualStep::First { multiple: true } => owned("GCEQUAL  Select first object:"),
            EqualStep::Second(_) => owned("GCEQUAL  Select second object:"),
            EqualStep::Others(_) => {
                if self.others.len() == 0 {
                    owned("GCEQUAL  Select objects to make equal to the first:")
                } else {
                    let mut p = owned("GCEQUAL  Select objects to make equal to the first (");
                    push_decimal(&mut p, self.others.len());
                    push_str(&mut p, " selected, Enter to apply):");
                    p
                }
            },
        }
    }

    /// The Multiple option, offered at the first prompt only.
    pub fn options(&self) -> (o: Vec<CmdOption>)
        ensures
            self.step() == (EqualStep::First { multiple: false }) ==> o@.len() == 1 && o@[0].label@ == "Multiple"@
                && o@[0].keyword@ == "M"@,
            self.step() != (EqualStep::First { multiple: false }) ==> o@.len() == 0,
    {
        let mut o = Vec::new();
        if self.step == (EqualStep::First { multiple: false }) {
            o.push(CmdOption::new("Multiple", "M"));
        }
        o
    }

    pub fn wants_text_input(&self) -> (r: bool)
        ensures
            r,
    {
        true
    }

    /// Keywords are read at the first prompt only.
    pub fn point_step_accepts_keywords(&self) -> (r: bool)
        ensures
            r == (self.step() == EqualStep::First { multiple: false }),
    {
        self.step == (EqualStep::First { multiple: false })
    }

    /// `M` or `MULTIPLE` at the first prompt switches to Multiple; any other
    /// text is not a keyword of this command.
    pub fn on_text_input(&mut self, text: &str) -> (r: Option<CmdResult>)
        ensures
            final(self).picked() == old(self).picked(),
            final(self).gathered() == old(self).gathered(),
            if old(self).step() == (EqualStep::First { multiple: false }) && is_multiple_keyword(text@) {
                r matches Some(CmdResult::NeedPoint) && final(self).step() == (EqualStep::First { multiple: true })
            } else {
                r is None && final(self).step() == old(self).step()
            },
    {
        let k = keyword(text);
        if self.step == (EqualStep::First { multiple: false }) && (seq_eq(&k, &chars_of("M")) || seq_eq(
            &k,
            &chars_of("MULTIPLE"),
        )) {
            self.step = EqualStep::First { multiple: true };
            return Some(CmdResult::NeedPoint);
        }
        None
    }

    /// Objects are picked one at a time, except for a Multiple set.
    pub fn needs_entity_pick(&self) -> (r: bool)
        ensures
            r == !(self.step() is Others),
    {
        !matches!(self.step, EqualStep::Others(_))
    }

    pub fn entity_pick_accepts_points(&self) -> (r: bool)
        ensures
            r,
    {
        true
    }

    pub fn entity_pick_highlights_hover(&self) -> (r: bool)
        ensures
            r,
    {
        true
    }

    pub fn inject_before_entity_pick(&self) -> (r: bool)
        ensures
            r,
    {
        true
    }

    /// The editor hands over the object under the coming pick.
    pub fn inject_picked_entity(&mut self, entity: PickedEntity)
        ensures
            final(self).picked() == Some(entity),
            final(self).step() == old(self).step(),
            final(self).gathered() == old(self).gathered(),
    {
        self.picked_entity = Some(entity);
    }

    /// A Multiple set is gathered as a selection set.
    pub fn is_selection_gathering(&self) -> (r: bool)
        ensures
            r == (self.step() is Others),
    {
        matches!(self.step, EqualStep::Others(_))
    }

    /// The gathered set replaces the previous one, without the first
    /// object: it sets the size and cannot also follow itself.
    pub fn on_selection_complete(&mut self, handles: Vec<Handle>) -> (r: CmdResult)
        ensures
            r is NeedPoint,
            final(self).step() == old(self).step(),
            final(self).picked() == old(self).picked(),
            match old(self).step() {
                EqualStep::Others(first) => final(self).gathered() == without(handles@, first.entity),
                _ => final(self).gathered() == old(self).gathered(),
            },
    {
        if let EqualStep::Others(first) = self.step {
            let mut kept: Vec<Handle> = Vec::new();
            for i in 0..handles.len()
                invariant
                    kept@ == without(handles@.take(i as int), first.entity),
            {
                assert(handles@.take(i + 1).drop_last() == handles@.take(i as int));
                if handles[i] != first.entity {
                    kept.push(handles[i]);
                }
            }
            assert(handles@.take(handles@.len() as int) == handles@);
            self.others = kept;
        }
        CmdResult::NeedPoint
    }

    /// A pick on an object. The first pick sets the size; the second makes
    /// the constraint, or with Multiple the set is gathered next. What the
    /// pick point decides (the polyline segment under it) comes measured
    /// with the injected entity.
    pub fn on_entity_pick(&mut self, handle: Handle, _point: glam::DVec3) -> (r: CmdResult)
        ensures
            final(self).gathered() == old(self).gathered(),
            handle.0 == 0 ==> is_report(r, NO_OBJECT@) && final(self).step() == old(self).step()
                && final(self).picked() == old(self).picked(),
            handle.0 != 0 ==> final(self).picked() is None && match old(self).picked() {
                None => r is NeedPoint && final(self).step() == old(self).step(),
                Some(entity) => match spec_picked_reference(entity, handle) {
                    None => is_report(r, INVALID_OBJECT@) && final(self).step() == old(self).step(),
                    Some(reference) => match old(self).step() {
                        EqualStep::First { multiple: false } => r is NeedPoint && final(self).step()
                            == EqualStep::Second(reference),
                        EqualStep::First { multiple: true } => r is NeedPoint && final(self).step()
                            == EqualStep::Others(reference),
                        EqualStep::Second(first) => final(self).step() == old(self).step() && if first
                            == reference {
                            is_report(r, SAME_OBJECT@)
                        } else {
                            is_equal_result(r, first, seq![reference])
                        },
                        EqualStep::Others(_) => r is NeedPoint && final(self).step() == old(self).step(),
                    },
                },
            },
    {
        if handle.is_null() {
            return report(NO_OBJECT);
        }
        let entity = match self.picked_entity.take() {
            Some(entity) => entity,
            None => {
                return CmdResult::NeedPoint;
            },
        };
        let reference = match Self::picked_reference(&entity, handle) {
            Some(reference) => reference,
            None => {
                return report(INVALID_OBJECT);
            },
        };
        match self.step {
            EqualStep::First { multiple: false } => {
                self.step = EqualStep::Second(reference);
                CmdResult::NeedPoint
            },
            EqualStep::First { multiple: true } => {
                self.step = EqualStep::Others(reference);
                CmdResult::NeedPoint
            },
            EqualStep::Second(first) => {
                if first == reference {
                    return report(SAME_OBJECT);
                }
                let mut others = Vec::new();
                others.push(reference);
                Self::finish(first, others)
            },
            EqualStep::Others(_) => CmdResult::NeedPoint,
        }
    }

    /// A click in empty space while an object is asked for.
    pub fn on_point(&mut self, _point: glam::DVec3) -> (r: CmdResult)
        ensures
            is_report(r, NO_OBJECT@),
            final(self).step() == old(self).step(),
            final(self).picked() == old(self).picked(),
            final(self).gathered() == old(self).gathered(),
    {
        report(NO_OBJECT)
    }

    /// Enter applies a non-empty Multiple set, each object whole; otherwise
    /// it ends the command.
    pub fn on_enter(&mut self) -> (r: CmdResult)
        ensures
            final(self).step() == old(self).step(),
            final(self).picked() == old(self).picked(),
            final(self).gathered() == old(self).gathered(),
            match old(self).step() {
                EqualStep::Others(first) if old(self).gathered().len() > 0 => is_equal_result(
                    r,
                    first,
                    wholes(old(self).gathered()),
                ),
                _ => r is Cancel,
            },
    {
        match self.step {
            EqualStep::Others(first) => {
                if self.others.len() > 0 {
                    let mut refs: Vec<ParametricRef> = Vec::new();
                    for i in 0..self.others.len()
                        invariant
                            refs@ == wholes(self.others@.take(i as int)),
                    {
                        refs.push(ParametricRef::whole(self.others[i]));
                        assert(wholes(self.others@.take(i + 1)) =~= wholes(self.others@.take(i as int)).push(
                            ParametricRef { entity: self.others@[i as int], part: RefPart::Whole },
                        ));
                    }
                    assert(self.others@.take(self.others@.len() as int) == self.others@);
                    Self::finish(first, refs)
                } else {
                    CmdResult::Cancel
                }
            },
            _ => CmdResult::Cancel,
        }
    }

    pub fn on_escape(&mut self) -> (r: CmdResult)
        ensures
            r is Cancel,
            final(self).step() == old(self).step(),
            final(self).picked() == old(self).picked(),
            final(self).gathered() == old(self).gathered(),
    {
        CmdResult::Cancel
    }
}

/// The object that sets the size never follows itself: a gathered set
/// keeps every gathered object but the first, and adds none.
pub proof fn law_first_object_never_follows_itself(handles: Seq<Handle>, first: Handle)
    ensures
        !without(handles, first).contains(first),
        forall|x: Handle| x != first ==> (#[trigger] without(handles, first).contains(x) <==> handles.contains(x)),
    decreases handles.len(),
{
    if handles.len() > 0 {
        let rest = handles.drop_last();
        let last = handles.last();
        law_first_object_never_follows_itself(rest, first);
        assert(handles == rest.push(last));
        assert forall|x: Handle| x != first implies (#[trigger] without(handles, first).contains(x)
            <==> handles.contains(x)) by {
            if handles.contains(x) {
                let i = choose|i: int| 0 <= i < handles.len() && handles[i] == x;
                if i < rest.len() {
                    assert(rest[i] == x);
                    assert(rest.contains(x));
                }
            }
            if rest.contains(x) {
                let i = choose|i: int| 0 <= i < rest.len() && rest[i] == x;
                assert(handles[i] == x);
            }
            if last != first {
                assert(without(handles, first) == without(rest, first).push(last));
                if without(handles, first).contains(x) {
                    let i = choose|i: int| 0 <= i < without(handles, first).len() && without(handles, first)[i] == x;
                    if i < without(rest, first).len() {
                        assert(without(rest, first)[i] == x);
                    }
                }
                if without(rest, first).contains(x) {
                    let i = choose|i: int| 0 <= i < without(rest, first).len() && without(rest, first)[i] == x;
                    assert(without(handles, first)[i] == x);
                }
                assert(without(handles, first)[without(rest, first).len() as int] == last);
            }
        }
        if last != first {
            assert(without(handles, first) == without(rest, first).push(last));
            if without(handles, first).contains(first) {
                let i = choose|i: int| 0 <= i < without(handles, first).len() && without(handles, first)[i] == first;
                if i < without(rest, first).len() {
                    assert(without(rest, first)[i] == first);
                }
            }
        }
    }
}

} // verus!
