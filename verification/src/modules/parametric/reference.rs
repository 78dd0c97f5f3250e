//! What a constraint command reads of the drawing: object handles, the
//! picked object as the editor measured it at the pick point, the parts of
//! an object a constraint can address, and the keyword typed at a prompt.

use vstd::prelude::*;
use crate::text::{ascii_upper, chars_of, trim, trimmed};

verus! {

/// A CAD object handle. Handle 0 is the null handle: no object.
#[derive(Clone, Copy, PartialEq, Eq, Structural, Debug)]
pub struct Handle(pub u64);

impl Handle {
    pub fn new(value: u64) -> (h: Handle)
        ensures
            h.0 == value,
    {
        Handle(value)
    }

    pub fn value(&self) -> (v: u64)
        ensures
            v == self.0,
    {
        self.0
    }

    /// Whether this is the null handle.
    pub fn is_null(&self) -> (r: bool)
        ensures
            r == (self.0 == 0),
    {
        self.0 == 0
    }
}

/// The part of an object a constraint addresses.
#[derive(Clone, Copy, PartialEq, Eq, Structural, Debug)]
pub enum RefPart {
    /// The whole line, ray, circle or arc.
    Whole,
    /// One segment of a polyline, by index.
    Segment(usize),
    /// The baseline of a text or multiline text.
    TextBaseline,
    /// The major axis of an ellipse.
    EllipseMajorAxis,
    /// The minor axis of an ellipse.
    EllipseMinorAxis,
    /// A constraint point (marker) of the object.
    Point(i32),
}

/// An object, or one part of it, taking part in a constraint.
#[derive(Clone, Copy, PartialEq, Eq, Structural, Debug)]
pub struct ParametricRef {
    pub entity: Handle,
    pub part: RefPart,
}

impl ParametricRef {
    pub fn whole(entity: Handle) -> (r: ParametricRef)
        ensures
            r == (ParametricRef { entity, part: RefPart::Whole }),
    {
        ParametricRef { entity, part: RefPart::Whole }
    }

    pub fn segment(entity: Handle, index: usize) -> (r: ParametricRef)
        ensures
            r == (ParametricRef { entity, part: RefPart::Segment(index) }),
    {
        ParametricRef { entity, part: RefPart::Segment(index) }
    }

    pub fn text_baseline(entity: Handle) -> (r: ParametricRef)
        ensures
            r == (ParametricRef { entity, part: RefPart::TextBaseline }),
    {
        ParametricRef { entity, part: RefPart::TextBaseline }
    }

    pub fn ellipse_major_axis(entity: Handle) -> (r: ParametricRef)
        ensures
            r == (ParametricRef { entity, part: RefPart::EllipseMajorAxis }),
    {
        ParametricRef { entity, part: RefPart::EllipseMajorAxis }
    }

    pub fn ellipse_minor_axis(entity: Handle) -> (r: ParametricRef)
        ensures
            r == (ParametricRef { entity, part: RefPart::EllipseMinorAxis }),
    {
        ParametricRef { entity, part: RefPart::EllipseMinorAxis }
    }

    pub fn point(entity: Handle, marker: i32) -> (r: ParametricRef)
        ensures
            r == (ParametricRef { entity, part: RefPart::Point(marker) }),
    {
        ParametricRef { entity, part: RefPart::Point(marker) }
    }
}

/// The kind of a picked object, with what the editor measured of it at the
/// pick point.
#[derive(Clone, Debug, PartialEq)]
pub enum EntityKind {
    Line,
    Ray,
    XLine,
    Circle,
    Arc,
    Text,
    MText,
    /// An ellipse. `minor_axis_nearer` tells whether the pick point lies
    /// nearer the minor axis than the major one; `None` when an axis could
    /// not be found.
    Ellipse { minor_axis_nearer: Option<bool> },
    /// A light-weight or 2D polyline. `straight[i]` tells whether the
    /// segment starting at vertex `i` is straight (no bulge);
    /// `picked_segment` is the index of the segment the pick point falls on,
    /// as the editor reports it, `None` when it found none.
    Polyline { closed: bool, straight: Vec<bool>, picked_segment: Option<i32> },
    /// A spline. `nearer_end` is 0 when the pick point is nearer the first
    /// end point (or as near as the last), 1 when nearer the last; `None`
    /// when the spline has no source points.
    Spline { closed: bool, periodic: bool, nearer_end: Option<i32> },
    /// Any other object.
    Other,
}

/// A picked object as the editor measured it.
#[derive(Clone, Debug, PartialEq)]
pub struct PickedEntity {
    pub kind: EntityKind,
    /// Whether the pick point is near one of the object's constraint points
    /// (end point, centre, mid point, polyline vertex).
    pub near_constraint_point: bool,
}

/// Number of segments of a polyline with `vertices` vertices.
pub open spec fn segment_count(closed: bool, vertices: nat) -> nat {
    if closed {
        vertices
    } else if vertices > 0 {
        (vertices - 1) as nat
    } else {
        0
    }
}

/// Whether segment `index` of the object exists and is straight.
pub open spec fn spec_segment_is_straight(kind: EntityKind, index: int) -> bool {
    match kind {
        EntityKind::Polyline { straight, .. } => 0 <= index < straight@.len() && straight@[index],
        _ => false,
    }
}

/// Whether segment `index` of the object exists and is straight.
pub fn segment_is_straight(kind: &EntityKind, index: usize) -> (r: bool)
    ensures
        r == spec_segment_is_straight(*kind, index as int),
{
    match kind {
        EntityKind::Polyline { straight, .. } => index < straight.len() && straight[index],
        _ => false,
    }
}

/// The one straight segment of a one-segment polyline, as a reference.
pub open spec fn spec_single_segment(kind: EntityKind, handle: Handle) -> Option<ParametricRef> {
    match kind {
        EntityKind::Polyline { closed, straight, .. } =>
            if segment_count(closed, straight@.len()) == 1 && spec_segment_is_straight(kind, 0) {
                Some(ParametricRef { entity: handle, part: RefPart::Segment(0) })
            } else {
                None
            },
        _ => None,
    }
}

pub fn single_segment(kind: &EntityKind, handle: Handle) -> (r: Option<ParametricRef>)
    ensures
        r == spec_single_segment(*kind, handle),
{
    match kind {
        EntityKind::Polyline { closed, straight, .. } => {
            let count: usize = if *closed {
                straight.len()
            } else if straight.len() > 0 {
                straight.len() - 1
            } else {
                0
            };
            if count == 1 && segment_is_straight(kind, 0) {
                Some(ParametricRef::segment(handle, 0))
            } else {
                None
            }
        },
        _ => None,
    }
}

/// The straight polyline segment under the pick point, as a reference.
pub open spec fn spec_picked_segment(kind: EntityKind, handle: Handle) -> Option<ParametricRef> {
    match kind {
        EntityKind::Polyline { picked_segment: Some(i), .. } =>
            if i >= 0 && spec_segment_is_straight(kind, i as int) {
                Some(ParametricRef { entity: handle, part: RefPart::Segment(i as usize) })
            } else {
                None
            },
        _ => None,
    }
}

pub fn picked_segment(kind: &EntityKind, handle: Handle) -> (r: Option<ParametricRef>)
    ensures
        r == spec_picked_segment(*kind, handle),
{
    match kind {
        EntityKind::Polyline { picked_segment: Some(i), .. } => {
            if *i >= 0 && segment_is_straight(kind, *i as usize) {
                Some(ParametricRef::segment(handle, *i as usize))
            } else {
                None
            }
        },
        _ => None,
    }
}

// ───────────────────────────── Keywords ─────────────────────────────

/// `s` without its leading underscores (`trim_start_matches('_')`).
pub open spec fn drop_underscores(s: Seq<char>) -> Seq<char>
    decreases s.len(),
{
    if s.len() > 0 && s[0] == '_' {
        drop_underscores(s.drop_first())
    } else {
        s
    }
}

/// The keyword typed at a prompt: the text trimmed, its leading
/// underscores removed (the international prefix), in ASCII upper case.
pub open spec fn spec_keyword(text: Seq<char>) -> Seq<char> {
    drop_underscores(trim(text)).map_values(|c: char| ascii_upper(c))
}

proof fn lemma_drop_underscores_skip(s: Seq<char>, i: int)
    requires
        0 <= i <= s.len(),
        forall|j: int| 0 <= j < i ==> #[trigger] s[j] == '_',
    ensures
        drop_underscores(s) == drop_underscores(s.skip(i)),
    decreases i,
{
    if i > 0 {
        assert(s.drop_first().skip(i - 1) =~= s.skip(i));
        assert forall|j: int| 0 <= j < i - 1 implies #[trigger] s.drop_first()[j] == '_' by {
            assert(s.drop_first()[j] == s[j + 1]);
        }
        lemma_drop_underscores_skip(s.drop_first(), i - 1);
    } else {
        assert(s.skip(0) =~= s);
    }
}

fn ascii_upper_exec(c: char) -> (r: char)
    ensures
        r == ascii_upper(c),
{
    if 'a' <= c && c <= 'z' {
        ((c as u8) - 32) as char
    } else {
        c
    }
}

/// The keyword typed at a prompt (see `spec_keyword`).
pub fn keyword(text: &str) -> (r: Vec<char>)
    ensures
        r@ == spec_keyword(text@),
{
    let t = trimmed(&chars_of(text));
    let mut a: usize = 0;
    while a < t.len() && t[a] == '_'
        invariant
            a <= t.len(),
            forall|j: int| 0 <= j < a ==> #[trigger] t@[j] == '_',
        decreases t.len() - a,
    {
        a += 1;
    }
    proof {
        lemma_drop_underscores_skip(t@, a as int);
        assert(drop_underscores(t@.skip(a as int)) == t@.skip(a as int));
    }
    let mut r: Vec<char> = Vec::new();
    let mut i: usize = a;
    while i < t.len()
        invariant
            a <= i <= t.len(),
            r@ == t@.subrange(a as int, i as int).map_values(|c: char| ascii_upper(c)),
        decreases t.len() - i,
    {
        r.push(ascii_upper_exec(t[i]));
        assert(t@.subrange(a as int, i + 1) == t@.subrange(a as int, i as int).push(t@[i as int]));
        i += 1;
    }
    assert(t@.subrange(a as int, t@.len() as int) == t@.skip(a as int));
    r
}

} // verus!
