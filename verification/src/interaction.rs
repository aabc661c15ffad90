//! Proximity between moving interactors and static interactables, and the
//! events that an activation sends to the props.
//!
//! Positions and sizes are integers in one common unit of length, which the
//! scene takes to be a thousandth of a pixel. A box is given by its centre
//! and its full width and height.

use vstd::prelude::*;

verus! {

/// The two states of a toggleable prop.
#[derive(Clone, Copy, Debug, PartialEq, Eq, Structural)]
pub enum State {
    Off,
    On,
}

impl State {
    /// The other state.
    pub open spec fn spec_toggled(self) -> State {
        match self {
            State::Off => State::On,
            State::On => State::Off,
        }
    }

    /// Flips the state.
    pub fn toggled(self) -> (next: State)
        ensures
            next == self.spec_toggled(),
    {
        match self {
            State::Off => State::On,
            State::On => State::Off,
        }
    }
}

/// Toggling twice gives the state back.
pub proof fn lemma_toggled_twice(state: State)
    ensures
        state.spec_toggled().spec_toggled() == state,
        state.spec_toggled() != state,
{
}

/// The units of length in a pixel of the scene.
pub const UNITS_PER_PIXEL: i32 = 1000;

/// A point of the scene: the centre of a box.
#[derive(Clone, Copy, Debug, PartialEq, Eq, Structural)]
pub struct Position {
    pub x: i32,
    pub y: i32,
}

/// The box of an entity that can initiate interactions.
#[derive(Clone, Copy, Debug, PartialEq, Eq, Structural)]
pub struct Interactor {
    pub width: i32,
    pub height: i32,
}

/// The box and identity of an entity that can be interacted with.
#[derive(Clone, Debug)]
pub struct Interactable {
    pub width: i32,
    pub height: i32,
    pub id: String,
}

/// The relation of an interactor to the one interactable it is in range of.
#[derive(Clone, Debug)]
pub struct InRange {
    pub id: String,
}

/// The message sent to the props when an interaction is triggered.
#[derive(Clone, Debug)]
pub struct InteractionEvent {
    pub id: String,
}

/// An interactable together with the place where it stands.
#[derive(Clone, Debug)]
pub struct PlacedInteractable {
    pub position: Position,
    pub interactable: Interactable,
}

/// An interactor together with its place and its current relation. The
/// relation is an `Option`, so an interactor is never in range of two
/// interactables at once.
#[derive(Clone, Debug)]
pub struct PlacedInteractor {
    pub position: Position,
    pub interactor: Interactor,
    pub in_range: Option<InRange>,
}

/// What one evaluation did to an interactor's relation.
#[derive(Clone, Copy, Debug, PartialEq, Eq, Structural)]
pub enum RelationChange {
    /// The relation is what it was: absent, or present with the same id.
    Unchanged,
    /// There was no relation and there is one now.
    Created,
    /// There was a relation and it now names another interactable.
    Changed,
    /// There was a relation and there is none now.
    Removed,
}

impl View for InRange {
    type V = Seq<char>;

    open spec fn view(&self) -> Seq<char> {
        self.id@
    }
}

impl View for InteractionEvent {
    type V = Seq<char>;

    open spec fn view(&self) -> Seq<char> {
        self.id@
    }
}

/// The id that a relation names, if there is a relation.
pub open spec fn relation_id(relation: Option<InRange>) -> Option<Seq<char>> {
    match relation {
        Some(in_range) => Some(in_range@),
        None => None,
    }
}

/// The id that an event carries, if there is an event.
pub open spec fn event_id(event: Option<InteractionEvent>) -> Option<Seq<char>> {
    match event {
        Some(e) => Some(e@),
        None => None,
    }
}

/// Distance between two coordinates on one axis.
pub open spec fn distance(a: int, b: int) -> int {
    if a >= b {
        a - b
    } else {
        b - a
    }
}

/// Two centred boxes overlap when, on each axis, the distance of the centres
/// is strictly less than half the sum of the extents. Boxes that only touch
/// do not overlap.
pub open spec fn spec_aabb_overlap(
    pos_1: Position,
    width_1: i32,
    height_1: i32,
    pos_2: Position,
    width_2: i32,
    height_2: i32,
) -> bool {
    &&& 2 * distance(pos_1.x as int, pos_2.x as int) < width_1 + width_2
    &&& 2 * distance(pos_1.y as int, pos_2.y as int) < height_1 + height_2
}

/// Twice the coordinate of the lower edge of a box on one axis.
pub open spec fn doubled_low_edge(centre: i32, extent: i32) -> int {
    2 * centre - extent
}

/// Twice the coordinate of the upper edge of a box on one axis.
pub open spec fn doubled_high_edge(centre: i32, extent: i32) -> int {
    2 * centre + extent
}

/// The boxes are apart when an edge of one lies at or beyond the opposite
/// edge of the other.
pub open spec fn spec_aabb_apart(
    pos_1: Position,
    width_1: i32,
    height_1: i32,
    pos_2: Position,
    width_2: i32,
    height_2: i32,
) -> bool {
    ||| doubled_high_edge(pos_1.x, width_1) <= doubled_low_edge(pos_2.x, width_2)
    ||| doubled_low_edge(pos_1.x, width_1) >= doubled_high_edge(pos_2.x, width_2)
    ||| doubled_high_edge(pos_1.y, height_1) <= doubled_low_edge(pos_2.y, height_2)
    ||| doubled_low_edge(pos_1.y, height_1) >= doubled_high_edge(pos_2.y, height_2)
}

/// Axis-aligned bounding box overlap of two centred boxes.
pub fn aabb_overlap(
    pos_1: Position,
    width_1: i32,
    height_1: i32,
    pos_2: Position,
    width_2: i32,
    height_2: i32,
) -> (overlap: bool)
    ensures
        overlap == spec_aabb_overlap(pos_1, width_1, height_1, pos_2, width_2, height_2),
{
    let dx: i64 = if pos_1.x >= pos_2.x {
        pos_1.x as i64 - pos_2.x as i64
    } else {
        pos_2.x as i64 - pos_1.x as i64
    };
    let dy: i64 = if pos_1.y >= pos_2.y {
        pos_1.y as i64 - pos_2.y as i64
    } else {
        pos_2.y as i64 - pos_1.y as i64
    };
    let widths: i64 = width_1 as i64 + width_2 as i64;
    let heights: i64 = height_1 as i64 + height_2 as i64;
    2 * dx < widths && 2 * dy < heights
}

/// Overlap does not depend on the order in which the two boxes are given.
pub proof fn lemma_overlap_symmetric(
    pos_1: Position,
    width_1: i32,
    height_1: i32,
    pos_2: Position,
    width_2: i32,
    height_2: i32,
)
    ensures
        spec_aabb_overlap(pos_1, width_1, height_1, pos_2, width_2, height_2)
            == spec_aabb_overlap(pos_2, width_2, height_2, pos_1, width_1, height_1),
{
}

/// For boxes of non-negative size, overlapping is the same as not being
/// apart: no edge of one lies at or beyond the opposite edge of the other.
pub proof fn lemma_overlap_iff_not_apart(
    pos_1: Position,
    width_1: i32,
    height_1: i32,
    pos_2: Position,
    width_2: i32,
    height_2: i32,
)
    requires
        width_1 >= 0,
        height_1 >= 0,
        width_2 >= 0,
        height_2 >= 0,
    ensures
        spec_aabb_overlap(pos_1, width_1, height_1, pos_2, width_2, height_2)
            == !spec_aabb_apart(pos_1, width_1, height_1, pos_2, width_2, height_2),
{
}

/// Whether the interactor at `position` overlaps the given interactable.
pub open spec fn overlaps(
    position: Position,
    interactor: Interactor,
    item: PlacedInteractable,
) -> bool {
    spec_aabb_overlap(
        position,
        interactor.width,
        interactor.height,
        item.position,
        item.interactable.width,
        item.interactable.height,
    )
}

/// Index of the first interactable at or after `start` that the interactor
/// overlaps.
pub open spec fn first_overlap_from(
    position: Position,
    interactor: Interactor,
    items: Seq<PlacedInteractable>,
    start: int,
) -> Option<int>
    decreases items.len() - start,
{
    if start < 0 || start >= items.len() {
        None
    } else if overlaps(position, interactor, items[start]) {
        Some(start)
    } else {
        first_overlap_from(position, interactor, items, start + 1)
    }
}

/// Index of the first interactable, in enumeration order, that the interactor
/// overlaps.
pub open spec fn first_overlap(
    position: Position,
    interactor: Interactor,
    items: Seq<PlacedInteractable>,
) -> Option<int> {
    first_overlap_from(position, interactor, items, 0)
}

/// The id of the first overlapping interactable, if any.
pub open spec fn overlap_id(
    position: Position,
    interactor: Interactor,
    items: Seq<PlacedInteractable>,
) -> Option<Seq<char>> {
    match first_overlap(position, interactor, items) {
        Some(i) => Some(items[i].interactable.id@),
        None => None,
    }
}

/// What the scan from `start` returns lies at or after `start`, overlaps, and
/// has no overlapping interactable between `start` and itself; it returns
/// nothing exactly when nothing from `start` on overlaps.
pub proof fn lemma_first_overlap_from(
    position: Position,
    interactor: Interactor,
    items: Seq<PlacedInteractable>,
    start: int,
)
    requires
        0 <= start,
    ensures
        match first_overlap_from(position, interactor, items, start) {
            Some(i) => {
                &&& start <= i < items.len()
                &&& overlaps(position, interactor, items[i])
                &&& forall|j: int|
                    start <= j < i ==> !overlaps(position, interactor, #[trigger] items[j])
            },
            None => forall|j: int|
                start <= j < items.len() ==> !overlaps(position, interactor, #[trigger] items[j]),
        },
    decreases items.len() - start,
{
    if start < items.len() && !overlaps(position, interactor, items[start]) {
        lemma_first_overlap_from(position, interactor, items, start + 1);
    }
}

/// The first match in enumeration order wins: the interactable found
/// overlaps and none before it does, and none is found exactly when none
/// overlaps.
pub proof fn lemma_first_overlap_is_first(
    position: Position,
    interactor: Interactor,
    items: Seq<PlacedInteractable>,
)
    ensures
        match first_overlap(position, interactor, items) {
            Some(i) => {
                &&& 0 <= i < items.len()
                &&& overlaps(position, interactor, items[i])
                &&& forall|j: int|
                    0 <= j < i ==> !overlaps(position, interactor, #[trigger] items[j])
            },
            None => forall|j: int|
                0 <= j < items.len() ==> !overlaps(position, interactor, #[trigger] items[j]),
        },
{
    lemma_first_overlap_from(position, interactor, items, 0);
}

/// Scans the interactables in order and returns the index of the first one
/// that the interactor overlaps.
pub fn find_overlap(
    position: Position,
    interactor: &Interactor,
    interactables: &Vec<PlacedInteractable>,
) -> (found: Option<usize>)
    ensures
        match found {
            Some(i) => {
                &&& i < interactables@.len()
                &&& first_overlap(position, *interactor, interactables@) == Some(i as int)
            },
            None => first_overlap(position, *interactor, interactables@).is_none(),
        },
{
    let mut i: usize = 0;
    while i < interactables.len()
        invariant
            i <= interactables.len(),
            first_overlap(position, *interactor, interactables@) == first_overlap_from(
                position,
                *interactor,
                interactables@,
                i as int,
            ),
        decreases interactables.len() - i,
    {
        let item = &interactables[i];
        if aabb_overlap(
            position,
            interactor.width,
            interactor.height,
            item.position,
            item.interactable.width,
            item.interactable.height,
        ) {
            return Some(i);
        }
        i += 1;
    }
    None
}

/// How a relation changes when the scan of a tick has found `found`.
pub open spec fn spec_relation_change(
    previous: Option<Seq<char>>,
    found: Option<Seq<char>>,
) -> RelationChange {
    match (previous, found) {
        (None, None) => RelationChange::Unchanged,
        (None, Some(_)) => RelationChange::Created,
        (Some(current), Some(new)) => if current == new {
            RelationChange::Unchanged
        } else {
            RelationChange::Changed
        },
        (Some(_), None) => RelationChange::Removed,
    }
}

/// Brings one interactor's relation up to date: after the call it names the
/// first interactable that the interactor overlaps, or is absent when it
/// overlaps none. Returns what changed.
pub fn detect_overlap(
    subject: &mut PlacedInteractor,
    interactables: &Vec<PlacedInteractable>,
) -> (change: RelationChange)
    ensures
        final(subject).position == old(subject).position,
        final(subject).interactor == old(subject).interactor,
        relation_id(final(subject).in_range) == overlap_id(
            old(subject).position,
            old(subject).interactor,
            interactables@,
        ),
        change == spec_relation_change(
            relation_id(old(subject).in_range),
            overlap_id(old(subject).position, old(subject).interactor, interactables@),
        ),
{
    let found = find_overlap(subject.position, &subject.interactor, interactables);
    match found {
        Some(i) => {
            let new_id = interactables[i].interactable.id.clone();
            let change = match &subject.in_range {
                None => RelationChange::Created,
                Some(current) => if current.id == new_id {
                    RelationChange::Unchanged
                } else {
                    RelationChange::Changed
                },
            };
            subject.in_range = Some(InRange { id: new_id });
            change
        },
        None => {
            let change = match &subject.in_range {
                None => RelationChange::Unchanged,
                Some(_) => RelationChange::Removed,
            };
            subject.in_range = None;
            change
        },
    }
}

/// Evaluates every interactor once against all interactables and returns, in
/// the interactors' order, what changed for each.
pub fn detect_overlaps(
    interactors: &mut Vec<PlacedInteractor>,
    interactables: &Vec<PlacedInteractable>,
) -> (changes: Vec<RelationChange>)
    ensures
        final(interactors)@.len() == old(interactors)@.len(),
        changes@.len() == old(interactors)@.len(),
        forall|k: int|
            0 <= k < old(interactors)@.len() ==> {
                &&& (#[trigger] final(interactors)@[k]).position == old(interactors)@[k].position
                &&& final(interactors)@[k].interactor == old(interactors)@[k].interactor
                &&& relation_id(final(interactors)@[k].in_range) == overlap_id(
                    old(interactors)@[k].position,
                    old(interactors)@[k].interactor,
                    interactables@,
                )
            },
        forall|k: int|
            0 <= k < old(interactors)@.len() ==> #[trigger] changes@[k] == spec_relation_change(
                relation_id(old(interactors)@[k].in_range),
                overlap_id(
                    old(interactors)@[k].position,
                    old(interactors)@[k].interactor,
                    interactables@,
                ),
            ),
{
    let mut changes: Vec<RelationChange> = Vec::new();
    let mut k: usize = 0;
    while k < interactors.len()
        invariant
            k <= interactors@.len(),
            interactors@.len() == old(interactors)@.len(),
            changes@.len() == k,
            forall|j: int| k <= j < interactors@.len() ==> interactors@[j] == old(interactors)@[j],
            forall|j: int|
                0 <= j < k ==> {
                    &&& (#[trigger] interactors@[j]).position == old(interactors)@[j].position
                    &&& interactors@[j].interactor == old(interactors)@[j].interactor
                    &&& relation_id(interactors@[j].in_range) == overlap_id(
                        old(interactors)@[j].position,
                        old(interactors)@[j].interactor,
                        interactables@,
                    )
                },
            forall|j: int|
                0 <= j < k ==> #[trigger] changes@[j] == spec_relation_change(
                    relation_id(old(interactors)@[j].in_range),
                    overlap_id(
                        old(interactors)@[j].position,
                        old(interactors)@[j].interactor,
                        interactables@,
                    ),
                ),
        decreases interactors@.len() - k,
    {
        let change = detect_overlap(&mut interactors[k], interactables);
        changes.push(change);
        k += 1;
    }
    changes
}

/// The event that an activation sends: it carries the id of the current
/// relation, and without a relation nothing is sent.
pub fn dispatch(in_range: &Option<InRange>) -> (event: Option<InteractionEvent>)
    ensures
        event_id(event) == relation_id(*in_range),
{
    match in_range {
        Some(relation) => Some(InteractionEvent { id: relation.id.clone() }),
        None => None,
    }
}

} // verus!
