use vstd::prelude::*;
use vstd::pervasive::VecAdditionalExecFns;

use crate::data::PieChartData;
use crate::pie::WedgeGeometry;
use crate::ratio::Ratio;

verus! {

/// What the chart publishes about a shape: its label, its raw value and
/// its percentage share of the whole.
#[derive(Clone, Debug)]
pub struct Selection {
    pub label: String,
    pub value: i64,
    pub percentage: Ratio,
}

/// `pre` stepped by a pointer-enter on shape `i`: the shape is marked
/// hovered and the published selection becomes shape `i`'s info.
pub open spec fn enter_transition(
    pre: HighlightStateMachine,
    post: HighlightStateMachine,
    i: int,
) -> bool {
    &&& post.shapes == pre.shapes
    &&& post.hovered@ == pre.hovered@.update(i, true)
    &&& post.selected == Some(i as usize)
}

/// `pre` stepped by a pointer-leave on shape `i`: the shape is marked idle
/// and the published selection is cleared.
pub open spec fn leave_transition(
    pre: HighlightStateMachine,
    post: HighlightStateMachine,
    i: int,
) -> bool {
    &&& post.shapes == pre.shapes
    &&& post.hovered@ == pre.hovered@.update(i, false)
    &&& post.selected == Option::<usize>::None
}

/// Per-shape hover state, keyed by shape index. Each shape is idle or
/// hovered; events arrive one at a time and the published selection
/// follows the last event (enter publishes, leave clears — the machine
/// does not assume that at most one shape is hovered). A dataset
/// replacement must go through `reset`, which drops every per-index state
/// before the new geometry is observed, so a stale hovered index can never
/// apply to the new dataset.
#[derive(Debug)]
pub struct HighlightStateMachine {
    pub shapes: Vec<Selection>,
    pub hovered: Vec<bool>,
    pub selected: Option<usize>,
}

impl HighlightStateMachine {
    /// One hover flag per shape, and no published selection that points
    /// outside the shapes.
    pub open spec fn wf(self) -> bool {
        &&& self.hovered@.len() == self.shapes@.len()
        &&& match self.selected {
            Some(i) => i < self.shapes@.len(),
            None => true,
        }
    }

    /// A machine over `shapes`: every shape idle, nothing published.
    pub fn new(shapes: Vec<Selection>) -> (r: Self)
        ensures
            r.wf(),
            r.shapes == shapes,
            r.selected is None,
            r.hovered@.len() == shapes@.len(),
            forall|i: int| 0 <= i < r.hovered@.len() ==> !r.hovered@[i],
    {
        let n = shapes.len();
        let mut hovered: Vec<bool> = Vec::new();
        let mut j: usize = 0;
        while j < n
            invariant
                0 <= j <= n,
                hovered@.len() == j,
                forall|i: int| 0 <= i < j ==> !hovered@[i],
            decreases n - j,
        {
            hovered.push(false);
            j = j + 1;
        }
        HighlightStateMachine { shapes, hovered, selected: None }
    }

    /// The pointer entered shape `i`: mark it hovered and publish it.
    pub fn pointer_enter(&mut self, i: usize)
        requires
            old(self).wf(),
            i < old(self).shapes@.len(),
        ensures
            final(self).wf(),
            enter_transition(*old(self), *final(self), i as int),
    {
        self.hovered.set(i, true);
        self.selected = Some(i);
    }

    /// The pointer left shape `i`: mark it idle and clear the publication.
    pub fn pointer_leave(&mut self, i: usize)
        requires
            old(self).wf(),
            i < old(self).shapes@.len(),
        ensures
            final(self).wf(),
            leave_transition(*old(self), *final(self), i as int),
    {
        self.hovered.set(i, false);
        self.selected = None;
    }

    /// Whether shape `i` is currently hovered; the renderer feeds this to
    /// the geometry perturbation.
    pub fn is_hovered(&self, i: usize) -> (r: bool)
        requires
            i < self.hovered@.len(),
        ensures
            r == self.hovered@[i as int],
    {
        self.hovered[i]
    }

    /// The published selection: a copy of the info of the shape the last
    /// enter event named, or nothing after a leave.
    pub fn selection(&self) -> (r: Option<Selection>)
        requires
            self.wf(),
        ensures
            match self.selected {
                Some(i) => {
                    &&& r is Some
                    &&& r->Some_0.label == self.shapes@[i as int].label
                    &&& r->Some_0.value == self.shapes@[i as int].value
                    &&& r->Some_0.percentage == self.shapes@[i as int].percentage
                },
                None => r is None,
            },
    {
        match self.selected {
            Some(i) => {
                let s = &self.shapes[i];
                Some(Selection { label: s.label.clone(), value: s.value, percentage: s.percentage })
            },
            None => None,
        }
    }

    /// The dataset was replaced: drop every per-shape state and start over
    /// idle on the new shapes.
    pub fn reset(&mut self, shapes: Vec<Selection>)
        ensures
            final(self).wf(),
            final(self).shapes == shapes,
            final(self).selected is None,
            final(self).hovered@.len() == shapes@.len(),
            forall|i: int| 0 <= i < final(self).hovered@.len() ==> !final(self).hovered@[i],
    {
        *self = Self::new(shapes);
    }
}

/// The per-shape info of a pie layout, ready for the state machine: shape
/// `i` carries item `i`'s name and value and wedge `i`'s percentage.
pub fn pie_shapes(data: &PieChartData, wedges: &Vec<WedgeGeometry>) -> (r: Vec<Selection>)
    requires
        wedges@.len() == data.items@.len(),
    ensures
        r@.len() == data.items@.len(),
        forall|i: int|
            0 <= i < r@.len() ==> {
                &&& (#[trigger] r@[i]).label == data.items@[i].name
                &&& r@[i].value == data.items@[i].value
                &&& r@[i].percentage == wedges@[i].percentage
            },
{
    let n = data.items.len();
    let mut r: Vec<Selection> = Vec::new();
    let mut j: usize = 0;
    while j < n
        invariant
            0 <= j <= n,
            n == data.items@.len(),
            n == wedges@.len(),
            r@.len() == j,
            forall|i: int|
                0 <= i < j ==> {
                    &&& (#[trigger] r@[i]).label == data.items@[i].name
                    &&& r@[i].value == data.items@[i].value
                    &&& r@[i].percentage == wedges@[i].percentage
                },
        decreases n - j,
    {
        let item = &data.items[j];
        r.push(Selection {
            label: item.name.clone(),
            value: item.value,
            percentage: wedges[j].percentage,
        });
        j = j + 1;
    }
    r
}

/// Hover round trip: entering shape `i` and then leaving it clears the
/// published selection and returns the machine exactly to its pre-hover
/// state whenever shape `i` was idle before. In particular shape `i` ends
/// idle, so the geometry recomputed for it afterwards is the unscaled
/// geometry, unchanged (see `highlighted_geometry`).
pub proof fn lemma_hover_round_trip(
    s0: HighlightStateMachine,
    s1: HighlightStateMachine,
    s2: HighlightStateMachine,
    i: int,
)
    requires
        s0.wf(),
        0 <= i < s0.hovered@.len(),
        !s0.hovered@[i],
        enter_transition(s0, s1, i),
        leave_transition(s1, s2, i),
    ensures
        s2.selected is None,
        s2.shapes == s0.shapes,
        s2.hovered@ == s0.hovered@,
        !s2.hovered@[i],
{
    assert(s2.hovered@ =~= s0.hovered@);
}

} // verus!
