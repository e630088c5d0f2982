//! The model-selection state machine's state and its intent-recording step.

use vstd::prelude::*;
use crate::shape::ShapeId;

verus! {

/// The two fields of the model-selection state machine. The machine is
/// `Idle` when `previous == selected` and has a pending swap otherwise;
/// reconciliation (see `crate::scene`) restores the idle state.
#[derive(Clone, Copy, PartialEq, Eq, Structural, Debug)]
pub struct SelectionState {
    /// The shape whose renderable is currently spawned.
    pub previous: ShapeId,
    /// The shape most recently chosen through the UI.
    pub selected: ShapeId,
}

/// The state the machine starts in: idle, displaying the default cube.
pub open spec fn initial_selection() -> SelectionState {
    SelectionState { previous: ShapeId::Cube, selected: ShapeId::Cube }
}

/// One selection request: only the `selected` field changes.
pub open spec fn request(sel: SelectionState, id: ShapeId) -> SelectionState {
    SelectionState { previous: sel.previous, selected: id }
}

/// The selection after a whole sequence of requests, applied left to right.
pub open spec fn apply_requests(sel: SelectionState, reqs: Seq<ShapeId>) -> SelectionState
    decreases reqs.len(),
{
    if reqs.len() == 0 {
        sel
    } else {
        request(apply_requests(sel, reqs.drop_last()), reqs.last())
    }
}

impl SelectionState {
    /// Whether a swap is pending, i.e. the user's last choice is not the
    /// shape currently displayed.
    pub fn is_pending(&self) -> (r: bool)
        ensures
            r == (self.previous != self.selected),
    {
        self.previous != self.selected
    }

    /// Records intent only: sets `selected` and nothing else. No side
    /// effect occurs until the next reconciliation pass.
    pub fn request_selection(&mut self, id: ShapeId)
        ensures
            *final(self) == request(*old(self), id),
    {
        self.selected = id;
    }
}

impl Default for SelectionState {
    /// Both fields start at the default identity, so the machine starts
    /// idle with that shape already spawned during setup.
    fn default() -> (s: Self)
        ensures
            s == initial_selection(),
    {
        SelectionState { previous: ShapeId::Cube, selected: ShapeId::Cube }
    }
}

} // verus!
