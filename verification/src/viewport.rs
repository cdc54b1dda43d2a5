//! The viewport: scroll offsets into content larger than the visible panes,
//! and the navigation rules that keep them inside the content.

use crate::input::Command;
use vstd::prelude::*;

verus! {

/// The scroll state of the viewer: offsets into the content, the pane sizes
/// the offsets are measured against, and the content's own size.
#[derive(Clone, Copy, Debug, PartialEq, Eq, Structural)]
pub struct ViewportState {
    pub row_offset: usize,
    pub col_offset: usize,
    pub visible_rows: usize,
    pub visible_cols: usize,
    pub total_rows: usize,
    pub total_cols: usize,
}

/// Scrolling down is allowed only while the bottom-most content row is not
/// yet fully visible.
pub open spec fn can_scroll_down(v: ViewportState) -> bool {
    v.row_offset + v.visible_rows < v.total_rows
}

/// Scrolling up is allowed only while some row is hidden above the pane.
pub open spec fn can_scroll_up(v: ViewportState) -> bool {
    v.row_offset > 0
}

/// Scrolling right is allowed only while the right content edge is not yet
/// fully visible.
pub open spec fn can_scroll_right(v: ViewportState) -> bool {
    v.col_offset + v.visible_cols < v.total_cols
}

/// Scrolling left is allowed only while some column is hidden to the left.
pub open spec fn can_scroll_left(v: ViewportState) -> bool {
    v.col_offset > 0
}

/// The offsets never expose space beyond the content's far edge: either the
/// pane is at the content start, or its window still fits inside the content.
pub open spec fn wf(v: ViewportState) -> bool {
    &&& v.row_offset + v.visible_rows <= v.total_rows || v.row_offset == 0
    &&& v.col_offset + v.visible_cols <= v.total_cols || v.col_offset == 0
}

/// The state one command leaves behind: the stepped offset when the move is
/// allowed, the same state when it is rejected (a no-op, not an error).
pub open spec fn apply_spec(v: ViewportState, command: Command) -> ViewportState {
    match command {
        Command::ScrollUp => if can_scroll_up(v) {
            ViewportState { row_offset: (v.row_offset - 1) as usize, ..v }
        } else {
            v
        },
        Command::ScrollDown => if can_scroll_down(v) {
            ViewportState { row_offset: (v.row_offset + 1) as usize, ..v }
        } else {
            v
        },
        Command::ScrollLeft => if can_scroll_left(v) {
            ViewportState { col_offset: (v.col_offset - 1) as usize, ..v }
        } else {
            v
        },
        Command::ScrollRight => if can_scroll_right(v) {
            ViewportState { col_offset: (v.col_offset + 1) as usize, ..v }
        } else {
            v
        },
        Command::Quit => v,
        Command::Ignore => v,
    }
}

/// Navigation preserves the viewport invariant, whatever the command.
pub proof fn lemma_apply_preserves_wf(v: ViewportState, command: Command)
    requires
        wf(v),
    ensures
        wf(apply_spec(v, command)),
{
}

/// Repeated navigation from a fresh viewport can never scroll above the first
/// row or left of the first column: a rejected step stays put, so offsets
/// stay at zero under `ScrollUp` (`ScrollLeft`) until a down (right) step
/// moves them.
pub proof fn lemma_scroll_up_at_top_is_noop(v: ViewportState)
    requires
        v.row_offset == 0,
    ensures
        apply_spec(v, Command::ScrollUp) == v,
{
}

/// Once the last content row is visible, a further down step is a no-op.
pub proof fn lemma_scroll_down_at_bottom_is_noop(v: ViewportState)
    requires
        v.row_offset + v.visible_rows >= v.total_rows,
    ensures
        apply_spec(v, Command::ScrollDown) == v,
{
}

/// The horizontal analogues: at the left boundary a left step is a no-op, and
/// once the right content edge is visible a right step is a no-op.
pub proof fn lemma_scroll_sideways_at_edge_is_noop(v: ViewportState)
    ensures
        v.col_offset == 0 ==> apply_spec(v, Command::ScrollLeft) == v,
        v.col_offset + v.visible_cols >= v.total_cols ==> apply_spec(v, Command::ScrollRight)
            == v,
{
}

impl ViewportState {
    /// A fresh viewport: both offsets at zero, showing the content's start.
    pub fn new(visible_rows: usize, visible_cols: usize, total_rows: usize, total_cols: usize)
        -> (v: ViewportState)
        ensures
            v == (ViewportState {
                row_offset: 0,
                col_offset: 0,
                visible_rows,
                visible_cols,
                total_rows,
                total_cols,
            }),
            wf(v),
    {
        ViewportState {
            row_offset: 0,
            col_offset: 0,
            visible_rows,
            visible_cols,
            total_rows,
            total_cols,
        }
    }

    /// Applies one navigation command, stepping the matching offset when the
    /// move stays inside the content and leaving the state unchanged when it
    /// does not. `Quit` and `Ignore` never change the state.
    pub fn apply(&mut self, command: Command)
        requires
            wf(*old(self)),
        ensures
            *final(self) == apply_spec(*old(self), command),
            wf(*final(self)),
    {
        match command {
            Command::ScrollUp => {
                if self.row_offset > 0 {
                    self.row_offset = self.row_offset - 1;
                }
            },
            Command::ScrollDown => {
                if self.row_offset < usize::MAX - self.visible_rows
                    && self.row_offset + self.visible_rows < self.total_rows {
                    self.row_offset = self.row_offset + 1;
                }
            },
            Command::ScrollLeft => {
                if self.col_offset > 0 {
                    self.col_offset = self.col_offset - 1;
                }
            },
            Command::ScrollRight => {
                if self.col_offset < usize::MAX - self.visible_cols
                    && self.col_offset + self.visible_cols < self.total_cols {
                    self.col_offset = self.col_offset + 1;
                }
            },
            Command::Quit => {},
            Command::Ignore => {},
        }
    }
}

} // verus!
