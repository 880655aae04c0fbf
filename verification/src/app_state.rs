use vstd::prelude::*;
use crate::issue::Issue;

verus! {

/// Which screen the session currently renders.
#[derive(Clone, Copy, Debug, PartialEq, Eq, Structural)]
pub enum ViewMode {
    List,
    Detail,
    Quitting,
}

/// Mathematical model of the session state: the issue sequence, the
/// selected row, the first visible row, and the current view mode.
#[verifier::ext_equal]
pub struct AppStateView {
    pub issues: Seq<Issue>,
    pub selected_index: int,
    pub scroll_offset: int,
    pub view_mode: ViewMode,
}

/// Where the first visible row must move so that the row at `idx` stays
/// inside a window of `height` rows that starts at `off`.
pub open spec fn followed_offset(off: int, idx: int, height: int) -> int {
    if height <= 0 {
        idx
    } else if idx < off {
        idx
    } else if idx >= off + height {
        idx - (height - 1)
    } else {
        off
    }
}

impl AppStateView {
    /// The state invariant: the selection is a valid index whenever there
    /// are issues (and pinned to 0 otherwise), the scroll offset never
    /// passes the selection, and the detail view is only ever entered
    /// with something to show.
    pub open spec fn wf(self) -> bool {
        &&& 0 <= self.scroll_offset
        &&& self.scroll_offset <= self.selected_index
        &&& self.issues.len() == 0 ==> self.selected_index == 0
        &&& self.issues.len() > 0 ==> self.selected_index < self.issues.len()
        &&& self.view_mode == ViewMode::Detail ==> self.issues.len() > 0
    }

    /// The selection shifted by `delta` and clamped to the valid range;
    /// only meaningful when there are issues.
    pub open spec fn clamped_index(self, delta: int) -> int {
        let target = self.selected_index + delta;
        if target < 0 {
            0
        } else if target > self.issues.len() - 1 {
            self.issues.len() - 1
        } else {
            target
        }
    }

    /// Shifts the selection by `delta`, clamped to the ends, and keeps
    /// the selected row inside the viewport; a no-op with no issues.
    pub open spec fn move_selection(self, delta: int, height: int) -> AppStateView {
        if self.issues.len() == 0 {
            self
        } else {
            let idx = self.clamped_index(delta);
            AppStateView {
                issues: self.issues,
                selected_index: idx,
                scroll_offset: followed_offset(self.scroll_offset, idx, height),
                view_mode: self.view_mode,
            }
        }
    }

    /// Switches to the detail view, but only from the list view and only
    /// when there is an issue to show; a no-op otherwise.
    pub open spec fn enter_detail(self) -> AppStateView {
        if self.view_mode == ViewMode::List && self.issues.len() > 0 {
            AppStateView { view_mode: ViewMode::Detail, ..self }
        } else {
            self
        }
    }

    /// Returns from the detail view to the list view; a no-op in any
    /// other mode.
    pub open spec fn exit_detail(self) -> AppStateView {
        if self.view_mode == ViewMode::Detail {
            AppStateView { view_mode: ViewMode::List, ..self }
        } else {
            self
        }
    }

    /// Marks the session as terminating; unconditional and idempotent.
    pub open spec fn request_quit(self) -> AppStateView {
        AppStateView { view_mode: ViewMode::Quitting, ..self }
    }
}

/// Law: with a positive viewport height, every navigation step leaves
/// the selected row inside the visible window, which starts at the
/// scroll offset and is `height` rows tall.
pub proof fn lemma_selection_stays_visible(m: AppStateView, delta: int, height: int)
    requires
        m.wf(),
        height > 0,
    ensures
        ({
            let r = m.move_selection(delta, height);
            r.scroll_offset <= r.selected_index < r.scroll_offset + height
        }),
{
}

/// Mutable session state. `new` establishes `wf` on the view, and every
/// method below preserves it.
pub struct AppState {
    pub issues: Vec<Issue>,
    pub selected_index: usize,
    pub scroll_offset: usize,
    pub view_mode: ViewMode,
}

impl View for AppState {
    type V = AppStateView;

    open spec fn view(&self) -> AppStateView {
        AppStateView {
            issues: self.issues@,
            selected_index: self.selected_index as int,
            scroll_offset: self.scroll_offset as int,
            view_mode: self.view_mode,
        }
    }
}

impl AppState {
    /// Builds the initial state for a fetched issue sequence: first row
    /// selected, nothing scrolled, list view. An empty sequence is
    /// accepted; navigation is then inert and the detail view stays
    /// unreachable.
    pub fn new(issues: Vec<Issue>) -> (s: AppState)
        ensures
            s@.issues == issues@,
            s@.selected_index == 0,
            s@.scroll_offset == 0,
            s@.view_mode == ViewMode::List,
            s@.wf(),
    {
        AppState { issues, selected_index: 0, scroll_offset: 0, view_mode: ViewMode::List }
    }

    /// Runtime check of the state invariant, for callers outside the
    /// verified world.
    pub fn is_well_formed(&self) -> (r: bool)
        ensures
            r == self@.wf(),
    {
        let len = self.issues.len();
        self.scroll_offset <= self.selected_index
            && (if len == 0 {
                self.selected_index == 0
            } else {
                self.selected_index < len
            })
            && (!matches!(self.view_mode, ViewMode::Detail) || len > 0)
    }

    /// Shifts the selection by `delta`, clamped to `[0, issues.len() - 1]`
    /// without wrapping, and moves the scroll offset so the selected row
    /// stays inside a viewport of `viewport_height` rows. A no-op when
    /// there are no issues; never changes the issues or the view mode.
    pub fn move_selection(&mut self, delta: i64, viewport_height: usize)
        requires
            old(self)@.wf(),
        ensures
            final(self)@ == old(self)@.move_selection(delta as int, viewport_height as int),
            final(self)@.wf(),
    {
        if self.issues.len() == 0 {
            return;
        }
        let len = self.issues.len();
        let idx = self.selected_index;
        let new_idx: usize;
        if delta >= 0 {
            let down = delta as u64;
            let room = (len - 1 - idx) as u64;
            if down >= room {
                new_idx = len - 1;
            } else {
                new_idx = idx + down as usize;
            }
        } else {
            let up: u64 = if delta == i64::MIN {
                9223372036854775808u64
            } else {
                (-delta) as u64
            };
            if up >= idx as u64 {
                new_idx = 0;
            } else {
                new_idx = idx - up as usize;
            }
        }
        if viewport_height == 0 {
            self.scroll_offset = new_idx;
        } else if new_idx < self.scroll_offset {
            self.scroll_offset = new_idx;
        } else if new_idx - self.scroll_offset >= viewport_height {
            self.scroll_offset = new_idx - (viewport_height - 1);
        }
        self.selected_index = new_idx;
    }

    /// Switches to the detail view if the list view is showing and there
    /// is an issue to show; a no-op otherwise.
    pub fn enter_detail(&mut self)
        requires
            old(self)@.wf(),
        ensures
            final(self)@ == old(self)@.enter_detail(),
            final(self)@.wf(),
    {
        if matches!(self.view_mode, ViewMode::List) && self.issues.len() > 0 {
            self.view_mode = ViewMode::Detail;
        }
    }

    /// Returns from the detail view to the list view; a no-op in any
    /// other mode.
    pub fn exit_detail(&mut self)
        requires
            old(self)@.wf(),
        ensures
            final(self)@ == old(self)@.exit_detail(),
            final(self)@.wf(),
    {
        if matches!(self.view_mode, ViewMode::Detail) {
            self.view_mode = ViewMode::List;
        }
    }

    /// Marks the session as terminating. Unconditional: applies in every
    /// mode, and applying it twice changes nothing further.
    pub fn request_quit(&mut self)
        requires
            old(self)@.wf(),
        ensures
            final(self)@ == old(self)@.request_quit(),
            final(self)@.wf(),
    {
        self.view_mode = ViewMode::Quitting;
    }
}

} // verus!
