use vstd::prelude::*;
use crate::app_state::{AppState, AppStateView, ViewMode};
use crate::issue::{Issue, IssueState};
use crate::menu_items::MenuItems;

verus! {

/// One visible row of the list view: the issue title, and whether this
/// row is the selected one.
#[derive(Clone, Debug, PartialEq, Eq)]
pub struct ListRow {
    pub title: String,
    pub highlighted: bool,
}

/// The list-view frame: the legend of menu labels, then the window of
/// issue rows that starts at the scroll offset.
#[derive(Clone, Debug, PartialEq, Eq)]
pub struct ListFrame {
    pub legend: Vec<String>,
    pub rows: Vec<ListRow>,
}

/// The detail-view frame: the full record of the selected issue.
#[derive(Clone, Debug, PartialEq, Eq)]
pub struct DetailFrame {
    pub number: u64,
    pub title: String,
    pub body: Option<String>,
    pub state: IssueState,
    pub author: String,
    pub created_at: String,
}

/// A computed terminal frame, ready to be drawn.
#[derive(Clone, Debug, PartialEq, Eq)]
pub enum Frame {
    List(ListFrame),
    Detail(DetailFrame),
}

/// How many issue rows fit in the list window: at most `height`, and at
/// most the issues that remain from the scroll offset on.
pub open spec fn visible_count(m: AppStateView, height: int) -> int {
    let remaining = m.issues.len() - m.scroll_offset;
    if height <= remaining {
        height
    } else {
        remaining
    }
}

/// What a correct list frame holds: the legend mirrors the menu labels
/// in order, the rows are the titles of the visible window, and exactly
/// the selected row is highlighted.
pub open spec fn list_frame_ok(f: ListFrame, m: AppStateView, menu: MenuItems, height: int) -> bool {
    &&& f.legend@.len() == menu.items@.len()
    &&& forall|i: int| 0 <= i < menu.items@.len() ==> f.legend@[i]@ == menu.items@[i].label@
    &&& f.rows@.len() == visible_count(m, height)
    &&& forall|i: int|
        0 <= i < f.rows@.len() ==> f.rows@[i].title@ == m.issues[m.scroll_offset + i].title@
    &&& forall|i: int|
        0 <= i < f.rows@.len() ==> (f.rows@[i].highlighted <==> m.scroll_offset + i
            == m.selected_index)
}

/// What a correct detail frame holds: every field of the selected issue,
/// unchanged.
pub open spec fn detail_frame_ok(f: DetailFrame, m: AppStateView) -> bool {
    let sel = m.issues[m.selected_index];
    &&& f.number == sel.number
    &&& f.title@ == sel.title@
    &&& f.body.deep_view() == sel.body.deep_view()
    &&& f.state == sel.state
    &&& f.author@ == sel.author@
    &&& f.created_at@ == sel.created_at@
}

/// Computes the list-view frame: the menu legend, then a window of
/// `height` rows (fewer near the end) starting at the scroll offset,
/// with the selected row highlighted.
pub fn render_list(state: &AppState, menu: &MenuItems, height: usize) -> (f: ListFrame)
    requires
        state@.wf(),
    ensures
        list_frame_ok(f, state@, *menu, height as int),
{
    let mut legend: Vec<String> = Vec::new();
    let n = menu.items.len();
    let mut i: usize = 0;
    while i < n
        invariant
            i <= n,
            n == menu.items@.len(),
            legend@.len() == i,
            forall|j: int| 0 <= j < i ==> legend@[j]@ == menu.items@[j].label@,
        decreases n - i,
    {
        legend.push(menu.items[i].label.clone());
        i += 1;
    }

    let len = state.issues.len();
    let scroll = state.scroll_offset;
    let remaining = len - scroll;
    let count = if height <= remaining {
        height
    } else {
        remaining
    };
    let mut rows: Vec<ListRow> = Vec::new();
    let mut r: usize = 0;
    while r < count
        invariant
            r <= count,
            state@.wf(),
            len == state@.issues.len(),
            scroll == state@.scroll_offset,
            count == visible_count(state@, height as int),
            scroll + count <= len,
            rows@.len() == r,
            forall|j: int|
                0 <= j < r ==> rows@[j].title@ == state@.issues[state@.scroll_offset + j].title@,
            forall|j: int|
                0 <= j < r ==> (rows@[j].highlighted <==> state@.scroll_offset + j
                    == state@.selected_index),
        decreases count - r,
    {
        let idx = scroll + r;
        let title = state.issues[idx].title.clone();
        let highlighted = idx == state.selected_index;
        rows.push(ListRow { title, highlighted });
        r += 1;
    }

    ListFrame { legend, rows }
}

/// Computes the detail-view frame: a copy of every field of the selected
/// issue.
pub fn render_detail(state: &AppState) -> (f: DetailFrame)
    requires
        state@.wf(),
        state@.view_mode == ViewMode::Detail,
    ensures
        detail_frame_ok(f, state@),
{
    let sel: &Issue = &state.issues[state.selected_index];
    let body: Option<String> = match &sel.body {
        Some(b) => Some(b.clone()),
        None => None,
    };
    DetailFrame {
        number: sel.number,
        title: sel.title.clone(),
        body,
        state: sel.state,
        author: sel.author.clone(),
        created_at: sel.created_at.clone(),
    }
}

/// The renderer: a pure function of the session state (plus the issue
/// sequence it holds and the menu registry) to a frame. The terminating
/// mode is never rendered; the loop stops first.
pub fn render(state: &AppState, menu: &MenuItems, height: usize) -> (r: Frame)
    requires
        state@.wf(),
        state@.view_mode != ViewMode::Quitting,
    ensures
        state@.view_mode == ViewMode::List ==> (r matches Frame::List(f) && list_frame_ok(
            f,
            state@,
            *menu,
            height as int,
        )),
        state@.view_mode == ViewMode::Detail ==> (r matches Frame::Detail(f) && detail_frame_ok(
            f,
            state@,
        )),
{
    match state.view_mode {
        ViewMode::Detail => Frame::Detail(render_detail(state)),
        _ => Frame::List(render_list(state, menu, height)),
    }
}

} // verus!
