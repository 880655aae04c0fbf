use vstd::prelude::*;
use crate::app_state::{AppState, AppStateView, ViewMode};
use crate::events::{Event, Key};
use crate::menu_items::{action_of_key, Action, MenuItems};

verus! {

/// What one action does to the state in the current view mode: the list
/// view navigates, opens the detail view, or quits; the detail view goes
/// back or quits and ignores navigation; the terminating state absorbs
/// everything.
pub open spec fn step_action(m: AppStateView, a: Action, height: int) -> AppStateView {
    match m.view_mode {
        ViewMode::List => match a {
            Action::MoveUp => m.move_selection(-1, height),
            Action::MoveDown => m.move_selection(1, height),
            Action::OpenDetail => m.enter_detail(),
            Action::CloseDetail => m,
            Action::Quit => m.request_quit(),
        },
        ViewMode::Detail => match a {
            Action::MoveUp => m,
            Action::MoveDown => m,
            Action::OpenDetail => m,
            Action::CloseDetail => m.exit_detail(),
            Action::Quit => m.request_quit(),
        },
        ViewMode::Quitting => m,
    }
}

/// The transition of the event loop: a pure function of the current view
/// mode and one input event. Resizes, unbound keys, and every event in
/// the terminating state leave the state unchanged.
pub open spec fn step(m: AppStateView, e: Event, height: int) -> AppStateView {
    if m.view_mode == ViewMode::Quitting {
        m
    } else {
        match e {
            Event::Resize(_, _) => m,
            Event::Key(k) => match action_of_key(k) {
                Some(a) => step_action(m, a, height),
                None => m,
            },
        }
    }
}

/// The state after a whole sequence of input events, applied in order.
pub open spec fn apply_events(m: AppStateView, es: Seq<Event>, height: int) -> AppStateView
    decreases es.len(),
{
    if es.len() == 0 {
        m
    } else {
        apply_events(step(m, es[0], height), es.skip(1), height)
    }
}

/// Applies one input event to the session state, resolving the key
/// through the menu registry, exactly as `step` describes.
pub fn handle_event(state: &mut AppState, menu: &MenuItems, event: Event, viewport_height: usize)
    requires
        old(state)@.wf(),
    ensures
        final(state)@ == step(old(state)@, event, viewport_height as int),
        final(state)@.wf(),
{
    if matches!(state.view_mode, ViewMode::Quitting) {
        return;
    }
    match event {
        Event::Resize(_, _) => {},
        Event::Key(k) => {
            match menu.resolve(k) {
                None => {},
                Some(a) => {
                    match state.view_mode {
                        ViewMode::List => match a {
                            Action::MoveUp => state.move_selection(-1, viewport_height),
                            Action::MoveDown => state.move_selection(1, viewport_height),
                            Action::OpenDetail => state.enter_detail(),
                            Action::CloseDetail => {},
                            Action::Quit => state.request_quit(),
                        },
                        ViewMode::Detail => match a {
                            Action::CloseDetail => state.exit_detail(),
                            Action::Quit => state.request_quit(),
                            Action::MoveUp => {},
                            Action::MoveDown => {},
                            Action::OpenDetail => {},
                        },
                        ViewMode::Quitting => {},
                    }
                },
            }
        },
    }
}

/// Law: every single transition preserves the state invariant and never
/// touches the issue sequence.
pub proof fn lemma_step_preserves_wf(m: AppStateView, e: Event, height: int)
    requires
        m.wf(),
    ensures
        step(m, e, height).wf(),
        step(m, e, height).issues == m.issues,
{
}

/// Law: any sequence of input events preserves the state invariant and
/// never touches the issue sequence.
pub proof fn lemma_apply_events_wf(m: AppStateView, es: Seq<Event>, height: int)
    requires
        m.wf(),
    ensures
        apply_events(m, es, height).wf(),
        apply_events(m, es, height).issues == m.issues,
    decreases es.len(),
{
    if es.len() > 0 {
        lemma_step_preserves_wf(m, es[0], height);
        lemma_apply_events_wf(step(m, es[0], height), es.skip(1), height);
    }
}

/// Law: with a non-empty issue sequence, no sequence of input events
/// (navigation included) ever moves the selection out of
/// `[0, issues.len() - 1]`, and the scroll offset never passes the
/// selection.
pub proof fn lemma_selection_stays_in_bounds(m: AppStateView, es: Seq<Event>, height: int)
    requires
        m.wf(),
        m.issues.len() > 0,
    ensures
        ({
            let r = apply_events(m, es, height);
            &&& r.issues == m.issues
            &&& 0 <= r.selected_index < m.issues.len()
            &&& 0 <= r.scroll_offset <= r.selected_index
        }),
{
    lemma_apply_events_wf(m, es, height);
}

/// Law: once the state is terminating, no input event changes anything;
/// in particular the view mode never leaves `Quitting`.
pub proof fn lemma_quitting_is_terminal(m: AppStateView, es: Seq<Event>, height: int)
    requires
        m.view_mode == ViewMode::Quitting,
    ensures
        apply_events(m, es, height) == m,
    decreases es.len(),
{
    if es.len() > 0 {
        lemma_quitting_is_terminal(m, es.skip(1), height);
    }
}

/// Law: after a quit request, whatever events follow, the state stays
/// exactly the quit-requested state.
pub proof fn lemma_request_quit_is_terminal(m: AppStateView, es: Seq<Event>, height: int)
    ensures
        apply_events(m.request_quit(), es, height) == m.request_quit(),
{
    lemma_quitting_is_terminal(m.request_quit(), es, height);
}

/// Law: from any state that is not terminating, entering the detail view
/// and leaving it again lands in the list view with the selection, the
/// scroll offset, and the issues unchanged.
pub proof fn lemma_detail_round_trip(m: AppStateView)
    requires
        m.view_mode != ViewMode::Quitting,
    ensures
        m.enter_detail().exit_detail().view_mode == ViewMode::List,
        m.enter_detail().exit_detail().selected_index == m.selected_index,
        m.enter_detail().exit_detail().scroll_offset == m.scroll_offset,
        m.enter_detail().exit_detail().issues == m.issues,
{
}

/// Law: with no issues, moving the selection changes nothing at all (the
/// view mode included), and entering the detail view is a no-op.
pub proof fn lemma_empty_issues_inert(m: AppStateView, delta: int, height: int)
    requires
        m.issues.len() == 0,
    ensures
        m.move_selection(delta, height) == m,
        m.enter_detail() == m,
{
}

/// Law: a key that no menu item binds leaves the state exactly as it
/// was.
pub proof fn lemma_unbound_key_inert(m: AppStateView, k: Key, height: int)
    requires
        action_of_key(k) is None,
    ensures
        step(m, Event::Key(k), height) == m,
{
}

/// Law: a resize event never changes the state; only the next frame
/// honours the new size.
pub proof fn lemma_resize_inert(m: AppStateView, w: u16, h: u16, height: int)
    ensures
        step(m, Event::Resize(w, h), height) == m,
{
}

/// Whether the event loop must stop before reading another event.
pub fn should_quit(state: &AppState) -> (r: bool)
    ensures
        r == (state@.view_mode == ViewMode::Quitting),
{
    matches!(state.view_mode, ViewMode::Quitting)
}

} // verus!
