//! User intents and their effect on the state store.

use crate::backend::CheckResult;
use crate::state::{App, AppView, merge_all_spec, toggled};
use vstd::prelude::*;

verus! {

/// What the user asked for.
#[derive(Debug, Clone, Copy, PartialEq, Eq, Structural)]
pub enum Action {
    Quit,
    MoveUp,
    MoveDown,
    ToggleInspect,
    /// Reserved: changes nothing yet.
    CycleSort,
    /// Reserved: changes nothing yet.
    ToggleSortDirection,
    /// Reserved: changes nothing yet.
    Search,
    /// Reserved: changes nothing yet.
    Help,
}

/// The store after `action` is applied to `v`.
pub open spec fn applied(action: Action, v: AppView) -> AppView {
    match action {
        Action::MoveUp => AppView { selected: v.next_selected(), ..v },
        Action::MoveDown => AppView { selected: v.previous_selected(), ..v },
        Action::ToggleInspect => AppView { mode: toggled(v.mode), ..v },
        _ => v,
    }
}

/// Applies `action` to the store. Returns true for `Quit`, which ends the
/// event loop and changes nothing; every other action returns false.
pub fn handle_action(action: &Action, app: &mut App) -> (quit: bool)
    requires
        old(app).wf(),
    ensures
        final(app).wf(),
        quit == (*action == Action::Quit),
        final(app)@ == applied(*action, old(app)@),
{
    match action {
        Action::Quit => {
            return true;
        },
        Action::MoveUp => {
            app.next_row();
        },
        Action::MoveDown => {
            app.previous_row();
        },
        Action::ToggleInspect => {
            app.toggle_inspect();
        },
        Action::CycleSort => {},
        Action::ToggleSortDirection => {},
        Action::Search => {},
        Action::Help => {},
    }
    false
}

/// One tick of the event loop after input was awaited: `action` is what the
/// key pressed during the wait stands for, if any, and `pending` the outcomes
/// that arrived since the last tick, oldest first. Quit ends the loop at
/// once (returns true) and merges nothing; otherwise the action is applied
/// and then every pending outcome is merged, in arrival order.
pub fn run_tick(app: &mut App, action: Option<Action>, pending: Vec<CheckResult>) -> (quit: bool)
    requires
        old(app).wf(),
    ensures
        final(app).wf(),
        quit == (action == Some(Action::Quit)),
        quit ==> final(app)@ == old(app)@,
        !quit ==> final(app)@ == merge_all_spec(
            match action {
                Some(a) => applied(a, old(app)@),
                None => old(app)@,
            },
            pending@,
        ),
{
    if let Some(a) = action {
        if handle_action(&a, app) {
            return true;
        }
    }
    app.merge_all(pending);
    false
}

} // verus!
