use vstd::prelude::*;

use crate::components::Component;

verus! {

/// A message on the action channel: a user intent, a lifecycle event, or an internal signal.
#[derive(Debug)]
pub enum Action {
    Down,
    Up,
    PageUp,
    PageDown,
    Quit,
    All,
    Inspect,
    Logs,
    Shell,
    Delete,
    Screen(Component),
    Confirm,
    PreviousScreen,
    Change,
    Filter,
    SetFilter(Option<String>),
    Tick,
    Render,
    Error(String),
    Resize(u16, u16),
    Resume,
    Suspend,
    CustomShell,
    SortColumn(u8),
    Help,
    AutoScroll,
    Since(u16),
    LineWrap,
}

} // verus!
