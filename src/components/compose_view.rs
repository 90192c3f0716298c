use vstd::prelude::*;

use crate::action::Action;
use crate::components::{scroll, scrolled, Component, Outcome};
use crate::runtime::model::Compose;

verus! {

/// Details of one compose project.
#[derive(Debug)]
pub struct ComposeView {
    pub compose: Compose,
    pub vertical_scroll: usize,
}

impl ComposeView {
    pub fn new(compose: Compose) -> (r: ComposeView)
        ensures
            r.compose == compose,
            r.vertical_scroll == 0,
    {
        ComposeView { compose, vertical_scroll: 0 }
    }

    pub fn get_name(&self) -> (r: &'static str)
        ensures
            r@ == "ComposeView"@,
    {
        "ComposeView"
    }

    /// `PreviousScreen` goes back to the compose project list; navigation actions scroll the text.
    pub open spec fn update_post(old: ComposeView, action: Action, new: ComposeView, out: Outcome) -> bool {
        if action is PreviousScreen {
            &&& new == old
            &&& out.effects@.len() == 0
            &&& out.actions@.len() == 1
            &&& out.actions@[0] matches Action::Screen(Component::Composes(s)) && s.is_fresh()
        } else {
            &&& new.compose == old.compose
            &&& new.vertical_scroll == scrolled(old.vertical_scroll, action)
            &&& out.is_empty()
        }
    }

    pub fn update(&mut self, action: Action) -> (out: Outcome)
        ensures
            Self::update_post(*old(self), action, *final(self), out),
    {
        match action {
            Action::PreviousScreen => Outcome::one(Action::Screen(Component::Composes(crate::components::composes::Composes::new()))),
            _ => {
                self.vertical_scroll = scroll(self.vertical_scroll, &action);
                Outcome::none()
            }
        }
    }
}

} // verus!
