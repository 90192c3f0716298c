use vstd::prelude::*;

use crate::action::Action;
use crate::components::{scroll, scrolled, Component, Outcome};


verus! {

/// The engine's description of one image, as text.
#[derive(Debug)]
pub struct ImageInspect {
    pub id: String,
    pub name: String,
    pub details: String,
    pub vertical_scroll: usize,
}

impl ImageInspect {
    pub fn new(id: String, name: String, details: String) -> (r: ImageInspect)
        ensures
            r.id == id,
            r.name == name,
            r.details == details,
            r.vertical_scroll == 0,
    {
        ImageInspect { id, name, details, vertical_scroll: 0 }
    }

    pub fn get_name(&self) -> (r: &'static str)
        ensures
            r@ == "ImageInspect"@,
    {
        "ImageInspect"
    }

    /// `PreviousScreen` goes back to the image list; navigation actions scroll the text.
    pub open spec fn update_post(old: ImageInspect, action: Action, new: ImageInspect, out: Outcome) -> bool {
        if action is PreviousScreen {
            &&& new == old
            &&& out.effects@.len() == 0
            &&& out.actions@.len() == 1
            &&& out.actions@[0] matches Action::Screen(Component::Images(s)) && s.is_fresh()
        } else {
            &&& new.id == old.id
            &&& new.name == old.name
            &&& new.details == old.details
            &&& new.vertical_scroll == scrolled(old.vertical_scroll, action)
            &&& out.is_empty()
        }
    }

    pub fn update(&mut self, action: Action) -> (out: Outcome)
        ensures
            Self::update_post(*old(self), action, *final(self), out),
    {
        match action {
            Action::PreviousScreen => Outcome::one(Action::Screen(Component::Images(crate::components::images::Images::new()))),
            _ => {
                self.vertical_scroll = scroll(self.vertical_scroll, &action);
                Outcome::none()
            }
        }
    }
}

} // verus!
