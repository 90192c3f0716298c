use vstd::prelude::*;

use crate::action::Action;
use crate::components::{scroll, scrolled, Component, Outcome};


verus! {

/// The engine's description of one volume, as text.
#[derive(Debug)]
pub struct VolumeInspect {
    pub id: String,
    pub details: String,
    pub vertical_scroll: usize,
}

impl VolumeInspect {
    pub fn new(id: String, details: String) -> (r: VolumeInspect)
        ensures
            r.id == id,
            r.details == details,
            r.vertical_scroll == 0,
    {
        VolumeInspect { id, details, vertical_scroll: 0 }
    }

    pub fn get_name(&self) -> (r: &'static str)
        ensures
            r@ == "VolumeInspect"@,
    {
        "VolumeInspect"
    }

    /// `PreviousScreen` goes back to the volume list; navigation actions scroll the text.
    pub open spec fn update_post(old: VolumeInspect, action: Action, new: VolumeInspect, out: Outcome) -> bool {
        if action is PreviousScreen {
            &&& new == old
            &&& out.effects@.len() == 0
            &&& out.actions@.len() == 1
            &&& out.actions@[0] matches Action::Screen(Component::Volumes(s)) && s.is_fresh(Seq::empty())
        } else {
            &&& new.id == old.id
            &&& new.details == old.details
            &&& new.vertical_scroll == scrolled(old.vertical_scroll, action)
            &&& out.is_empty()
        }
    }

    pub fn update(&mut self, action: Action) -> (out: Outcome)
        ensures
            Self::update_post(*old(self), action, *final(self), out),
    {
        match action {
            Action::PreviousScreen => Outcome::one(Action::Screen(Component::Volumes(crate::components::volumes::Volumes::new(crate::runtime::model::Filter::new())))),
            _ => {
                self.vertical_scroll = scroll(self.vertical_scroll, &action);
                Outcome::none()
            }
        }
    }
}

} // verus!
