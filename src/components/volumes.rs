use vstd::prelude::*;

use crate::action::Action;
use crate::components::{
    is_error, next_index, next_sel, prev_sel, previous_index, refreshed_sel, Component, Outcome, Reply,
    Request,
};
use crate::components::volume_inspect::VolumeInspect;
use crate::order::{lemma_text_cmp_antisymmetric, lemma_text_order, sort_ranked, sorted_from, Ranked};
use crate::runtime::model::{filter_of_text, Entries, Filter, VolumeSummary};
use crate::text::{compare_i64, compare_text, int_cmp, join2, join3, reverse_ordering, reversed, text_cmp};

verus! {

#[derive(Clone, Copy, Debug, PartialEq, Eq, Structural)]
pub enum SortOrder {
    Asc,
    Desc,
}

#[derive(Clone, Copy, Debug, PartialEq, Eq, Structural)]
pub enum SortColumn {
    Id(SortOrder),
    Driver(SortOrder),
    Size(SortOrder),
    Age(SortOrder),
}

/// The order after pressing sort key `n`: the column of key `n` ascending, or
/// descending when it was already ascending; other keys keep the order.
pub open spec fn toggled(n: u8, cur: SortColumn) -> SortColumn {
    if n == 1 {
        if cur == SortColumn::Id(SortOrder::Asc) { SortColumn::Id(SortOrder::Desc) } else { SortColumn::Id(SortOrder::Asc) }
    } else if n == 2 {
        if cur == SortColumn::Driver(SortOrder::Asc) { SortColumn::Driver(SortOrder::Desc) } else { SortColumn::Driver(SortOrder::Asc) }
    } else if n == 3 {
        if cur == SortColumn::Size(SortOrder::Asc) { SortColumn::Size(SortOrder::Desc) } else { SortColumn::Size(SortOrder::Asc) }
    } else if n == 4 {
        if cur == SortColumn::Age(SortOrder::Asc) { SortColumn::Age(SortOrder::Desc) } else { SortColumn::Age(SortOrder::Asc) }
    } else {
        cur
    }
}

impl SortColumn {
    pub fn toggle(self, n: u8) -> (r: SortColumn)
        ensures
            r == toggled(n, self),
    {
        if n == 1 {
            if self == SortColumn::Id(SortOrder::Asc) { SortColumn::Id(SortOrder::Desc) } else { SortColumn::Id(SortOrder::Asc) }
        } else if n == 2 {
            if self == SortColumn::Driver(SortOrder::Asc) { SortColumn::Driver(SortOrder::Desc) } else { SortColumn::Driver(SortOrder::Asc) }
        } else if n == 3 {
            if self == SortColumn::Size(SortOrder::Asc) { SortColumn::Size(SortOrder::Desc) } else { SortColumn::Size(SortOrder::Asc) }
        } else if n == 4 {
            if self == SortColumn::Age(SortOrder::Asc) { SortColumn::Age(SortOrder::Desc) } else { SortColumn::Age(SortOrder::Asc) }
        } else {
            self
        }
    }
}

/// Order of two rows under a column: by the column's value, reversed when descending.
pub open spec fn row_cmp(a: VolumeSummary, b: VolumeSummary, col: SortColumn) -> core::cmp::Ordering {
    let (o, dir) = match col {
        SortColumn::Id(d) => (text_cmp(a.id@, b.id@), d),
        SortColumn::Driver(d) => (text_cmp(a.driver@, b.driver@), d),
        SortColumn::Size(d) => (int_cmp(0, 0), d),
        SortColumn::Age(d) => (int_cmp(a.created as int, b.created as int), d),
    };
    if dir == SortOrder::Asc { o } else { reversed(o) }
}

impl Ranked<SortColumn> for VolumeSummary {
    open spec fn spec_cmp(&self, other: &Self, col: SortColumn) -> core::cmp::Ordering {
        row_cmp(*self, *other, col)
    }

    fn compare(&self, other: &Self, col: &SortColumn) -> (r: core::cmp::Ordering) {
        let (o, dir) = match col {
            SortColumn::Id(d) => (compare_text(self.id.as_str(), other.id.as_str()), d),
            SortColumn::Driver(d) => (compare_text(self.driver.as_str(), other.driver.as_str()), d),
            SortColumn::Size(d) => (compare_i64(0, 0), d),
            SortColumn::Age(d) => (compare_i64(self.created, other.created), d),
        };
        if *dir == SortOrder::Asc { o } else { reverse_ordering(o) }
    }

    proof fn lemma_cmp_antisymmetric(a: &Self, b: &Self, col: SortColumn) {
        lemma_text_cmp_antisymmetric(a.id@, b.id@);
        lemma_text_cmp_antisymmetric(a.driver@, b.driver@);
    }

    proof fn lemma_cmp_transitive(a: &Self, b: &Self, c: &Self, col: SortColumn) {
        lemma_text_order(a.id@, b.id@, c.id@);
        lemma_text_order(a.driver@, b.driver@, c.driver@);
    }
}

#[derive(Debug)]
pub enum Popup {
    Closed,
    /// Confirmation of the deletion of (volume id, label).
    Delete(String, String),
}

/// The volume list.
#[derive(Debug)]
pub struct Volumes {
    pub selected: Option<usize>,
    pub volumes: Vec<VolumeSummary>,
    pub show_popup: Popup,
    pub sort_by: SortColumn,
    pub filter: Filter,
}

impl Volumes {
    pub open spec fn wf(self) -> bool {
        self.filter.wf()
    }

    /// A list screen just built: nothing listed or selected yet, default order.
    pub open spec fn is_fresh(self, f: Entries) -> bool {
        &&& self.selected is None
        &&& self.volumes@.len() == 0
        &&& self.show_popup is Closed
        &&& self.sort_by == SortColumn::Id(SortOrder::Asc)
        &&& self.filter.wf() && self.filter@ == f
    }

    pub fn new(filter: Filter) -> (r: Volumes)
        requires
            filter.wf(),
        ensures
            r.is_fresh(filter@),
    {
        Volumes {
            selected: None,
            volumes: Vec::new(),
            show_popup: Popup::Closed,
            sort_by: SortColumn::Id(SortOrder::Asc),
            filter,
        }
    }

    pub fn get_name(&self) -> (r: &'static str)
        ensures
            r@ == "Volumes"@,
    {
        "Volumes"
    }

    /// (id, label) of the selected row, if a row is selected.
    pub open spec fn selected_info(self) -> Option<(Seq<char>, Seq<char>)> {
        match self.selected {
            Some(i) => if i < self.volumes@.len() {
                Some((self.volumes@[i as int].id@, self.volumes@[i as int].id@))
            } else {
                None
            },
            None => None,
        }
    }

    pub fn get_selected_info(&self) -> (r: Option<(String, String)>)
        ensures
            match r {
                Some(p) => self.selected_info() == Some((p.0@, p.1@)),
                None => self.selected_info() is None,
            },
    {
        match self.selected {
            Some(i) => if i < self.volumes.len() {
                Some((self.volumes[i].id.clone(), self.volumes[i].id.clone()))
            } else {
                None
            },
            None => None,
        }
    }

    /// The call into the runtime client that handling `action` needs, if any.
    pub open spec fn needs(self, action: Action) -> bool {
        match action {
            Action::Tick => true,
            Action::Inspect => self.selected_info() is Some,
            Action::Confirm => self.show_popup is Delete,
            _ => false,
        }
    }

    /// The request that handling `action` makes.
    pub open spec fn request_post(self, action: Action, r: Option<Request>) -> bool {
        &&& (r is Some <==> self.needs(action))
        &&& match action {
            Action::Tick => r matches Some(Request::ListVolumes(f)) && f@ == self.filter@ && f.wf(),
            Action::Inspect => self.selected_info() is Some ==> (r matches Some(Request::GetVolume(id))
                && id@ == (self.selected_info()->0).0),
            Action::Confirm => self.show_popup matches Popup::Delete(id, _) ==> r == Some(Request::DeleteVolume(id)),
            _ => true,
        }
    }

    pub fn request(&self, action: &Action) -> (r: Option<Request>)
        requires
            self.wf(),
        ensures
            self.request_post(*action, r),
    {
        match action {
            Action::Tick => Some(Request::ListVolumes(self.filter.duplicate())),
            Action::Inspect => match self.get_selected_info() {
                Some((id, _)) => Some(Request::GetVolume(id)),
                None => None,
            },
            Action::Confirm => match &self.show_popup {
                Popup::Delete(id, _) => Some(Request::DeleteVolume(id.clone())),
                Popup::Closed => None,
            },
            _ => None,
        }
    }

    /// What handling `action` does, given the runtime client's `reply` to the
    /// request of `needs`.
    pub open spec fn update_post(old: Volumes, action: Action, reply: Option<Reply>, new: Volumes, out: Outcome) -> bool {
        let sel = old.selected_info();
        match action {
            Action::Tick => match reply {
                Some(Reply::Volumes(Ok(list))) => {
                    &&& sorted_from(new.volumes@, list@, old.sort_by)
                    &&& new == (Volumes { volumes: new.volumes, selected: refreshed_sel(old.selected), ..old })
                    &&& out.is_empty()
                },
                Some(Reply::Volumes(Err(e))) => {
                    &&& new == old
                    &&& out.effects@.len() == 0
                    &&& out.actions@.len() == 1
                    &&& is_error(out.actions@[0], "Error listing volumes:\n"@ + e@)
                },
                _ => new == old && out.is_empty(),
            },
            Action::Down => new == (Volumes { selected: next_sel(old.selected, old.volumes@.len()), ..old }) && out.is_empty(),
            Action::Up => new == (Volumes { selected: prev_sel(old.selected, old.volumes@.len()), ..old }) && out.is_empty(),
            Action::Inspect => {
                &&& new == old
                &&& out.effects@.len() == 0
                &&& sel is None ==> out.actions@.len() == 0
                &&& sel is Some ==> (match reply {
                    Some(Reply::Text(Ok(d))) => out.actions@[0] matches Action::Screen(Component::VolumeInspect(s))
                        && out.actions@.len() == 1
                        && s.id@ == (sel->0).0 && s.details == d && s.vertical_scroll == 0,
                    Some(Reply::Text(Err(e))) => out.actions@.len() == 1
                        && is_error(out.actions@[0], "Unable to get volume \""@ + (sel->0).1 + "\" details:\n"@ + e@),
                    _ => out.actions@.len() == 0,
                })
            },
            Action::SetFilter(f) => new.filter.wf() && new.filter@ == (match f { Some(t) => filter_of_text(t@), None => Seq::empty() })
                && new == (Volumes { filter: new.filter, ..old }) && out.is_empty(),
            Action::Delete => {
                &&& sel is None ==> new == old
                &&& sel is Some ==> (new.show_popup matches Popup::Delete(id, label) && id@ == (sel->0).0 && label@ == (sel->0).1
                    && new == (Volumes { show_popup: new.show_popup, ..old }))
                &&& out.is_empty()
            },
            Action::Confirm => match old.show_popup {
                Popup::Delete(id, _) => match reply {
                    Some(Reply::Done(Ok(()))) => new == (Volumes { show_popup: Popup::Closed, ..old })
                        && out.effects@.len() == 0 && out.actions@ == seq![Action::Tick],
                    Some(Reply::Done(Err(e))) => {
                        &&& new == old
                        &&& out.effects@.len() == 0
                        &&& out.actions@.len() == 1
                        &&& is_error(out.actions@[0], "Error deleting volume \""@ + id@ + "\":\n"@ + e@)
                    },
                    _ => new == old && out.is_empty(),
                },
                Popup::Closed => new == old && out.is_empty(),
            },
            Action::PreviousScreen => new == (Volumes { show_popup: Popup::Closed, ..old }) && out.is_empty(),
            Action::SortColumn(n) => new == (Volumes { sort_by: toggled(n, old.sort_by), ..old }) && out.is_empty(),
            _ => new == old && out.is_empty(),
        }
    }

    pub fn update(&mut self, action: Action, reply: Option<Reply>) -> (out: Outcome)
        requires
            old(self).wf(),
        ensures
            final(self).wf(),
            Self::update_post(*old(self), action, reply, *final(self), out),
    {
        match action {
            Action::Tick => match reply {
                Some(Reply::Volumes(Ok(list))) => {
                    let mut list = list;
                    sort_ranked(&mut list, &self.sort_by);
                    self.volumes = list;
                    if self.selected.is_none() {
                        self.selected = Some(0);
                    }
                    Outcome::none()
                },
                Some(Reply::Volumes(Err(e))) => Outcome::one(Action::Error(join2("Error listing volumes:\n", e.as_str()))),
                _ => Outcome::none(),
            },
            Action::Down => {
                self.selected = next_index(self.selected, self.volumes.len());
                Outcome::none()
            },
            Action::Up => {
                self.selected = previous_index(self.selected, self.volumes.len());
                Outcome::none()
            },
            Action::Inspect => match self.get_selected_info() {
                Some((id, label)) => match reply {
                    Some(Reply::Text(Ok(details))) => Outcome::one(
                        Action::Screen(Component::VolumeInspect(VolumeInspect::new(id, details))),
                    ),
                    Some(Reply::Text(Err(e))) => {
                        let head = join3("Unable to get volume \"", label.as_str(), "\" details:\n");
                        Outcome::one(Action::Error(join2(head.as_str(), e.as_str())))
                    },
                    _ => Outcome::none(),
                },
                None => Outcome::none(),
            },
            Action::SetFilter(f) => {
                self.filter = Filter::from_option(f);
                Outcome::none()
            },
            Action::Delete => {
                if let Some((id, label)) = self.get_selected_info() {
                    self.show_popup = Popup::Delete(id, label);
                }
                Outcome::none()
            },
            Action::Confirm => match &self.show_popup {
                Popup::Delete(id, _) => match reply {
                    Some(Reply::Done(Ok(()))) => {
                        self.show_popup = Popup::Closed;
                        Outcome::one(Action::Tick)
                    },
                    Some(Reply::Done(Err(e))) => {
                        let head = join3("Error deleting volume \"", id.as_str(), "\":\n");
                        Outcome::one(Action::Error(join2(head.as_str(), e.as_str())))
                    },
                    _ => Outcome::none(),
                },
                Popup::Closed => Outcome::none(),
            },
            Action::PreviousScreen => {
                self.show_popup = Popup::Closed;
                Outcome::none()
            },
            Action::SortColumn(n) => {
                self.sort_by = self.sort_by.toggle(n);
                Outcome::none()
            },
            _ => Outcome::none(),
        }
    }
}

} // verus!
