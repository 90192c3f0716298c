use vstd::prelude::*;

use crate::action::Action;
use crate::components::{
    is_error, next_index, next_sel, prev_sel, previous_index, refreshed_sel, Component, Outcome, Reply,
    Request,
};
use crate::components::network_inspect::NetworkInspect;
use crate::order::{lemma_text_cmp_antisymmetric, lemma_text_order, sort_ranked, sorted_from, Ranked};
use crate::runtime::model::{filter_of_text, Entries, Filter, NetworkSummary};
use crate::text::{compare_i64, compare_text, int_cmp, join2, join3, reverse_ordering, reversed, text_cmp};

verus! {

#[derive(Clone, Copy, Debug, PartialEq, Eq, Structural)]
pub enum SortOrder {
    Asc,
    Desc,
}

#[derive(Clone, Copy, Debug, PartialEq, Eq, Structural)]
pub enum SortColumn {
    Id(SortOrder),
    Name(SortOrder),
    Driver(SortOrder),
    Age(SortOrder),
}

/// The order after pressing sort key `n`: the column of key `n` ascending, or
/// descending when it was already ascending; other keys keep the order.
pub open spec fn toggled(n: u8, cur: SortColumn) -> SortColumn {
    if n == 1 {
        if cur == SortColumn::Id(SortOrder::Asc) { SortColumn::Id(SortOrder::Desc) } else { SortColumn::Id(SortOrder::Asc) }
    } else if n == 2 {
        if cur == SortColumn::Name(SortOrder::Asc) { SortColumn::Name(SortOrder::Desc) } else { SortColumn::Name(SortOrder::Asc) }
    } else if n == 3 {
        if cur == SortColumn::Driver(SortOrder::Asc) { SortColumn::Driver(SortOrder::Desc) } else { SortColumn::Driver(SortOrder::Asc) }
    } else if n == 4 {
        if cur == SortColumn::Age(SortOrder::Asc) { SortColumn::Age(SortOrder::Desc) } else { SortColumn::Age(SortOrder::Asc) }
    } else {
        cur
    }
}

impl SortColumn {
    pub fn toggle(self, n: u8) -> (r: SortColumn)
        ensures
            r == toggled(n, self),
    {
        if n == 1 {
            if self == SortColumn::Id(SortOrder::Asc) { SortColumn::Id(SortOrder::Desc) } else { SortColumn::Id(SortOrder::Asc) }
        } else if n == 2 {
            if self == SortColumn::Name(SortOrder::Asc) { SortColumn::Name(SortOrder::Desc) } else { SortColumn::Name(SortOrder::Asc) }
        } else if n == 3 {
            if self == SortColumn::Driver(SortOrder::Asc) { SortColumn::Driver(SortOrder::Desc) } else { SortColumn::Driver(SortOrder::Asc) }
        } else if n == 4 {
            if self == SortColumn::Age(SortOrder::Asc) { SortColumn::Age(SortOrder::Desc) } else { SortColumn::Age(SortOrder::Asc) }
        } else {
            self
        }
    }
}

/// Order of two rows under a column: by the column's value, reversed when descending.
pub open spec fn row_cmp(a: NetworkSummary, b: NetworkSummary, col: SortColumn) -> core::cmp::Ordering {
    let (o, dir) = match col {
        SortColumn::Id(d) => (text_cmp(a.id@, b.id@), d),
        SortColumn::Name(d) => (text_cmp(a.name@, b.name@), d),
        SortColumn::Driver(d) => (text_cmp(a.driver@, b.driver@), d),
        SortColumn::Age(d) => (int_cmp(a.created as int, b.created as int), d),
    };
    if dir == SortOrder::Asc { o } else { reversed(o) }
}

impl Ranked<SortColumn> for NetworkSummary {
    open spec fn spec_cmp(&self, other: &Self, col: SortColumn) -> core::cmp::Ordering {
        row_cmp(*self, *other, col)
    }

    fn compare(&self, other: &Self, col: &SortColumn) -> (r: core::cmp::Ordering) {
        let (o, dir) = match col {
            SortColumn::Id(d) => (compare_text(self.id.as_str(), other.id.as_str()), d),
            SortColumn::Name(d) => (compare_text(self.name.as_str(), other.name.as_str()), d),
            SortColumn::Driver(d) => (compare_text(self.driver.as_str(), other.driver.as_str()), d),
            SortColumn::Age(d) => (compare_i64(self.created, other.created), d),
        };
        if *dir == SortOrder::Asc { o } else { reverse_ordering(o) }
    }

    proof fn lemma_cmp_antisymmetric(a: &Self, b: &Self, col: SortColumn) {
        lemma_text_cmp_antisymmetric(a.id@, b.id@);
        lemma_text_cmp_antisymmetric(a.name@, b.name@);
        lemma_text_cmp_antisymmetric(a.driver@, b.driver@);
    }

    proof fn lemma_cmp_transitive(a: &Self, b: &Self, c: &Self, col: SortColumn) {
        lemma_text_order(a.id@, b.id@, c.id@);
        lemma_text_order(a.name@, b.name@, c.name@);
        lemma_text_order(a.driver@, b.driver@, c.driver@);
    }
}

#[derive(Debug)]
pub enum Popup {
    Closed,
    /// Confirmation of the deletion of (network id, label).
    Delete(String, String),
}

/// The network list.
#[derive(Debug)]
pub struct Networks {
    pub selected: Option<usize>,
    pub networks: Vec<NetworkSummary>,
    pub show_popup: Popup,
    pub sort_by: SortColumn,
    pub filter: Filter,
}

impl Networks {
    pub open spec fn wf(self) -> bool {
        self.filter.wf()
    }

    /// A list screen just built: nothing listed or selected yet, default order.
    pub open spec fn is_fresh(self, f: Entries) -> bool {
        &&& self.selected is None
        &&& self.networks@.len() == 0
        &&& self.show_popup is Closed
        &&& self.sort_by == SortColumn::Name(SortOrder::Asc)
        &&& self.filter.wf() && self.filter@ == f
    }

    pub fn new(filter: Filter) -> (r: Networks)
        requires
            filter.wf(),
        ensures
            r.is_fresh(filter@),
    {
        Networks {
            selected: None,
            networks: Vec::new(),
            show_popup: Popup::Closed,
            sort_by: SortColumn::Name(SortOrder::Asc),
            filter,
        }
    }

    pub fn get_name(&self) -> (r: &'static str)
        ensures
            r@ == "Networks"@,
    {
        "Networks"
    }

    /// (id, label) of the selected row, if a row is selected.
    pub open spec fn selected_info(self) -> Option<(Seq<char>, Seq<char>)> {
        match self.selected {
            Some(i) => if i < self.networks@.len() {
                Some((self.networks@[i as int].id@, self.networks@[i as int].name@))
            } else {
                None
            },
            None => None,
        }
    }

    pub fn get_selected_info(&self) -> (r: Option<(String, String)>)
        ensures
            match r {
                Some(p) => self.selected_info() == Some((p.0@, p.1@)),
                None => self.selected_info() is None,
            },
    {
        match self.selected {
            Some(i) => if i < self.networks.len() {
                Some((self.networks[i].id.clone(), self.networks[i].name.clone()))
            } else {
                None
            },
            None => None,
        }
    }

    /// The call into the runtime client that handling `action` needs, if any.
    pub open spec fn needs(self, action: Action) -> bool {
        match action {
            Action::Tick => true,
            Action::Inspect => self.selected_info() is Some,
            Action::Confirm => self.show_popup is Delete,
            _ => false,
        }
    }

    /// The request that handling `action` makes.
    pub open spec fn request_post(self, action: Action, r: Option<Request>) -> bool {
        &&& (r is Some <==> self.needs(action))
        &&& match action {
            Action::Tick => r matches Some(Request::ListNetworks(f)) && f@ == self.filter@ && f.wf(),
            Action::Inspect => self.selected_info() is Some ==> (r matches Some(Request::GetNetwork(id))
                && id@ == (self.selected_info()->0).0),
            Action::Confirm => self.show_popup matches Popup::Delete(id, _) ==> r == Some(Request::DeleteNetwork(id)),
            _ => true,
        }
    }

    pub fn request(&self, action: &Action) -> (r: Option<Request>)
        requires
            self.wf(),
        ensures
            self.request_post(*action, r),
    {
        match action {
            Action::Tick => Some(Request::ListNetworks(self.filter.duplicate())),
            Action::Inspect => match self.get_selected_info() {
                Some((id, _)) => Some(Request::GetNetwork(id)),
                None => None,
            },
            Action::Confirm => match &self.show_popup {
                Popup::Delete(id, _) => Some(Request::DeleteNetwork(id.clone())),
                Popup::Closed => None,
            },
            _ => None,
        }
    }

    /// What handling `action` does, given the runtime client's `reply` to the
    /// request of `needs`.
    pub open spec fn update_post(old: Networks, action: Action, reply: Option<Reply>, new: Networks, out: Outcome) -> bool {
        let sel = old.selected_info();
        match action {
            Action::Tick => match reply {
                Some(Reply::Networks(Ok(list))) => {
                    &&& sorted_from(new.networks@, list@, old.sort_by)
                    &&& new == (Networks { networks: new.networks, selected: refreshed_sel(old.selected), ..old })
                    &&& out.is_empty()
                },
                Some(Reply::Networks(Err(e))) => {
                    &&& new == old
                    &&& out.effects@.len() == 0
                    &&& out.actions@.len() == 1
                    &&& is_error(out.actions@[0], "Unable to list networks:\n"@ + e@)
                },
                _ => new == old && out.is_empty(),
            },
            Action::Down => new == (Networks { selected: next_sel(old.selected, old.networks@.len()), ..old }) && out.is_empty(),
            Action::Up => new == (Networks { selected: prev_sel(old.selected, old.networks@.len()), ..old }) && out.is_empty(),
            Action::Inspect => {
                &&& new == old
                &&& out.effects@.len() == 0
                &&& sel is None ==> out.actions@.len() == 0
                &&& sel is Some ==> (match reply {
                    Some(Reply::Text(Ok(d))) => out.actions@[0] matches Action::Screen(Component::NetworkInspect(s))
                        && out.actions@.len() == 1
                        && s.id@ == (sel->0).0 && s.name@ == (sel->0).1 && s.details == d && s.vertical_scroll == 0,
                    Some(Reply::Text(Err(e))) => out.actions@.len() == 1
                        && is_error(out.actions@[0], "Unable to get network \""@ + (sel->0).1 + "\" details:\n"@ + e@),
                    _ => out.actions@.len() == 0,
                })
            },
            Action::SetFilter(f) => new.filter.wf() && new.filter@ == (match f { Some(t) => filter_of_text(t@), None => Seq::empty() })
                && new == (Networks { filter: new.filter, ..old }) && out.is_empty(),
            Action::Delete => {
                &&& sel is None ==> new == old
                &&& sel is Some ==> (new.show_popup matches Popup::Delete(id, label) && id@ == (sel->0).0 && label@ == (sel->0).1
                    && new == (Networks { show_popup: new.show_popup, ..old }))
                &&& out.is_empty()
            },
            Action::Confirm => match old.show_popup {
                Popup::Delete(id, _) => match reply {
                    Some(Reply::Done(Ok(()))) => new == (Networks { show_popup: Popup::Closed, ..old })
                        && out.effects@.len() == 0 && out.actions@ == seq![Action::Tick],
                    Some(Reply::Done(Err(e))) => {
                        &&& new == old
                        &&& out.effects@.len() == 0
                        &&& out.actions@.len() == 1
                        &&& is_error(out.actions@[0], "Unable to delete network \""@ + id@ + "\":\n"@ + e@)
                    },
                    _ => new == old && out.is_empty(),
                },
                Popup::Closed => new == old && out.is_empty(),
            },
            Action::PreviousScreen => new == (Networks { show_popup: Popup::Closed, ..old }) && out.is_empty(),
            Action::SortColumn(n) => new == (Networks { sort_by: toggled(n, old.sort_by), ..old }) && out.is_empty(),
            _ => new == old && out.is_empty(),
        }
    }

    pub fn update(&mut self, action: Action, reply: Option<Reply>) -> (out: Outcome)
        requires
            old(self).wf(),
        ensures
            final(self).wf(),
            Self::update_post(*old(self), action, reply, *final(self), out),
    {
        match action {
            Action::Tick => match reply {
                Some(Reply::Networks(Ok(list))) => {
                    let mut list = list;
                    sort_ranked(&mut list, &self.sort_by);
                    self.networks = list;
                    if self.selected.is_none() {
                        self.selected = Some(0);
                    }
                    Outcome::none()
                },
                Some(Reply::Networks(Err(e))) => Outcome::one(Action::Error(join2("Unable to list networks:\n", e.as_str()))),
                _ => Outcome::none(),
            },
            Action::Down => {
                self.selected = next_index(self.selected, self.networks.len());
                Outcome::none()
            },
            Action::Up => {
                self.selected = previous_index(self.selected, self.networks.len());
                Outcome::none()
            },
            Action::Inspect => match self.get_selected_info() {
                Some((id, label)) => match reply {
                    Some(Reply::Text(Ok(details))) => Outcome::one(
                        Action::Screen(Component::NetworkInspect(NetworkInspect::new(id, label, details))),
                    ),
                    Some(Reply::Text(Err(e))) => {
                        let head = join3("Unable to get network \"", label.as_str(), "\" details:\n");
                        Outcome::one(Action::Error(join2(head.as_str(), e.as_str())))
                    },
                    _ => Outcome::none(),
                },
                None => Outcome::none(),
            },
            Action::SetFilter(f) => {
                self.filter = Filter::from_option(f);
                Outcome::none()
            },
            Action::Delete => {
                if let Some((id, label)) = self.get_selected_info() {
                    self.show_popup = Popup::Delete(id, label);
                }
                Outcome::none()
            },
            Action::Confirm => match &self.show_popup {
                Popup::Delete(id, _) => match reply {
                    Some(Reply::Done(Ok(()))) => {
                        self.show_popup = Popup::Closed;
                        Outcome::one(Action::Tick)
                    },
                    Some(Reply::Done(Err(e))) => {
                        let head = join3("Unable to delete network \"", id.as_str(), "\":\n");
                        Outcome::one(Action::Error(join2(head.as_str(), e.as_str())))
                    },
                    _ => Outcome::none(),
                },
                Popup::Closed => Outcome::none(),
            },
            Action::PreviousScreen => {
                self.show_popup = Popup::Closed;
                Outcome::none()
            },
            Action::SortColumn(n) => {
                self.sort_by = self.sort_by.toggle(n);
                Outcome::none()
            },
            _ => Outcome::none(),
        }
    }
}

} // verus!
