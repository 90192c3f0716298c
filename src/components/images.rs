use vstd::prelude::*;

use crate::action::Action;
use crate::components::{
    is_error, next_index, next_sel, prev_sel, previous_index, refreshed_sel, Component, Outcome, Reply,
    Request,
};
use crate::components::image_inspect::ImageInspect;
use crate::order::{lemma_text_cmp_antisymmetric, lemma_text_order, sort_ranked, sorted_from, Ranked};
use crate::runtime::model::{Filter, ImageSummary};
use crate::text::{compare_i64, compare_text, int_cmp, join2, join3, reverse_ordering, reversed, text_cmp};
use crate::tui::{Key, KeyCode};
use crate::components::containers::Containers;

verus! {

#[derive(Clone, Copy, Debug, PartialEq, Eq, Structural)]
pub enum SortOrder {
    Asc,
    Desc,
}

#[derive(Clone, Copy, Debug, PartialEq, Eq, Structural)]
pub enum SortColumn {
    Id(SortOrder),
    Name(SortOrder),
    Size(SortOrder),
    Age(SortOrder),
}

/// The order after pressing sort key `n`: the column of key `n` ascending, or
/// descending when it was already ascending; other keys keep the order.
pub open spec fn toggled(n: u8, cur: SortColumn) -> SortColumn {
    if n == 1 {
        if cur == SortColumn::Id(SortOrder::Asc) { SortColumn::Id(SortOrder::Desc) } else { SortColumn::Id(SortOrder::Asc) }
    } else if n == 2 {
        if cur == SortColumn::Name(SortOrder::Asc) { SortColumn::Name(SortOrder::Desc) } else { SortColumn::Name(SortOrder::Asc) }
    } else if n == 3 {
        if cur == SortColumn::Size(SortOrder::Asc) { SortColumn::Size(SortOrder::Desc) } else { SortColumn::Size(SortOrder::Asc) }
    } else if n == 4 {
        if cur == SortColumn::Age(SortOrder::Asc) { SortColumn::Age(SortOrder::Desc) } else { SortColumn::Age(SortOrder::Asc) }
    } else {
        cur
    }
}

impl SortColumn {
    pub fn toggle(self, n: u8) -> (r: SortColumn)
        ensures
            r == toggled(n, self),
    {
        if n == 1 {
            if self == SortColumn::Id(SortOrder::Asc) { SortColumn::Id(SortOrder::Desc) } else { SortColumn::Id(SortOrder::Asc) }
        } else if n == 2 {
            if self == SortColumn::Name(SortOrder::Asc) { SortColumn::Name(SortOrder::Desc) } else { SortColumn::Name(SortOrder::Asc) }
        } else if n == 3 {
            if self == SortColumn::Size(SortOrder::Asc) { SortColumn::Size(SortOrder::Desc) } else { SortColumn::Size(SortOrder::Asc) }
        } else if n == 4 {
            if self == SortColumn::Age(SortOrder::Asc) { SortColumn::Age(SortOrder::Desc) } else { SortColumn::Age(SortOrder::Asc) }
        } else {
            self
        }
    }
}

/// Order of two rows under a column: by the column's value, reversed when descending.
pub open spec fn row_cmp(a: ImageSummary, b: ImageSummary, col: SortColumn) -> core::cmp::Ordering {
    let (o, dir) = match col {
        SortColumn::Id(d) => (text_cmp(a.id@, b.id@), d),
        SortColumn::Name(d) => (text_cmp(a.name@, b.name@), d),
        SortColumn::Size(d) => (int_cmp(a.size as int, b.size as int), d),
        SortColumn::Age(d) => (int_cmp(a.created as int, b.created as int), d),
    };
    if dir == SortOrder::Asc { o } else { reversed(o) }
}

impl Ranked<SortColumn> for ImageSummary {
    open spec fn spec_cmp(&self, other: &Self, col: SortColumn) -> core::cmp::Ordering {
        row_cmp(*self, *other, col)
    }

    fn compare(&self, other: &Self, col: &SortColumn) -> (r: core::cmp::Ordering) {
        let (o, dir) = match col {
            SortColumn::Id(d) => (compare_text(self.id.as_str(), other.id.as_str()), d),
            SortColumn::Name(d) => (compare_text(self.name.as_str(), other.name.as_str()), d),
            SortColumn::Size(d) => (compare_i64(self.size, other.size), d),
            SortColumn::Age(d) => (compare_i64(self.created, other.created), d),
        };
        if *dir == SortOrder::Asc { o } else { reverse_ordering(o) }
    }

    proof fn lemma_cmp_antisymmetric(a: &Self, b: &Self, col: SortColumn) {
        lemma_text_cmp_antisymmetric(a.id@, b.id@);
        lemma_text_cmp_antisymmetric(a.name@, b.name@);
    }

    proof fn lemma_cmp_transitive(a: &Self, b: &Self, c: &Self, col: SortColumn) {
        lemma_text_order(a.id@, b.id@, c.id@);
        lemma_text_order(a.name@, b.name@, c.name@);
    }
}

#[derive(Debug)]
pub enum Popup {
    Closed,
    /// Confirmation of the deletion of (image id, label).
    Delete(String, String),
}

/// The image list.
#[derive(Debug)]
pub struct Images {
    pub selected: Option<usize>,
    pub images: Vec<ImageSummary>,
    pub show_popup: Popup,
    pub sort_by: SortColumn,
    pub filter: Option<String>,
}

impl Images {
    /// A list screen just built: nothing listed or selected yet, default order.
    pub open spec fn is_fresh(self) -> bool {
        &&& self.selected is None
        &&& self.images@.len() == 0
        &&& self.show_popup is Closed
        &&& self.sort_by == SortColumn::Age(SortOrder::Asc)
        &&& self.filter is None
    }

    pub fn new() -> (r: Images)
        ensures
            r.is_fresh(),
    {
        Images {
            selected: None,
            images: Vec::new(),
            show_popup: Popup::Closed,
            sort_by: SortColumn::Age(SortOrder::Asc),
            filter: None,
        }
    }

    pub fn get_name(&self) -> (r: &'static str)
        ensures
            r@ == "Images"@,
    {
        "Images"
    }

    /// (id, label) of the selected row, if a row is selected.
    pub open spec fn selected_info(self) -> Option<(Seq<char>, Seq<char>)> {
        match self.selected {
            Some(i) => if i < self.images@.len() {
                Some((self.images@[i as int].id@, self.images@[i as int].name@))
            } else {
                None
            },
            None => None,
        }
    }

    pub fn get_selected_info(&self) -> (r: Option<(String, String)>)
        ensures
            match r {
                Some(p) => self.selected_info() == Some((p.0@, p.1@)),
                None => self.selected_info() is None,
            },
    {
        match self.selected {
            Some(i) => if i < self.images.len() {
                Some((self.images[i].id.clone(), self.images[i].name.clone()))
            } else {
                None
            },
            None => None,
        }
    }

    /// The call into the runtime client that handling `action` needs, if any.
    pub open spec fn needs(self, action: Action) -> bool {
        match action {
            Action::Tick => true,
            Action::Inspect => self.selected_info() is Some,
            Action::Confirm => self.show_popup is Delete,
            _ => false,
        }
    }

    /// The request that handling `action` makes.
    pub open spec fn request_post(self, action: Action, r: Option<Request>) -> bool {
        &&& (r is Some <==> self.needs(action))
        &&& match action {
            Action::Tick => r matches Some(Request::ListImages(f)) && f == self.filter,
            Action::Inspect => self.selected_info() is Some ==> (r matches Some(Request::GetImage(id))
                && id@ == (self.selected_info()->0).0),
            Action::Confirm => self.show_popup matches Popup::Delete(id, _) ==> r == Some(Request::DeleteImage(id)),
            _ => true,
        }
    }

    pub fn request(&self, action: &Action) -> (r: Option<Request>)
        ensures
            self.request_post(*action, r),
    {
        match action {
            Action::Tick => Some(Request::ListImages(self.filter.clone())),
            Action::Inspect => match self.get_selected_info() {
                Some((id, _)) => Some(Request::GetImage(id)),
                None => None,
            },
            Action::Confirm => match &self.show_popup {
                Popup::Delete(id, _) => Some(Request::DeleteImage(id.clone())),
                Popup::Closed => None,
            },
            _ => None,
        }
    }

    /// What handling `action` does, given the runtime client's `reply` to the
    /// request of `needs`.
    pub open spec fn update_post(old: Images, action: Action, reply: Option<Reply>, new: Images, out: Outcome) -> bool {
        let sel = old.selected_info();
        match action {
            Action::Tick => match reply {
                Some(Reply::Images(Ok(list))) => {
                    &&& sorted_from(new.images@, list@, old.sort_by)
                    &&& new == (Images { images: new.images, selected: refreshed_sel(old.selected), ..old })
                    &&& out.is_empty()
                },
                Some(Reply::Images(Err(e))) => {
                    &&& new == old
                    &&& out.effects@.len() == 0
                    &&& out.actions@.len() == 1
                    &&& is_error(out.actions@[0], "Error getting image list: "@ + e@)
                },
                _ => new == old && out.is_empty(),
            },
            Action::Down => new == (Images { selected: next_sel(old.selected, old.images@.len()), ..old }) && out.is_empty(),
            Action::Up => new == (Images { selected: prev_sel(old.selected, old.images@.len()), ..old }) && out.is_empty(),
            Action::Inspect => {
                &&& new == old
                &&& out.effects@.len() == 0
                &&& sel is None ==> out.actions@.len() == 0
                &&& sel is Some ==> (match reply {
                    Some(Reply::Text(Ok(d))) => out.actions@[0] matches Action::Screen(Component::ImageInspect(s))
                        && out.actions@.len() == 1
                        && s.id@ == (sel->0).0 && s.name@ == (sel->0).1 && s.details == d && s.vertical_scroll == 0,
                    Some(Reply::Text(Err(e))) => out.actions@.len() == 1
                        && is_error(out.actions@[0], "Unable to get image \""@ + (sel->0).1 + "\" details:\n"@ + e@),
                    _ => out.actions@.len() == 0,
                })
            },
            Action::SetFilter(f) => new == (Images { filter: f, ..old }) && out.is_empty(),
            Action::Delete => {
                &&& sel is None ==> new == old
                &&& sel is Some ==> (new.show_popup matches Popup::Delete(id, label) && id@ == (sel->0).0 && label@ == (sel->0).1
                    && new == (Images { show_popup: new.show_popup, ..old }))
                &&& out.is_empty()
            },
            Action::Confirm => match old.show_popup {
                Popup::Delete(id, _) => match reply {
                    Some(Reply::Done(Ok(()))) => new == (Images { show_popup: Popup::Closed, ..old })
                        && out.effects@.len() == 0 && out.actions@ == seq![Action::Tick],
                    Some(Reply::Done(Err(e))) => {
                        &&& new == old
                        &&& out.effects@.len() == 0
                        &&& out.actions@.len() == 1
                        &&& is_error(out.actions@[0], "Unable to delete image \""@ + id@ + "\" "@ + e@)
                    },
                    _ => new == old && out.is_empty(),
                },
                Popup::Closed => new == old && out.is_empty(),
            },
            Action::PreviousScreen => new == (Images { show_popup: Popup::Closed, ..old }) && out.is_empty(),
            Action::SortColumn(n) => new == (Images { sort_by: toggled(n, old.sort_by), ..old }) && out.is_empty(),
            _ => new == old && out.is_empty(),
        }
    }

    pub fn update(&mut self, action: Action, reply: Option<Reply>) -> (out: Outcome)
        ensures
            Self::update_post(*old(self), action, reply, *final(self), out),
    {
        match action {
            Action::Tick => match reply {
                Some(Reply::Images(Ok(list))) => {
                    let mut list = list;
                    sort_ranked(&mut list, &self.sort_by);
                    self.images = list;
                    if self.selected.is_none() {
                        self.selected = Some(0);
                    }
                    Outcome::none()
                },
                Some(Reply::Images(Err(e))) => Outcome::one(Action::Error(join2("Error getting image list: ", e.as_str()))),
                _ => Outcome::none(),
            },
            Action::Down => {
                self.selected = next_index(self.selected, self.images.len());
                Outcome::none()
            },
            Action::Up => {
                self.selected = previous_index(self.selected, self.images.len());
                Outcome::none()
            },
            Action::Inspect => match self.get_selected_info() {
                Some((id, label)) => match reply {
                    Some(Reply::Text(Ok(details))) => Outcome::one(
                        Action::Screen(Component::ImageInspect(ImageInspect::new(id, label, details))),
                    ),
                    Some(Reply::Text(Err(e))) => {
                        let head = join3("Unable to get image \"", label.as_str(), "\" details:\n");
                        Outcome::one(Action::Error(join2(head.as_str(), e.as_str())))
                    },
                    _ => Outcome::none(),
                },
                None => Outcome::none(),
            },
            Action::SetFilter(f) => {
                self.filter = f;
                Outcome::none()
            },
            Action::Delete => {
                if let Some((id, label)) = self.get_selected_info() {
                    self.show_popup = Popup::Delete(id, label);
                }
                Outcome::none()
            },
            Action::Confirm => match &self.show_popup {
                Popup::Delete(id, _) => match reply {
                    Some(Reply::Done(Ok(()))) => {
                        self.show_popup = Popup::Closed;
                        Outcome::one(Action::Tick)
                    },
                    Some(Reply::Done(Err(e))) => {
                        let head = join3("Unable to delete image \"", id.as_str(), "\" ");
                        Outcome::one(Action::Error(join2(head.as_str(), e.as_str())))
                    },
                    _ => Outcome::none(),
                },
                Popup::Closed => Outcome::none(),
            },
            Action::PreviousScreen => {
                self.show_popup = Popup::Closed;
                Outcome::none()
            },
            Action::SortColumn(n) => {
                self.sort_by = self.sort_by.toggle(n);
                Outcome::none()
            },
            _ => Outcome::none(),
        }
    }

    /// `c` lists the containers created from the selected image.
    pub open spec fn binds(self, key: Key) -> bool {
        key.code == KeyCode::Char('c') && self.selected_info() is Some
    }

    pub open spec fn action_post(self, key: Key, r: Option<Action>) -> bool {
        &&& self.binds(key) ==> (r matches Some(Action::Screen(Component::Containers(c)))
            && c.is_fresh(seq![("ancestor"@, (self.selected_info()->0).0)]))
        &&& !self.binds(key) ==> r is None
    }

    pub fn get_action(&self, key: &Key) -> (r: Option<Action>)
        ensures
            self.action_post(*key, r),
    {
        if key.code == KeyCode::Char('c') {
            match self.get_selected_info() {
                Some((id, _)) => {
                    let f = Filter::new().filter(crate::text::owned("ancestor"), id);
                    assert(f@ =~= seq![("ancestor"@, (self.selected_info()->0).0)]);
                    Some(Action::Screen(Component::Containers(Containers::new(f))))
                },
                None => None,
            }
        } else {
            None
        }
    }
}

/// The images whose name contains the text `f`, in order.
pub open spec fn kept_named(s: Seq<ImageSummary>, f: Seq<char>) -> Seq<ImageSummary>
    decreases s.len(),
{
    if s.len() == 0 {
        s
    } else if crate::text::occurs_in(s.last().name@, f) {
        kept_named(s.drop_last(), f).push(s.last())
    } else {
        kept_named(s.drop_last(), f)
    }
}

/// The images a name filter keeps: all without a filter, else those whose name
/// contains it.
pub fn named(images: Vec<ImageSummary>, filter: &Option<String>) -> (r: Vec<ImageSummary>)
    ensures
        filter is None ==> r@ == images@,
        filter matches Some(f) ==> r@ == kept_named(images@, f@),
{
    match filter {
        None => images,
        Some(f) => {
            let ghost orig = images@;
            let mut rest = images;
            let mut out: Vec<ImageSummary> = Vec::new();
            let ghost mut k: int = 0;
            assert(orig.subrange(0, 0) =~= Seq::<ImageSummary>::empty());
            assert(orig.subrange(0, orig.len() as int) =~= orig);
            while rest.len() > 0
                invariant
                    0 <= k <= orig.len(),
                    rest@ == orig.subrange(k, orig.len() as int),
                    out@ == kept_named(orig.subrange(0, k), f@),
                decreases rest@.len(),
            {
                let x = rest.remove(0);
                let ghost pre = orig.subrange(0, k);
                assert(orig.subrange(0, k + 1).drop_last() =~= pre);
                assert(orig.subrange(0, k + 1).last() == x);
                if crate::text::contains_text(x.name.as_str(), f.as_str()) {
                    out.push(x);
                }
                proof {
                    k = k + 1;
                }
                assert(rest@ =~= orig.subrange(k, orig.len() as int));
            }
            assert(orig.subrange(0, k) =~= orig);
            out
        },
    }
}

} // verus!
