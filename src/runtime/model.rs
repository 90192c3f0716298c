use vstd::prelude::*;
use vstd::string::*;

use crate::text::{join2, join3, owned, same_text};

verus! {

/// Filter entries as texts: (key, value), in insertion order.
pub type Entries = Seq<(Seq<char>, Seq<char>)>;

/// No key occurs twice.
pub open spec fn unique_keys(s: Entries) -> bool {
    forall|i: int, j: int| 0 <= i < j < s.len() ==> #[trigger] s[i].0 != #[trigger] s[j].0
}

pub open spec fn has_key(s: Entries, k: Seq<char>) -> bool {
    exists|i: int| 0 <= i < s.len() && #[trigger] s[i].0 == k
}

/// The entries with `k` set to `v`: the value of an existing key is replaced in place,
/// a new key is appended.
pub open spec fn with_entry(s: Entries, k: Seq<char>, v: Seq<char>) -> Entries {
    if has_key(s, k) {
        s.update(choose|i: int| 0 <= i < s.len() && #[trigger] s[i].0 == k, (k, v))
    } else {
        s.push((k, v))
    }
}

/// `key=value` for one entry.
pub open spec fn entry_text(e: (Seq<char>, Seq<char>)) -> Seq<char> {
    e.0 + seq!['='] + e.1
}

/// The entries as `k1=v1&k2=v2...`.
pub open spec fn entries_text(s: Entries) -> Seq<char>
    decreases s.len(),
{
    if s.len() == 0 {
        Seq::empty()
    } else if s.len() == 1 {
        entry_text(s[0])
    } else {
        entries_text(s.drop_last()) + seq!['&'] + entry_text(s.last())
    }
}

pub open spec fn pairs_view(v: Seq<(String, String)>) -> Entries {
    v.map_values(|p: (String, String)| (p.0@, p.1@))
}

/// `i` is the first index of `c` in `t`.
pub open spec fn first_index(t: Seq<char>, c: char, i: int) -> bool {
    0 <= i < t.len() && t[i] == c && !t.subrange(0, i).contains(c)
}

/// Index of the first `c` in `t` (meaningful when `t` contains `c`).
pub open spec fn first_index_of(t: Seq<char>, c: char) -> int {
    choose|i: int| first_index(t, c, i)
}

pub proof fn lemma_first_index_unique(t: Seq<char>, c: char, i: int)
    requires
        first_index(t, c, i),
    ensures
        t.contains(c),
        first_index_of(t, c) == i,
{
    assert(t[i] == c);
    let j = first_index_of(t, c);
    assert(first_index(t, c, j));
    if j < i {
        assert(t.subrange(0, i)[j] == c);
    } else if j > i {
        assert(t.subrange(0, j)[i] == c);
    }
}

/// The filter that a user's text denotes: the text up to the first '=' is the key and
/// the rest the value; an empty value makes the key a name to match; no '=' means no
/// constraint.
pub open spec fn filter_of_text(t: Seq<char>) -> Entries {
    if !t.contains('=') {
        Seq::empty()
    } else {
        let i = first_index_of(t, '=');
        let k = t.subrange(0, i);
        let v = t.subrange(i + 1, t.len() as int);
        if v.len() == 0 {
            seq![("name"@, k)]
        } else {
            seq![(k, v)]
        }
    }
}

/// A set of `key=value` constraints on the resources listed; keys are unique.
#[derive(Debug)]
pub struct Filter {
    filter: Vec<(String, String)>,
}

impl View for Filter {
    type V = Entries;

    closed spec fn view(&self) -> Entries {
        pairs_view(self.filter@)
    }
}

pub const DOCKER_COMPOSE_PROJECT: &'static str = "com.docker.compose.project";

impl Filter {
    pub closed spec fn wf(&self) -> bool {
        unique_keys(self@)
    }

    /// The filter with no constraint.
    pub fn new() -> (r: Filter)
        ensures
            r.wf(),
            r@ == Seq::<(Seq<char>, Seq<char>)>::empty(),
    {
        let r = Filter { filter: Vec::new() };
        assert(r@ =~= Seq::<(Seq<char>, Seq<char>)>::empty());
        r
    }

    pub fn len(&self) -> (n: usize)
        ensures
            n == self@.len(),
    {
        self.filter.len()
    }

    pub fn is_empty(&self) -> (b: bool)
        ensures
            b == (self@.len() == 0),
    {
        self.filter.len() == 0
    }

    /// Sets `key` to `value`.
    pub fn filter(self, key: String, value: String) -> (r: Filter)
        requires
            self.wf(),
        ensures
            r.wf(),
            r@ == with_entry(self@, key@, value@),
    {
        let mut v = self.filter;
        let ghost s = pairs_view(v@);
        assert(s == self@);
        let mut i: usize = 0;
        while i < v.len()
            invariant
                i <= v@.len(),
                pairs_view(v@) == s,
                s == self@,
                unique_keys(s),
                forall|k: int| 0 <= k < i ==> #[trigger] s[k].0 != key@,
            decreases v@.len() - i,
        {
            if v[i].0 == key {
                assert(s[i as int].0 == key@);
                assert(has_key(s, key@));
                let ghost c = choose|j: int| 0 <= j < s.len() && #[trigger] s[j].0 == key@;
                assert(c == i as int) by {
                    if c != i as int {
                        assert(s[c].0 == s[i as int].0);
                    }
                }
                assert(s == self@);
                assert(with_entry(self@, key@, value@) == s.update(i as int, (key@, value@)));
                let entry = (key, value);
                v.set(i, entry);
                let r = Filter { filter: v };
                assert(r@ =~= s.update(i as int, (key@, value@)));
                assert forall|a: int, b: int| 0 <= a < b < r@.len() implies #[trigger] r@[a].0 != #[trigger] r@[b].0 by {
                    if a != i as int && b != i as int {
                        assert(r@[a] == s[a] && r@[b] == s[b]);
                    } else if a == i as int {
                        assert(r@[b] == s[b]);
                    } else {
                        assert(r@[a] == s[a]);
                    }
                }
                return r;
            }
            i = i + 1;
        }
        assert(!has_key(s, key@));
        let ghost kv = key@;
        let ghost vv = value@;
        v.push((key, value));
        let r = Filter { filter: v };
        assert(r@ =~= s.push((kv, vv)));
        assert forall|a: int, b: int| 0 <= a < b < r@.len() implies #[trigger] r@[a].0 != #[trigger] r@[b].0 by {
            if b == s.len() {
                assert(r@[a] == s[a]);
            } else {
                assert(r@[a] == s[a] && r@[b] == s[b]);
            }
        }
        r
    }

    /// Restricts to resources with this name.
    pub fn name(self, name: String) -> (r: Filter)
        requires
            self.wf(),
        ensures
            r.wf(),
            r@ == with_entry(self@, "name"@, name@),
    {
        self.filter(owned("name"), name)
    }

    /// Restricts to containers created from this image.
    pub fn image(self, image: String) -> (r: Filter)
        requires
            self.wf(),
        ensures
            r.wf(),
            r@ == with_entry(self@, "ancestor"@, image@),
    {
        self.filter(owned("ancestor"), image)
    }

    /// Restricts to resources that belong to some compose project.
    pub fn compose(self) -> (r: Filter)
        requires
            self.wf(),
        ensures
            r.wf(),
            r@ == with_entry(self@, "label"@, DOCKER_COMPOSE_PROJECT@),
    {
        self.filter(owned("label"), owned(DOCKER_COMPOSE_PROJECT))
    }

    /// Restricts to resources of the compose project `project`.
    pub fn compose_project(self, project: String) -> (r: Filter)
        requires
            self.wf(),
        ensures
            r.wf(),
            r@ == with_entry(self@, "label"@, DOCKER_COMPOSE_PROJECT@ + "="@ + project@),
    {
        let value = join3(DOCKER_COMPOSE_PROJECT, "=", project.as_str());
        self.filter(owned("label"), value)
    }

    /// The constraints as `k1=v1&k2=v2...`.
    pub fn to_text(&self) -> (r: String)
        ensures
            r@ == entries_text(self@),
    {
        let mut out = String::new();
        let mut i: usize = 0;
        while i < self.filter.len()
            invariant
                i <= self@.len(),
                self@.len() == self.filter@.len(),
                out@ == entries_text(self@.subrange(0, i as int)),
            decreases self@.len() - i,
        {
            let ghost prev = self@.subrange(0, i as int);
            let ghost next = self@.subrange(0, i + 1);
            assert(next.drop_last() =~= prev);
            assert(next.last() == self@[i as int]);
            proof {
                reveal_strlit("=");
                reveal_strlit("&");
            }
            let piece = join3(self.filter[i].0.as_str(), "=", self.filter[i].1.as_str());
            assert(piece@ == entry_text(self@[i as int]));
            if i == 0 {
                out = piece;
            } else {
                out = join3(out.as_str(), "&", piece.as_str());
            }
            i = i + 1;
        }
        assert(self@.subrange(0, self@.len() as int) =~= self@);
        out
    }

    /// The suffix shown in a list title: empty without constraints,
    /// else " - Filters: " followed by the constraints.
    pub fn format(&self) -> (r: String)
        ensures
            self@.len() == 0 ==> r@ == Seq::<char>::empty(),
            self@.len() > 0 ==> r@ == " - Filters: "@ + entries_text(self@),
    {
        if self.filter.len() == 0 {
            String::new()
        } else {
            let t = self.to_text();
            join2(" - Filters: ", t.as_str())
        }
    }

    /// The filter typed by a user: `key=value` sets `key`, `name=` (empty value)
    /// restricts by the name `name`, and a text without '=' clears all constraints.
    pub fn from_text(value: &str) -> (r: Filter)
        ensures
            r.wf(),
            r@ == filter_of_text(value@),
    {
        match crate::text::find_char(value, '=') {
            None => Filter::new(),
            Some(i) => {
                proof {
                    lemma_first_index_unique(value@, '=', i as int);
                }
                let len = value.unicode_len();
                let k = crate::text::slice_text(value, 0, i);
                let v = crate::text::slice_text(value, i + 1, len);
                let empty = Filter::new();
                if v.unicode_len() == 0 {
                    let r = empty.name(k);
                    assert(r@ =~= seq![("name"@, value@.subrange(0, i as int))]);
                    r
                } else {
                    let r = empty.filter(k, v);
                    assert(r@ =~= seq![(value@.subrange(0, i as int), value@.subrange(i + 1, len as int))]);
                    r
                }
            }
        }
    }

    /// The filter of an optional filter text; none gives the empty filter.
    pub fn from_option(value: Option<String>) -> (r: Filter)
        ensures
            r.wf(),
            value is None ==> r@ == Seq::<(Seq<char>, Seq<char>)>::empty(),
            value matches Some(t) ==> r@ == filter_of_text(t@),
    {
        match value {
            None => Filter::new(),
            Some(t) => Filter::from_text(t.as_str()),
        }
    }

    /// Tests that no key occurs twice.
    pub fn is_wf(&self) -> (r: bool)
        ensures
            r == self.wf(),
    {
        let ghost s = self@;
        let mut i: usize = 0;
        while i < self.filter.len()
            invariant
                s == self@,
                s.len() == self.filter@.len(),
                i <= s.len(),
                forall|a: int, b: int| 0 <= a < b < s.len() && a < i ==> #[trigger] s[a].0 != #[trigger] s[b].0,
            decreases s.len() - i,
        {
            let mut j: usize = i + 1;
            while j < self.filter.len()
                invariant
                    s == self@,
                    s.len() == self.filter@.len(),
                    i < s.len(),
                    i < j <= s.len(),
                    forall|a: int, b: int| 0 <= a < b < s.len() && a < i ==> #[trigger] s[a].0 != #[trigger] s[b].0,
                    forall|b: int| i < b < j ==> s[i as int].0 != #[trigger] s[b].0,
                decreases s.len() - j,
            {
                if self.filter[i].0 == self.filter[j].0 {
                    assert(s[i as int].0 == s[j as int].0);
                    return false;
                }
                j = j + 1;
            }
            i = i + 1;
        }
        true
    }

    /// A copy of the filter.
    pub fn duplicate(&self) -> (r: Filter)
        requires
            self.wf(),
        ensures
            r.wf(),
            r@ == self@,
    {
        let mut v: Vec<(String, String)> = Vec::new();
        let mut i: usize = 0;
        while i < self.filter.len()
            invariant
                i <= self.filter@.len(),
                v@.len() == i,
                forall|k: int| 0 <= k < i ==> v@[k] == self.filter@[k],
            decreases self.filter@.len() - i,
        {
            let ghost before = v@;
            v.push((self.filter[i].0.clone(), self.filter[i].1.clone()));
            assert(v@ =~= before.push(self.filter@[i as int]));
            i = i + 1;
        }
        assert(v@ =~= self.filter@);
        let r = Filter { filter: v };
        r
    }

    /// The constraints as (key, value) pairs.
    pub fn pairs(&self) -> (r: &Vec<(String, String)>)
        ensures
            pairs_view(r@) == self@,
    {
        &self.filter
    }
}

/// Health reported for a running container.
#[derive(Clone, Copy, Debug, PartialEq, Eq, Structural)]
pub enum ContainerHealth {
    Unknown,
    Healthy,
    Unhealthy,
    Starting,
}

/// Lifecycle state of a container.
#[derive(Clone, Copy, Debug, PartialEq, Eq, Structural)]
pub enum ContainerStatus {
    Created,
    Running(ContainerHealth),
    Paused,
    Restarting,
    Removing,
    Exited,
    Dead,
    Unknown,
}

/// Position of a status in the order statuses are listed in: by state, then by health.
pub open spec fn status_rank(s: ContainerStatus) -> int {
    match s {
        ContainerStatus::Created => 0,
        ContainerStatus::Running(h) => match h {
            ContainerHealth::Unknown => 1,
            ContainerHealth::Healthy => 2,
            ContainerHealth::Unhealthy => 3,
            ContainerHealth::Starting => 4,
        },
        ContainerStatus::Paused => 5,
        ContainerStatus::Restarting => 6,
        ContainerStatus::Removing => 7,
        ContainerStatus::Exited => 8,
        ContainerStatus::Dead => 9,
        ContainerStatus::Unknown => 10,
    }
}

/// The text shown for a status.
pub open spec fn status_text(s: ContainerStatus) -> Seq<char> {
    match s {
        ContainerStatus::Created => "created"@,
        ContainerStatus::Running(h) => match h {
            ContainerHealth::Unknown => "running"@,
            ContainerHealth::Healthy => "running (healthy)"@,
            ContainerHealth::Unhealthy => "running (unhealthy)"@,
            ContainerHealth::Starting => "running (starting)"@,
        },
        ContainerStatus::Paused => "paused"@,
        ContainerStatus::Restarting => "restarting"@,
        ContainerStatus::Removing => "removing"@,
        ContainerStatus::Exited => "exited"@,
        ContainerStatus::Dead => "dead"@,
        ContainerStatus::Unknown => "unknown"@,
    }
}

/// The status named by an engine state text.
pub open spec fn status_of_state(t: Seq<char>) -> ContainerStatus {
    if t == "created"@ {
        ContainerStatus::Created
    } else if t == "running"@ {
        ContainerStatus::Running(ContainerHealth::Unknown)
    } else if t == "paused"@ {
        ContainerStatus::Paused
    } else if t == "restarting"@ {
        ContainerStatus::Restarting
    } else if t == "removing"@ {
        ContainerStatus::Removing
    } else if t == "exited"@ {
        ContainerStatus::Exited
    } else if t == "dead"@ {
        ContainerStatus::Dead
    } else {
        ContainerStatus::Unknown
    }
}

impl ContainerStatus {
    /// The status named by an engine state text; unknown texts give `Unknown`.
    pub fn from_state(value: &str) -> (r: ContainerStatus)
        ensures
            r == status_of_state(value@),
    {
        if same_text(value, "created") {
            ContainerStatus::Created
        } else if same_text(value, "running") {
            ContainerStatus::Running(ContainerHealth::Unknown)
        } else if same_text(value, "paused") {
            ContainerStatus::Paused
        } else if same_text(value, "restarting") {
            ContainerStatus::Restarting
        } else if same_text(value, "removing") {
            ContainerStatus::Removing
        } else if same_text(value, "exited") {
            ContainerStatus::Exited
        } else if same_text(value, "dead") {
            ContainerStatus::Dead
        } else {
            ContainerStatus::Unknown
        }
    }

    /// A running status refined by the reported health; other statuses stay.
    pub fn with_health(self, health: ContainerHealth) -> (r: ContainerStatus)
        ensures
            self is Running ==> r == ContainerStatus::Running(health),
            !(self is Running) ==> r == self,
    {
        match self {
            ContainerStatus::Running(_) => ContainerStatus::Running(health),
            other => other,
        }
    }

    /// The text shown for the status.
    pub fn label(&self) -> (r: String)
        ensures
            r@ == status_text(*self),
    {
        match self {
            ContainerStatus::Created => owned("created"),
            ContainerStatus::Running(h) => match h {
                ContainerHealth::Unknown => owned("running"),
                ContainerHealth::Healthy => owned("running (healthy)"),
                ContainerHealth::Unhealthy => owned("running (unhealthy)"),
                ContainerHealth::Starting => owned("running (starting)"),
            },
            ContainerStatus::Paused => owned("paused"),
            ContainerStatus::Restarting => owned("restarting"),
            ContainerStatus::Removing => owned("removing"),
            ContainerStatus::Exited => owned("exited"),
            ContainerStatus::Dead => owned("dead"),
            ContainerStatus::Unknown => owned("unknown"),
        }
    }

    pub fn rank(&self) -> (r: u8)
        ensures
            r == status_rank(*self),
    {
        match self {
            ContainerStatus::Created => 0,
            ContainerStatus::Running(h) => match h {
                ContainerHealth::Unknown => 1,
                ContainerHealth::Healthy => 2,
                ContainerHealth::Unhealthy => 3,
                ContainerHealth::Starting => 4,
            },
            ContainerStatus::Paused => 5,
            ContainerStatus::Restarting => 6,
            ContainerStatus::Removing => 7,
            ContainerStatus::Exited => 8,
            ContainerStatus::Dead => 9,
            ContainerStatus::Unknown => 10,
        }
    }
}

/// Label pairs of a resource (keys unique as the engine reports them).
pub type Labels = Vec<(String, String)>;

/// Value of the first label with key `k`.
pub open spec fn label_lookup(s: Entries, k: Seq<char>) -> Option<Seq<char>>
    decreases s.len(),
{
    if s.len() == 0 {
        None
    } else if s[0].0 == k {
        Some(s[0].1)
    } else {
        label_lookup(s.drop_first(), k)
    }
}

/// Looks up the value of label `key`.
pub fn get_label(labels: &Labels, key: &str) -> (r: Option<String>)
    ensures
        match r {
            Some(v) => label_lookup(pairs_view(labels@), key@) == Some(v@),
            None => label_lookup(pairs_view(labels@), key@) is None,
        },
{
    let ghost s = pairs_view(labels@);
    assert(s.subrange(0, s.len() as int) =~= s);
    let mut i: usize = 0;
    while i < labels.len()
        invariant
            i <= labels@.len(),
            s == pairs_view(labels@),
            label_lookup(s, key@) == label_lookup(s.subrange(i as int, s.len() as int), key@),
        decreases labels@.len() - i,
    {
        let ghost rest = s.subrange(i as int, s.len() as int);
        assert(rest.drop_first() =~= s.subrange(i + 1, s.len() as int));
        if same_text(labels[i].0.as_str(), key) {
            return Some(labels[i].1.clone());
        }
        i = i + 1;
    }
    None
}

/// Engine name, version and endpoint.
#[derive(Debug)]
pub struct RuntimeSummary {
    pub name: String,
    pub version: String,
    pub config: Option<crate::runtime::ConnectionConfig>,
}

#[derive(Clone, Debug)]
pub struct VolumeSummary {
    pub id: String,
    pub driver: String,
    pub created: i64,
    pub labels: Labels,
}

#[derive(Clone, Debug)]
pub struct NetworkSummary {
    pub id: String,
    pub name: String,
    pub driver: String,
    pub created: i64,
    pub labels: Labels,
}

#[derive(Clone, Debug)]
pub struct ImageSummary {
    pub id: String,
    pub name: String,
    pub size: i64,
    pub created: i64,
}

#[derive(Clone, Debug)]
pub struct ContainerSummary {
    pub id: String,
    pub name: String,
    pub image: String,
    pub image_id: String,
    pub labels: Labels,
    pub status: ContainerStatus,
    pub age: i64,
}

/// What the engine reports of one container, for its detail view.
#[derive(Clone, Debug)]
pub struct ContainerDetails {
    pub id: String,
    pub name: String,
    pub image: Option<String>,
    pub image_id: Option<String>,
    pub labels: Labels,
    pub status: ContainerStatus,
    pub age: Option<i64>,
    pub ports: Vec<(String, String)>,
    pub volumes: Vec<(String, String)>,
    pub env: Vec<(String, String)>,
    pub entrypoint: Option<Vec<String>>,
    pub command: Option<Vec<String>>,
    pub network: Vec<(String, Option<String>)>,
    pub processes: Vec<(String, String, String)>,
}

/// A compose project, gathered from the labels of its containers, volumes and networks.
#[derive(Clone, Debug)]
pub struct Compose {
    pub project: String,
    pub config_file: Option<String>,
    pub working_dir: Option<String>,
    pub environment_files: Option<String>,
    /// Containers keyed by (service, container number).
    pub services: Vec<((String, String), ContainerDetails)>,
    pub volumes: Vec<(String, VolumeSummary)>,
    pub networks: Vec<(String, NetworkSummary)>,
}

impl Compose {
    /// A project with no resource yet.
    pub fn new(
        project: String,
        config_file: Option<String>,
        working_dir: Option<String>,
        environment_files: Option<String>,
    ) -> (r: Compose)
        ensures
            r.project == project,
            r.config_file == config_file,
            r.working_dir == working_dir,
            r.environment_files == environment_files,
            r.services@.len() == 0,
            r.volumes@.len() == 0,
            r.networks@.len() == 0,
    {
        Compose {
            project,
            config_file,
            working_dir,
            environment_files,
            services: Vec::new(),
            volumes: Vec::new(),
            networks: Vec::new(),
        }
    }
}

} // verus!
