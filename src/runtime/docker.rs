use vstd::prelude::*;

use crate::runtime::model::{
    first_index_of, get_label, label_lookup, pairs_view, Compose, ContainerDetails, Labels, NetworkSummary,
    VolumeSummary,
};
use crate::order::{lemma_text_cmp_antisymmetric, lemma_text_equal, lemma_text_order, sort_ranked, sorted_by, Ranked};
use crate::text::{after_last, compare_text, find_char, join2, owned, same_text, slice_text, text_cmp};

verus! {

pub const DEFAULT_DOCKER_SOCKET_PATH: &'static str = "/var/run/docker.sock";

pub const DOCKER_COMPOSE_PROJECT: &'static str = "com.docker.compose.project";
pub const DOCKER_COMPOSE_SERVICE: &'static str = "com.docker.compose.service";
pub const DOCKER_COMPOSE_CONTAINER_RANK: &'static str = "com.docker.compose.container-number";
pub const DOCKER_COMPOSE_WORKING_DIR: &'static str = "com.docker.compose.project.working_dir";
pub const DOCKER_COMPOSE_CONFIG: &'static str = "com.docker.compose.project.config_files";
pub const DOCKER_COMPOSE_ENV: &'static str = "com.docker.compose.project.environment_file";
pub const DOCKER_COMPOSE_VOLUME: &'static str = "com.docker.compose.volume";
pub const DOCKER_COMPOSE_NETWORK: &'static str = "com.docker.compose.network";

/// How to reach the engine: TLS to a host with a certificate directory, plain
/// HTTP to a host, or a unix socket (none means the default socket).
#[derive(Debug)]
pub enum ConnectionConfig {
    Ssl(String, String),
    Http(String),
    Socket(Option<String>),
}

impl ConnectionConfig {
    pub fn default_socket() -> (r: ConnectionConfig)
        ensures
            r == ConnectionConfig::Socket(None),
    {
        ConnectionConfig::Socket(None)
    }

    pub fn socket(path: String) -> (r: ConnectionConfig)
        ensures
            r == ConnectionConfig::Socket(Some(path)),
    {
        ConnectionConfig::Socket(Some(path))
    }

    pub fn http(address: String) -> (r: ConnectionConfig)
        ensures
            r == ConnectionConfig::Http(address),
    {
        ConnectionConfig::Http(address)
    }

    pub fn ssl(address: String, certs_path: String) -> (r: ConnectionConfig)
        ensures
            r == ConnectionConfig::Ssl(address, certs_path),
    {
        ConnectionConfig::Ssl(address, certs_path)
    }

    pub open spec fn spec_describe(self) -> Seq<char> {
        match self {
            ConnectionConfig::Ssl(host, _) => host@,
            ConnectionConfig::Http(host) => host@,
            ConnectionConfig::Socket(Some(p)) => "unix://"@ + p@,
            ConnectionConfig::Socket(None) => "unix://"@ + DEFAULT_DOCKER_SOCKET_PATH@,
        }
    }

    /// The endpoint as shown in the header: the host, or `unix://` and the socket path.
    pub fn describe(&self) -> (r: String)
        ensures
            r@ == self.spec_describe(),
    {
        match self {
            ConnectionConfig::Ssl(host, _) => host.clone(),
            ConnectionConfig::Http(host) => host.clone(),
            ConnectionConfig::Socket(Some(p)) => join2("unix://", p.as_str()),
            ConnectionConfig::Socket(None) => join2("unix://", DEFAULT_DOCKER_SOCKET_PATH),
        }
    }
}

/// The endpoint chosen from the environment: `DOCKER_HOST` with `DOCKER_CERT_PATH`
/// means TLS, `DOCKER_HOST` alone plain HTTP, else the default socket when it exists.
pub fn detect_connection_config(
    docker_host: Option<String>,
    docker_cert_path: Option<String>,
    default_socket_exists: bool,
) -> (r: Option<ConnectionConfig>)
    ensures
        docker_host matches Some(h) ==> (docker_cert_path matches Some(c) ==> r == Some(ConnectionConfig::Ssl(h, c))),
        docker_host matches Some(h) ==> (docker_cert_path is None ==> r == Some(ConnectionConfig::Http(h))),
        docker_host is None ==> (default_socket_exists ==> r == Some(ConnectionConfig::Socket(None))),
        docker_host is None ==> (!default_socket_exists ==> r is None),
{
    match (docker_host, docker_cert_path) {
        (Some(host), Some(certs)) => Some(ConnectionConfig::Ssl(host, certs)),
        (Some(host), None) => Some(ConnectionConfig::Http(host)),
        _ => if default_socket_exists {
            Some(ConnectionConfig::default_socket())
        } else {
            None
        },
    }
}

/// Keys the engine accepts in a container filter.
pub open spec fn available_filter(k: Seq<char>) -> bool {
    ||| k == "ancestor"@
    ||| k == "before"@
    ||| k == "expose"@
    ||| k == "exited"@
    ||| k == "health"@
    ||| k == "id"@
    ||| k == "is-task"@
    ||| k == "label"@
    ||| k == "name"@
    ||| k == "network"@
    ||| k == "publish"@
    ||| k == "since"@
    ||| k == "status"@
    ||| k == "volume"@
}

fn is_available_filter(k: &str) -> (r: bool)
    ensures
        r == available_filter(k@),
{
    same_text(k, "ancestor") || same_text(k, "before") || same_text(k, "expose") || same_text(k, "exited")
        || same_text(k, "health") || same_text(k, "id") || same_text(k, "is-task") || same_text(k, "label")
        || same_text(k, "name") || same_text(k, "network") || same_text(k, "publish") || same_text(k, "since")
        || same_text(k, "status") || same_text(k, "volume")
}

/// A filter text is valid when it has no '=' (a name to match) or when the key
/// before the first '=' is one the engine accepts.
pub open spec fn valid_container_filter(t: Seq<char>) -> bool {
    !t.contains('=') || available_filter(t.subrange(0, first_index_of(t, '=')))
}

pub fn validate_container_filters(filter: &str) -> (r: bool)
    ensures
        r == valid_container_filter(filter@),
{
    match find_char(filter, '=') {
        None => true,
        Some(i) => {
            proof {
                crate::runtime::model::lemma_first_index_unique(filter@, '=', i as int);
            }
            let key = slice_text(filter, 0, i);
            is_available_filter(key.as_str())
        },
    }
}

/// The last '/'-separated segment of a name; `<UNKNOWN>` when there is no name.
pub fn parse_name(name: Option<String>) -> (r: String)
    ensures
        name is None ==> r@ == "<UNKNOWN>"@,
        name matches Some(s) ==> exists|k: int|
            0 <= k <= s@.len() && r@ == s@.subrange(k, s@.len() as int) && !r@.contains('/')
                && (k == 0 || s@[k - 1] == '/'),
{
    match name {
        None => owned("<UNKNOWN>"),
        Some(s) => {
            let k = after_last(s.as_str(), '/');
            let len = s.unicode_len();
            let r = slice_text(s.as_str(), k, len);
            assert(r@ == s@.subrange(k as int, len as int));
            r
        },
    }
}

/// Field `k` of a process row, empty when the row is shorter.
pub open spec fn process_field(p: Seq<String>, k: int) -> Seq<char> {
    if 0 <= k < p.len() { p[k]@ } else { Seq::empty() }
}

fn field_or_empty(p: &Vec<String>, k: usize) -> (r: String)
    ensures
        r@ == process_field(p@, k as int),
{
    if k < p.len() {
        p[k].clone()
    } else {
        String::new()
    }
}

/// (user, pid, command) of each row of a process listing: columns 0, 1 and 10.
pub fn parse_processes(processes: Option<Vec<Vec<String>>>) -> (r: Vec<(String, String, String)>)
    ensures
        processes is None ==> r@.len() == 0,
        processes matches Some(ps) ==> r@.len() == ps@.len() && forall|i: int| 0 <= i < ps@.len() ==> {
            &&& (#[trigger] r@[i]).0@ == process_field(ps@[i]@, 0)
            &&& r@[i].1@ == process_field(ps@[i]@, 1)
            &&& r@[i].2@ == process_field(ps@[i]@, 10)
        },
{
    let mut out: Vec<(String, String, String)> = Vec::new();
    match processes {
        None => out,
        Some(ps) => {
            let mut i: usize = 0;
            while i < ps.len()
                invariant
                    i <= ps@.len(),
                    out@.len() == i,
                    forall|j: int| 0 <= j < i ==> {
                        &&& (#[trigger] out@[j]).0@ == process_field(ps@[j]@, 0)
                        &&& out@[j].1@ == process_field(ps@[j]@, 1)
                        &&& out@[j].2@ == process_field(ps@[j]@, 10)
                    },
                decreases ps@.len() - i,
            {
                let row = (field_or_empty(&ps[i], 0), field_or_empty(&ps[i], 1), field_or_empty(&ps[i], 10));
                out.push(row);
                i = i + 1;
            }
            out
        },
    }
}

/// The network a compose label set names.
pub fn extract_compose_network_info(labels: &Labels) -> (r: Option<String>)
    ensures
        r matches Some(v) ==> label_lookup(pairs_view(labels@), DOCKER_COMPOSE_NETWORK@) == Some(v@),
        r is None ==> label_lookup(pairs_view(labels@), DOCKER_COMPOSE_NETWORK@) is None,
{
    get_label(labels, DOCKER_COMPOSE_NETWORK)
}

/// The volume a compose label set names.
pub fn extract_compose_volume_info(labels: &Labels) -> (r: Option<String>)
    ensures
        r matches Some(v) ==> label_lookup(pairs_view(labels@), DOCKER_COMPOSE_VOLUME@) == Some(v@),
        r is None ==> label_lookup(pairs_view(labels@), DOCKER_COMPOSE_VOLUME@) is None,
{
    get_label(labels, DOCKER_COMPOSE_VOLUME)
}

/// (service, container number) of a compose container, when both labels are set.
pub fn extract_compose_service_info(labels: &Labels) -> (r: Option<(String, String)>)
    ensures
        r matches Some(p) ==> label_lookup(pairs_view(labels@), DOCKER_COMPOSE_SERVICE@) == Some(p.0@)
            && label_lookup(pairs_view(labels@), DOCKER_COMPOSE_CONTAINER_RANK@) == Some(p.1@),
        r is None ==> label_lookup(pairs_view(labels@), DOCKER_COMPOSE_SERVICE@) is None
            || label_lookup(pairs_view(labels@), DOCKER_COMPOSE_CONTAINER_RANK@) is None,
{
    match (get_label(labels, DOCKER_COMPOSE_SERVICE), get_label(labels, DOCKER_COMPOSE_CONTAINER_RANK)) {
        (Some(s), Some(n)) => Some((s, n)),
        _ => None,
    }
}

/// (config files, working directory, environment file) of a compose project.
pub fn extract_compose_info(labels: &Labels) -> (r: (Option<String>, Option<String>, Option<String>))
    ensures
        r.0 matches Some(v) ==> label_lookup(pairs_view(labels@), DOCKER_COMPOSE_CONFIG@) == Some(v@),
        r.0 is None ==> label_lookup(pairs_view(labels@), DOCKER_COMPOSE_CONFIG@) is None,
        r.1 matches Some(v) ==> label_lookup(pairs_view(labels@), DOCKER_COMPOSE_WORKING_DIR@) == Some(v@),
        r.1 is None ==> label_lookup(pairs_view(labels@), DOCKER_COMPOSE_WORKING_DIR@) is None,
        r.2 matches Some(v) ==> label_lookup(pairs_view(labels@), DOCKER_COMPOSE_ENV@) == Some(v@),
        r.2 is None ==> label_lookup(pairs_view(labels@), DOCKER_COMPOSE_ENV@) is None,
{
    (
        get_label(labels, DOCKER_COMPOSE_CONFIG),
        get_label(labels, DOCKER_COMPOSE_WORKING_DIR),
        get_label(labels, DOCKER_COMPOSE_ENV),
    )
}

/// Seconds since the epoch of an RFC 3339 date, as chrono reads it; none when the
/// text is not such a date.
pub uninterp spec fn rfc3339_seconds(s: Seq<char>) -> Option<i64>;

/// Relies on chrono's `DateTime::parse_from_rfc3339` and `DateTime::timestamp`: the
/// instant a date text denotes, in seconds, when it is an RFC 3339 date.
#[verifier::external_body]
fn rfc3339_timestamp(s: &str) -> (r: Option<i64>)
    ensures
        r == rfc3339_seconds(s@),
{
    chrono::DateTime::parse_from_rfc3339(s).ok().map(|d| d.timestamp())
}

/// The creation time of a resource, from the date text the engine reports.
pub fn parse_created(created: Option<String>) -> (r: Option<i64>)
    ensures
        created is None ==> r is None,
        created matches Some(c) ==> r == rfc3339_seconds(c@),
{
    match created {
        None => None,
        Some(c) => rfc3339_timestamp(c.as_str()),
    }
}

/// The labels say the resource belongs to compose project `p`.
pub open spec fn carries_project(labels: Labels, p: Seq<char>) -> bool {
    label_lookup(pairs_view(labels@), DOCKER_COMPOSE_PROJECT@) == Some(p)
}

/// Every container, volume and network of the project carries its project label.
pub open spec fn compose_consistent(c: Compose) -> bool {
    &&& forall|k: int| 0 <= k < c.services@.len() ==> carries_project(#[trigger] c.services@[k].1.labels, c.project@)
    &&& forall|k: int| 0 <= k < c.volumes@.len() ==> carries_project(#[trigger] c.volumes@[k].1.labels, c.project@)
    &&& forall|k: int| 0 <= k < c.networks@.len() ==> carries_project(#[trigger] c.networks@[k].1.labels, c.project@)
}

/// No two projects share a name, and each holds only its own resources.
pub open spec fn projects_ok(s: Seq<Compose>) -> bool {
    &&& forall|i: int, j: int| 0 <= i < j < s.len() ==> #[trigger] s[i].project@ != #[trigger] s[j].project@
    &&& forall|i: int| 0 <= i < s.len() ==> compose_consistent(#[trigger] s[i])
}

/// (service, container number) keys of a project's containers, as texts.
pub open spec fn service_keys(c: Compose) -> Seq<(Seq<char>, Seq<char>)> {
    c.services@.map_values(|e: ((String, String), ContainerDetails)| (e.0.0@, e.0.1@))
}

/// Compose names of a project's volumes, as texts.
pub open spec fn volume_names(c: Compose) -> Seq<Seq<char>> {
    c.volumes@.map_values(|e: (String, VolumeSummary)| e.0@)
}

/// Compose names of a project's networks, as texts.
pub open spec fn network_names(c: Compose) -> Seq<Seq<char>> {
    c.networks@.map_values(|e: (String, NetworkSummary)| e.0@)
}

/// Some project named `p` holds a container under `key`.
pub open spec fn holds_service(s: Seq<Compose>, p: Seq<char>, key: (Seq<char>, Seq<char>)) -> bool {
    exists|i: int| 0 <= i < s.len() && (#[trigger] s[i]).project@ == p && service_keys(s[i]).contains(key)
}

/// Some project named `p` holds a volume named `name`.
pub open spec fn holds_volume(s: Seq<Compose>, p: Seq<char>, name: Seq<char>) -> bool {
    exists|i: int| 0 <= i < s.len() && (#[trigger] s[i]).project@ == p && volume_names(s[i]).contains(name)
}

/// Some project named `p` holds a network named `name`.
pub open spec fn holds_network(s: Seq<Compose>, p: Seq<char>, name: Seq<char>) -> bool {
    exists|i: int| 0 <= i < s.len() && (#[trigger] s[i]).project@ == p && network_names(s[i]).contains(name)
}

/// `new` keeps every project of `old`, at its index, with everything it held.
pub open spec fn keeps(old: Seq<Compose>, new: Seq<Compose>) -> bool {
    &&& old.len() <= new.len()
    &&& forall|i: int| 0 <= i < old.len() ==> {
        &&& (#[trigger] new[i]).project@ == old[i].project@
        &&& forall|k| service_keys(old[i]).contains(k) ==> service_keys(new[i]).contains(k)
        &&& forall|k| volume_names(old[i]).contains(k) ==> volume_names(new[i]).contains(k)
        &&& forall|k| network_names(old[i]).contains(k) ==> network_names(new[i]).contains(k)
    }
}

proof fn lemma_keeps_holds(old: Seq<Compose>, new: Seq<Compose>)
    requires
        keeps(old, new),
    ensures
        forall|p: Seq<char>, k: (Seq<char>, Seq<char>)| holds_service(old, p, k) ==> holds_service(new, p, k),
        forall|p: Seq<char>, k: Seq<char>| holds_volume(old, p, k) ==> holds_volume(new, p, k),
        forall|p: Seq<char>, k: Seq<char>| holds_network(old, p, k) ==> holds_network(new, p, k),
{
    assert forall|p: Seq<char>, k: (Seq<char>, Seq<char>)| holds_service(old, p, k) implies holds_service(new, p, k) by {
        let i = choose|i: int| 0 <= i < old.len() && (#[trigger] old[i]).project@ == p && service_keys(old[i]).contains(k);
        assert(new[i].project@ == p);
    }
    assert forall|p: Seq<char>, k: Seq<char>| holds_volume(old, p, k) implies holds_volume(new, p, k) by {
        let i = choose|i: int| 0 <= i < old.len() && (#[trigger] old[i]).project@ == p && volume_names(old[i]).contains(k);
        assert(new[i].project@ == p);
    }
    assert forall|p: Seq<char>, k: Seq<char>| holds_network(old, p, k) implies holds_network(new, p, k) by {
        let i = choose|i: int| 0 <= i < old.len() && (#[trigger] old[i]).project@ == p && network_names(old[i]).contains(k);
        assert(new[i].project@ == p);
    }
}

/// Index of the project named `p`, creating it (with the project details the
/// labels give) when there is none yet.
fn slot_for(projects: &mut Vec<Compose>, p: &String, labels: &Labels) -> (i: usize)
    requires
        projects_ok(old(projects)@),
    ensures
        projects_ok(final(projects)@),
        keeps(old(projects)@, final(projects)@),
        i < final(projects)@.len(),
        final(projects)@[i as int].project@ == p@,
{
    let mut i: usize = 0;
    while i < projects.len()
        invariant
            i <= projects@.len(),
            projects@ == old(projects)@,
            projects_ok(projects@),
            forall|k: int| 0 <= k < i ==> (#[trigger] projects@[k]).project@ != p@,
        decreases projects@.len() - i,
    {
        if projects[i].project == *p {
            return i;
        }
        i = i + 1;
    }
    let (config, wd, env) = extract_compose_info(labels);
    let c = Compose::new(p.clone(), config, wd, env);
    let ghost before = projects@;
    projects.push(c);
    assert(projects@[i as int].project@ == p@);
    assert forall|a: int, b: int| 0 <= a < b < projects@.len() implies #[trigger] projects@[a].project@ != #[trigger] projects@[b].project@ by {
        if b == i {
            assert(projects@[a] == before[a]);
        } else {
            assert(projects@[a] == before[a] && projects@[b] == before[b]);
        }
    }
    assert forall|a: int| 0 <= a < projects@.len() implies compose_consistent(#[trigger] projects@[a]) by {
        if a < i {
            assert(projects@[a] == before[a]);
        }
    }
    assert forall|a: int| 0 <= a < before.len() implies #[trigger] projects@[a] == before[a] by {}
    i
}

/// Sets `projects[i].services[key]` to `d`, replacing the container of the same key.
fn put_service(projects: &mut Vec<Compose>, i: usize, key: (String, String), d: ContainerDetails)
    requires
        projects_ok(old(projects)@),
        i < old(projects)@.len(),
        carries_project(d.labels, old(projects)@[i as int].project@),
    ensures
        projects_ok(final(projects)@),
        final(projects)@.len() == old(projects)@.len(),
        keeps(old(projects)@, final(projects)@),
        service_keys(final(projects)@[i as int]).contains((key.0@, key.1@)),
{
    let ghost before = projects@;
    let mut c = projects.remove(i);
    let ghost c0 = c;
    let ghost kv = (key.0@, key.1@);
    let mut k: usize = 0;
    let mut found = false;
    while k < c.services.len() && !found
        invariant
            k <= c.services@.len(),
            found ==> k < c.services@.len() && service_keys(c)[k as int] == kv,
            compose_consistent(c),
            c == old(projects)@[i as int],
            kv == (key.0@, key.1@),
        decreases c.services@.len() - k + (if found { 0int } else { 1int }),
    {
        if c.services[k].0.0 == key.0 && c.services[k].0.1 == key.1 {
            found = true;
        } else {
            k = k + 1;
        }
    }
    if found {
        c.services.set(k, (key, d));
    } else {
        c.services.push((key, d));
    }
    assert(compose_consistent(c));
    assert(service_keys(c).len() >= service_keys(c0).len());
    assert forall|j: int| 0 <= j < service_keys(c0).len() implies #[trigger] service_keys(c)[j] == service_keys(c0)[j] by {}
    assert forall|q| service_keys(c0).contains(q) implies service_keys(c).contains(q) by {
        let j = choose|j: int| 0 <= j < service_keys(c0).len() && service_keys(c0)[j] == q;
        assert(service_keys(c)[j] == q);
    }
    let ghost at = if found { k as int } else { service_keys(c0).len() as int };
    assert(service_keys(c)[at] == kv);
    projects.insert(i, c);
    assert(projects@[i as int] == c);
    assert forall|a: int, b: int| 0 <= a < b < projects@.len() implies #[trigger] projects@[a].project@ != #[trigger] projects@[b].project@ by {
        assert(projects@[a].project@ == before[a].project@);
        assert(projects@[b].project@ == before[b].project@);
    }
    assert forall|a: int| 0 <= a < projects@.len() implies compose_consistent(#[trigger] projects@[a]) by {
        if a != i {
            assert(projects@[a] == before[a]);
        }
    }
    assert forall|a: int| 0 <= a < before.len() && a != i implies #[trigger] projects@[a] == before[a] by {}
}

/// Sets `projects[i].volumes[name]` to `v`.
fn put_volume(projects: &mut Vec<Compose>, i: usize, name: String, v: VolumeSummary)
    requires
        projects_ok(old(projects)@),
        i < old(projects)@.len(),
        carries_project(v.labels, old(projects)@[i as int].project@),
    ensures
        projects_ok(final(projects)@),
        final(projects)@.len() == old(projects)@.len(),
        keeps(old(projects)@, final(projects)@),
        volume_names(final(projects)@[i as int]).contains(name@),
{
    let ghost before = projects@;
    let mut c = projects.remove(i);
    let ghost c0 = c;
    let ghost nv = name@;
    let mut k: usize = 0;
    let mut found = false;
    while k < c.volumes.len() && !found
        invariant
            k <= c.volumes@.len(),
            found ==> k < c.volumes@.len() && volume_names(c)[k as int] == nv,
            compose_consistent(c),
            c == old(projects)@[i as int],
            nv == name@,
        decreases c.volumes@.len() - k + (if found { 0int } else { 1int }),
    {
        if c.volumes[k].0 == name {
            found = true;
        } else {
            k = k + 1;
        }
    }
    if found {
        c.volumes.set(k, (name, v));
    } else {
        c.volumes.push((name, v));
    }
    assert(compose_consistent(c));
    assert forall|j: int| 0 <= j < volume_names(c0).len() implies #[trigger] volume_names(c)[j] == volume_names(c0)[j] by {}
    assert forall|q| volume_names(c0).contains(q) implies volume_names(c).contains(q) by {
        let j = choose|j: int| 0 <= j < volume_names(c0).len() && volume_names(c0)[j] == q;
        assert(volume_names(c)[j] == q);
    }
    let ghost at = if found { k as int } else { volume_names(c0).len() as int };
    assert(volume_names(c)[at] == nv);
    projects.insert(i, c);
    assert(projects@[i as int] == c);
    assert forall|a: int, b: int| 0 <= a < b < projects@.len() implies #[trigger] projects@[a].project@ != #[trigger] projects@[b].project@ by {
        assert(projects@[a].project@ == before[a].project@);
        assert(projects@[b].project@ == before[b].project@);
    }
    assert forall|a: int| 0 <= a < projects@.len() implies compose_consistent(#[trigger] projects@[a]) by {
        if a != i {
            assert(projects@[a] == before[a]);
        }
    }
    assert forall|a: int| 0 <= a < before.len() && a != i implies #[trigger] projects@[a] == before[a] by {}
}

/// Sets `projects[i].networks[name]` to `n`.
fn put_network(projects: &mut Vec<Compose>, i: usize, name: String, n: NetworkSummary)
    requires
        projects_ok(old(projects)@),
        i < old(projects)@.len(),
        carries_project(n.labels, old(projects)@[i as int].project@),
    ensures
        projects_ok(final(projects)@),
        final(projects)@.len() == old(projects)@.len(),
        keeps(old(projects)@, final(projects)@),
        network_names(final(projects)@[i as int]).contains(name@),
{
    let ghost before = projects@;
    let mut c = projects.remove(i);
    let ghost c0 = c;
    let ghost nv = name@;
    let mut k: usize = 0;
    let mut found = false;
    while k < c.networks.len() && !found
        invariant
            k <= c.networks@.len(),
            found ==> k < c.networks@.len() && network_names(c)[k as int] == nv,
            compose_consistent(c),
            c == old(projects)@[i as int],
            nv == name@,
        decreases c.networks@.len() - k + (if found { 0int } else { 1int }),
    {
        if c.networks[k].0 == name {
            found = true;
        } else {
            k = k + 1;
        }
    }
    if found {
        c.networks.set(k, (name, n));
    } else {
        c.networks.push((name, n));
    }
    assert(compose_consistent(c));
    assert forall|j: int| 0 <= j < network_names(c0).len() implies #[trigger] network_names(c)[j] == network_names(c0)[j] by {}
    assert forall|q| network_names(c0).contains(q) implies network_names(c).contains(q) by {
        let j = choose|j: int| 0 <= j < network_names(c0).len() && network_names(c0)[j] == q;
        assert(network_names(c)[j] == q);
    }
    let ghost at = if found { k as int } else { network_names(c0).len() as int };
    assert(network_names(c)[at] == nv);
    projects.insert(i, c);
    assert(projects@[i as int] == c);
    assert forall|a: int, b: int| 0 <= a < b < projects@.len() implies #[trigger] projects@[a].project@ != #[trigger] projects@[b].project@ by {
        assert(projects@[a].project@ == before[a].project@);
        assert(projects@[b].project@ == before[b].project@);
    }
    assert forall|a: int| 0 <= a < projects@.len() implies compose_consistent(#[trigger] projects@[a]) by {
        if a != i {
            assert(projects@[a] == before[a]);
        }
    }
    assert forall|a: int| 0 <= a < before.len() && a != i implies #[trigger] projects@[a] == before[a] by {}
}

/// The project and key a container is grouped under, when its labels give both.
pub open spec fn service_entry(d: ContainerDetails) -> Option<(Seq<char>, (Seq<char>, Seq<char>))> {
    let l = pairs_view(d.labels@);
    match (label_lookup(l, DOCKER_COMPOSE_PROJECT@), label_lookup(l, DOCKER_COMPOSE_SERVICE@),
        label_lookup(l, DOCKER_COMPOSE_CONTAINER_RANK@)) {
        (Some(p), Some(s), Some(n)) => Some((p, (s, n))),
        _ => None,
    }
}

/// The project and name a volume is grouped under, when its labels give both.
pub open spec fn volume_entry(v: VolumeSummary) -> Option<(Seq<char>, Seq<char>)> {
    let l = pairs_view(v.labels@);
    match (label_lookup(l, DOCKER_COMPOSE_PROJECT@), label_lookup(l, DOCKER_COMPOSE_VOLUME@)) {
        (Some(p), Some(n)) => Some((p, n)),
        _ => None,
    }
}

/// The project and name a network is grouped under, when its labels give both.
pub open spec fn network_entry(n: NetworkSummary) -> Option<(Seq<char>, Seq<char>)> {
    let l = pairs_view(n.labels@);
    match (label_lookup(l, DOCKER_COMPOSE_PROJECT@), label_lookup(l, DOCKER_COMPOSE_NETWORK@)) {
        (Some(p), Some(m)) => Some((p, m)),
        _ => None,
    }
}

/// Every container with project, service and number labels is in its project under
/// that key; every volume and network with project and name labels is in its project.
pub open spec fn all_grouped(
    r: Seq<Compose>,
    cs: Seq<ContainerDetails>,
    vs: Seq<VolumeSummary>,
    ns: Seq<NetworkSummary>,
) -> bool {
    &&& forall|m: int| 0 <= m < cs.len() && service_entry(#[trigger] cs[m]) is Some
        ==> holds_service(r, (service_entry(cs[m])->0).0, (service_entry(cs[m])->0).1)
    &&& forall|m: int| 0 <= m < vs.len() && volume_entry(#[trigger] vs[m]) is Some
        ==> holds_volume(r, (volume_entry(vs[m])->0).0, (volume_entry(vs[m])->0).1)
    &&& forall|m: int| 0 <= m < ns.len() && network_entry(#[trigger] ns[m]) is Some
        ==> holds_network(r, (network_entry(ns[m])->0).0, (network_entry(ns[m])->0).1)
}

/// Gathers compose projects from the project labels of containers, volumes and
/// networks. A container goes under its (service, container number) labels, a
/// volume and a network under their compose name labels; resources without those
/// labels are left out, and of two with the same key the later one stays.
pub fn group_compose_projects(
    containers: Vec<ContainerDetails>,
    volumes: Vec<VolumeSummary>,
    networks: Vec<NetworkSummary>,
) -> (r: Vec<Compose>)
    ensures
        projects_ok(r@),
        all_grouped(r@, containers@, volumes@, networks@),
{
    let ghost cs = containers@;
    let ghost vs = volumes@;
    let ghost ns = networks@;
    let mut projects: Vec<Compose> = Vec::new();
    let mut containers = containers;
    let ghost mut m: int = 0;
    while containers.len() > 0
        invariant
            projects_ok(projects@),
            0 <= m <= cs.len(),
            containers@ == cs.subrange(m, cs.len() as int),
            all_grouped(projects@, cs.subrange(0, m), Seq::empty(), Seq::empty()),
        decreases containers@.len(),
    {
        let ghost before = projects@;
        let c = containers.remove(0);
        assert(c == cs[m]);
        if let Some(p) = get_label(&c.labels, DOCKER_COMPOSE_PROJECT) {
            if let Some(key) = extract_compose_service_info(&c.labels) {
                let i = slot_for(&mut projects, &p, &c.labels);
                let ghost mid = projects@;
                put_service(&mut projects, i, key, c);
                proof {
                    lemma_keeps_holds(before, mid);
                    lemma_keeps_holds(mid, projects@);
                    assert(projects@[i as int].project@ == p@);
                }
            }
        }
        proof {
            if service_entry(cs[m]) is None {
                lemma_keeps_holds(before, before);
            }
            let pre = cs.subrange(0, m);
            let post = cs.subrange(0, m + 1);
            assert forall|q: int| 0 <= q < post.len() && service_entry(#[trigger] post[q]) is Some
                implies holds_service(projects@, (service_entry(post[q])->0).0, (service_entry(post[q])->0).1) by {
                if q < m {
                    assert(post[q] == pre[q]);
                }
            }
            m = m + 1;
        }
        assert(containers@ =~= cs.subrange(m, cs.len() as int));
    }
    assert(cs.subrange(0, m) =~= cs);
    let mut volumes = volumes;
    let ghost mut m2: int = 0;
    while volumes.len() > 0
        invariant
            projects_ok(projects@),
            0 <= m2 <= vs.len(),
            volumes@ == vs.subrange(m2, vs.len() as int),
            all_grouped(projects@, cs, vs.subrange(0, m2), Seq::empty()),
        decreases volumes@.len(),
    {
        let ghost before = projects@;
        let v = volumes.remove(0);
        assert(v == vs[m2]);
        if let Some(p) = get_label(&v.labels, DOCKER_COMPOSE_PROJECT) {
            if let Some(name) = extract_compose_volume_info(&v.labels) {
                let i = slot_for(&mut projects, &p, &v.labels);
                let ghost mid = projects@;
                put_volume(&mut projects, i, name, v);
                proof {
                    lemma_keeps_holds(before, mid);
                    lemma_keeps_holds(mid, projects@);
                }
            }
        }
        proof {
            lemma_keeps_holds(before, before);
            let pre = vs.subrange(0, m2);
            let post = vs.subrange(0, m2 + 1);
            assert forall|q: int| 0 <= q < post.len() && volume_entry(#[trigger] post[q]) is Some
                implies holds_volume(projects@, (volume_entry(post[q])->0).0, (volume_entry(post[q])->0).1) by {
                if q < m2 {
                    assert(post[q] == pre[q]);
                }
            }
            m2 = m2 + 1;
        }
        assert(volumes@ =~= vs.subrange(m2, vs.len() as int));
    }
    assert(vs.subrange(0, m2) =~= vs);
    let mut networks = networks;
    let ghost mut m3: int = 0;
    while networks.len() > 0
        invariant
            projects_ok(projects@),
            0 <= m3 <= ns.len(),
            networks@ == ns.subrange(m3, ns.len() as int),
            all_grouped(projects@, cs, vs, ns.subrange(0, m3)),
        decreases networks@.len(),
    {
        let ghost before = projects@;
        let n = networks.remove(0);
        assert(n == ns[m3]);
        if let Some(p) = get_label(&n.labels, DOCKER_COMPOSE_PROJECT) {
            if let Some(name) = extract_compose_network_info(&n.labels) {
                let i = slot_for(&mut projects, &p, &n.labels);
                let ghost mid = projects@;
                put_network(&mut projects, i, name, n);
                proof {
                    lemma_keeps_holds(before, mid);
                    lemma_keeps_holds(mid, projects@);
                }
            }
        }
        proof {
            lemma_keeps_holds(before, before);
            let pre = ns.subrange(0, m3);
            let post = ns.subrange(0, m3 + 1);
            assert forall|q: int| 0 <= q < post.len() && network_entry(#[trigger] post[q]) is Some
                implies holds_network(projects@, (network_entry(post[q])->0).0, (network_entry(post[q])->0).1) by {
                if q < m3 {
                    assert(post[q] == pre[q]);
                }
            }
            m3 = m3 + 1;
        }
        assert(networks@ =~= ns.subrange(m3, ns.len() as int));
    }
    assert(ns.subrange(0, m3) =~= ns);
    projects
}

/// Pairs of texts ordered by their first text, then their second.
#[derive(Clone, Copy, Debug, PartialEq, Eq, Structural)]
pub struct Lexical;

impl Ranked<Lexical> for (String, String) {
    open spec fn spec_cmp(&self, other: &Self, col: Lexical) -> core::cmp::Ordering {
        let first = text_cmp(self.0@, other.0@);
        if first == core::cmp::Ordering::Equal { text_cmp(self.1@, other.1@) } else { first }
    }

    fn compare(&self, other: &Self, col: &Lexical) -> (r: core::cmp::Ordering) {
        let first = compare_text(self.0.as_str(), other.0.as_str());
        if let core::cmp::Ordering::Equal = first {
            compare_text(self.1.as_str(), other.1.as_str())
        } else {
            first
        }
    }

    proof fn lemma_cmp_antisymmetric(a: &Self, b: &Self, col: Lexical) {
        lemma_text_cmp_antisymmetric(a.0@, b.0@);
        lemma_text_cmp_antisymmetric(a.1@, b.1@);
    }

    proof fn lemma_cmp_transitive(a: &Self, b: &Self, c: &Self, col: Lexical) {
        lemma_text_order(a.0@, b.0@, c.0@);
        lemma_text_order(a.1@, b.1@, c.1@);
        lemma_text_equal(a.0@, b.0@, c.0@);
        lemma_text_equal(a.0@, c.0@, b.0@);
    }
}

/// Order of optional texts: none first.
pub open spec fn option_text_cmp(a: Option<String>, b: Option<String>) -> core::cmp::Ordering {
    match (a, b) {
        (None, None) => core::cmp::Ordering::Equal,
        (None, Some(_)) => core::cmp::Ordering::Less,
        (Some(_), None) => core::cmp::Ordering::Greater,
        (Some(x), Some(y)) => text_cmp(x@, y@),
    }
}

impl Ranked<Lexical> for (String, Option<String>) {
    open spec fn spec_cmp(&self, other: &Self, col: Lexical) -> core::cmp::Ordering {
        let first = text_cmp(self.0@, other.0@);
        if first == core::cmp::Ordering::Equal { option_text_cmp(self.1, other.1) } else { first }
    }

    fn compare(&self, other: &Self, col: &Lexical) -> (r: core::cmp::Ordering) {
        let first = compare_text(self.0.as_str(), other.0.as_str());
        if let core::cmp::Ordering::Equal = first {
            match (&self.1, &other.1) {
                (None, None) => core::cmp::Ordering::Equal,
                (None, Some(_)) => core::cmp::Ordering::Less,
                (Some(_), None) => core::cmp::Ordering::Greater,
                (Some(x), Some(y)) => compare_text(x.as_str(), y.as_str()),
            }
        } else {
            first
        }
    }

    proof fn lemma_cmp_antisymmetric(a: &Self, b: &Self, col: Lexical) {
        lemma_text_cmp_antisymmetric(a.0@, b.0@);
        if a.1 is Some && b.1 is Some {
            lemma_text_cmp_antisymmetric(a.1->0@, b.1->0@);
        }
    }

    proof fn lemma_cmp_transitive(a: &Self, b: &Self, c: &Self, col: Lexical) {
        lemma_text_order(a.0@, b.0@, c.0@);
        lemma_text_equal(a.0@, b.0@, c.0@);
        lemma_text_equal(a.0@, c.0@, b.0@);
        if a.1 is Some && b.1 is Some && c.1 is Some {
            lemma_text_order(a.1->0@, b.1->0@, c.1->0@);
        }
    }
}

/// (name, value) of an environment entry: the text before the first '=' and the
/// text between it and the next '=' (empty when there is none).
pub open spec fn env_entry(e: Seq<char>) -> (Seq<char>, Seq<char>) {
    if !e.contains('=') {
        (e, Seq::empty())
    } else {
        let i = first_index_of(e, '=');
        let rest = e.subrange(i + 1, e.len() as int);
        if !rest.contains('=') {
            (e.subrange(0, i), rest)
        } else {
            (e.subrange(0, i), rest.subrange(0, first_index_of(rest, '=')))
        }
    }
}

fn split_env(e: &str) -> (r: (String, String))
    ensures
        (r.0@, r.1@) == env_entry(e@),
{
    let len = e.unicode_len();
    match find_char(e, '=') {
        None => (owned(e), String::new()),
        Some(i) => {
            proof {
                crate::runtime::model::lemma_first_index_unique(e@, '=', i as int);
            }
            let name = slice_text(e, 0, i);
            let rest = slice_text(e, i + 1, len);
            match find_char(rest.as_str(), '=') {
                None => (name, rest),
                Some(j) => {
                    proof {
                        crate::runtime::model::lemma_first_index_unique(rest@, '=', j as int);
                    }
                    (name, slice_text(rest.as_str(), 0, j))
                },
            }
        },
    }
}

pub open spec fn pair_views(s: Seq<(String, String)>) -> Seq<(Seq<char>, Seq<char>)> {
    s.map_values(|p: (String, String)| (p.0@, p.1@))
}

/// The environment of a container as (name, value) pairs, ordered.
pub fn parse_env(env: Option<Vec<String>>) -> (r: Vec<(String, String)>)
    ensures
        sorted_by(r@, Lexical),
        env is None ==> r@.len() == 0,
        env matches Some(v) ==> exists|p: Seq<(String, String)>| #![trigger p.to_multiset()]
            p.len() == v@.len() && r@.to_multiset() == p.to_multiset()
                && forall|i: int| 0 <= i < p.len() ==> (#[trigger] p[i].0@, p[i].1@) == env_entry(v@[i]@),
{
    let mut out: Vec<(String, String)> = Vec::new();
    match env {
        None => out,
        Some(v) => {
            let mut i: usize = 0;
            while i < v.len()
                invariant
                    i <= v@.len(),
                    out@.len() == i,
                    forall|k: int| 0 <= k < i ==> (#[trigger] out@[k].0@, out@[k].1@) == env_entry(v@[k]@),
                decreases v@.len() - i,
            {
                out.push(split_env(v[i].as_str()));
                i = i + 1;
            }
            let ghost p = out@;
            sort_ranked(&mut out, &Lexical);
            assert(out@.to_multiset() == p.to_multiset());
            out
        },
    }
}

/// The exposed ports of a container as (port, "") pairs, ordered.
pub fn parse_ports(exposed: Option<Vec<String>>) -> (r: Vec<(String, String)>)
    ensures
        sorted_by(r@, Lexical),
        exposed is None ==> r@.len() == 0,
        exposed matches Some(v) ==> exists|p: Seq<(String, String)>| #![trigger p.to_multiset()]
            p.len() == v@.len() && r@.to_multiset() == p.to_multiset()
                && forall|i: int| 0 <= i < p.len() ==> (#[trigger] p[i].0@, p[i].1@) == (v@[i]@, Seq::<char>::empty()),
{
    let mut out: Vec<(String, String)> = Vec::new();
    match exposed {
        None => out,
        Some(v) => {
            let mut i: usize = 0;
            while i < v.len()
                invariant
                    i <= v@.len(),
                    out@.len() == i,
                    forall|k: int| 0 <= k < i ==> (#[trigger] out@[k].0@, out@[k].1@) == (v@[k]@, Seq::<char>::empty()),
                decreases v@.len() - i,
            {
                out.push((v[i].clone(), String::new()));
                i = i + 1;
            }
            let ghost p = out@;
            sort_ranked(&mut out, &Lexical);
            assert(out@.to_multiset() == p.to_multiset());
            out
        },
    }
}

/// The text of an optional value, empty when absent.
pub open spec fn or_empty(t: Option<String>) -> Seq<char> {
    match t {
        Some(s) => s@,
        None => Seq::empty(),
    }
}

fn text_or_empty(t: &Option<String>) -> (r: String)
    ensures
        r@ == or_empty(*t),
{
    match t {
        Some(s) => s.clone(),
        None => String::new(),
    }
}

/// The mounts of a container as (source, destination) pairs, missing parts empty, ordered.
pub fn parse_mounts(mounts: Option<Vec<(Option<String>, Option<String>)>>) -> (r: Vec<(String, String)>)
    ensures
        sorted_by(r@, Lexical),
        mounts is None ==> r@.len() == 0,
        mounts matches Some(v) ==> exists|p: Seq<(String, String)>| #![trigger p.to_multiset()]
            p.len() == v@.len() && r@.to_multiset() == p.to_multiset()
                && forall|i: int| 0 <= i < p.len() ==> (#[trigger] p[i].0@, p[i].1@) == (or_empty(v@[i].0), or_empty(v@[i].1)),
{
    let mut out: Vec<(String, String)> = Vec::new();
    match mounts {
        None => out,
        Some(v) => {
            let mut i: usize = 0;
            while i < v.len()
                invariant
                    i <= v@.len(),
                    out@.len() == i,
                    forall|k: int| 0 <= k < i ==> (#[trigger] out@[k].0@, out@[k].1@) == (or_empty(v@[k].0), or_empty(v@[k].1)),
                decreases v@.len() - i,
            {
                out.push((text_or_empty(&v[i].0), text_or_empty(&v[i].1)));
                i = i + 1;
            }
            let ghost p = out@;
            sort_ranked(&mut out, &Lexical);
            assert(out@.to_multiset() == p.to_multiset());
            out
        },
    }
}

/// The networks of a container as (name, address) pairs, ordered.
pub fn parse_networks(networks: Option<Vec<(String, Option<String>)>>) -> (r: Vec<(String, Option<String>)>)
    ensures
        sorted_by(r@, Lexical),
        networks is None ==> r@.len() == 0,
        networks matches Some(v) ==> r@.to_multiset() == v@.to_multiset(),
{
    match networks {
        None => Vec::new(),
        Some(v) => {
            let mut out = v;
            sort_ranked(&mut out, &Lexical);
            out
        },
    }
}

} // verus!
