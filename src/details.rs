use vstd::prelude::*;
use vstd::string::*;

use crate::runtime::model::{status_text, ContainerDetails};
use crate::text::{join2, join3, owned, slice_text};
use crate::utils::{age_label, age_text};

verus! {

/// The texts of a list of lines.
pub open spec fn texts(v: Seq<String>) -> Seq<Seq<char>> {
    v.map_values(|s: String| s@)
}

/// `n` spaces.
pub open spec fn spaces(n: nat) -> Seq<char> {
    Seq::new(n, |i: int| ' ')
}

/// One line per item: `pad`, `lead`, then the item.
pub open spec fn item_lines(pad: Seq<char>, lead: Seq<char>, items: Seq<String>) -> Seq<Seq<char>> {
    Seq::new(items.len(), |i: int| pad + lead + items[i]@)
}

/// One line per pair: `pad`, `lead`, the key, `sep`, the value.
pub open spec fn pair_lines(pad: Seq<char>, lead: Seq<char>, sep: Seq<char>, pairs: Seq<(String, String)>) -> Seq<Seq<char>> {
    Seq::new(pairs.len(), |i: int| pad + lead + pairs[i].0@ + sep + pairs[i].1@)
}

/// A titled section: the title line then the item lines; nothing when there is no item.
pub open spec fn section(pad: Seq<char>, title: Seq<char>, body: Seq<Seq<char>>) -> Seq<Seq<char>> {
    if body.len() == 0 { Seq::empty() } else { seq![pad + title] + body }
}

/// The lines of one network: its name, then its address when it has a non-empty one.
pub open spec fn network_lines(pad: Seq<char>, n: (String, Option<String>)) -> Seq<Seq<char>> {
    let name = pad + "  - Name: "@ + n.0@;
    match n.1 {
        Some(ip) => if ip@.len() > 0 { seq![name, pad + "    IPAddress: "@ + ip@] } else { seq![name] },
        None => seq![name],
    }
}

pub open spec fn networks_lines(pad: Seq<char>, ns: Seq<(String, Option<String>)>) -> Seq<Seq<char>>
    decreases ns.len(),
{
    if ns.len() == 0 { Seq::empty() } else { networks_lines(pad, ns.drop_last()) + network_lines(pad, ns.last()) }
}

/// The first twelve characters of an id (all of it when shorter).
pub open spec fn short_id(id: Seq<char>) -> Seq<char> {
    if id.len() <= 12 { id } else { id.subrange(0, 12) }
}

/// Id, name, status, age when known, and image (or image id) lines.
pub open spec fn details_head(d: ContainerDetails, pad: Seq<char>, now: int) -> Seq<Seq<char>> {
    let head = seq![
        pad + "Id: "@ + short_id(d.id@),
        pad + "Name: "@ + d.name@,
        pad + "Status: "@ + status_text(d.status),
    ];
    let created = match d.age {
        Some(a) => seq![pad + "Created: "@ + age_text(now - a)],
        None => Seq::empty(),
    };
    let image = match (d.image, d.image_id) {
        (Some(i), _) => seq![pad + "Image: "@ + i@],
        (None, Some(i)) => seq![pad + "Image: "@ + i@],
        (None, None) => Seq::empty(),
    };
    head + created + image
}

/// The entrypoint, command, environment, volumes, networks and ports sections.
pub open spec fn details_sections(d: ContainerDetails, pad: Seq<char>) -> Seq<Seq<char>> {
    let entry = match d.entrypoint {
        Some(e) => section(pad, "Entrypoint:"@, item_lines(pad, "  - "@, e@)),
        None => Seq::empty(),
    };
    let command = match d.command {
        Some(c) => section(pad, "Command:"@, item_lines(pad, "  - "@, c@)),
        None => Seq::empty(),
    };
    entry + command
        + section(pad, "Environment:"@, pair_lines(pad, "  "@, ": "@, d.env@))
        + section(pad, "Volumes:"@, pair_lines(pad, "  - "@, ":"@, d.volumes@))
        + section(pad, "Networks:"@, networks_lines(pad, d.network@))
        + section(pad, "Ports:"@, pair_lines(pad, "  - "@, ":"@, d.ports@))
}

/// The detail view of a container at time `now`, indented by `indent` spaces: id,
/// name, status, age when known, image (or image id), then the entrypoint,
/// command, environment, volumes, networks and ports sections that are not empty.
pub open spec fn details_text(d: ContainerDetails, indent: nat, now: int) -> Seq<Seq<char>> {
    details_head(d, spaces(indent), now) + details_sections(d, spaces(indent))
}

fn spaces_text(n: usize) -> (r: String)
    ensures
        r@ == spaces(n as nat),
{
    let mut v: Vec<char> = Vec::new();
    let mut i: usize = 0;
    while i < n
        invariant
            i <= n,
            v@ == spaces(i as nat),
        decreases n - i,
    {
        v.push(' ');
        i = i + 1;
        assert(v@ =~= spaces(i as nat));
    }
    crate::text::string_from_chars(&v)
}

fn push_line(out: &mut Vec<String>, line: String)
    ensures
        texts(final(out)@) == texts(old(out)@).push(line@),
{
    out.push(line);
    assert(texts(out@) =~= texts(old(out)@).push(line@));
}

fn push_items(out: &mut Vec<String>, pad: &str, lead: &str, items: &Vec<String>)
    ensures
        texts(final(out)@) == texts(old(out)@) + item_lines(pad@, lead@, items@),
{
    let mut i: usize = 0;
    while i < items.len()
        invariant
            i <= items@.len(),
            texts(out@) == texts(old(out)@) + item_lines(pad@, lead@, items@.subrange(0, i as int)),
        decreases items@.len() - i,
    {
        push_line(out, join3(pad, lead, items[i].as_str()));
        i = i + 1;
        assert(texts(out@) =~= texts(old(out)@) + item_lines(pad@, lead@, items@.subrange(0, i as int)));
    }
    assert(items@.subrange(0, i as int) =~= items@);
}

fn push_pairs(out: &mut Vec<String>, pad: &str, lead: &str, sep: &str, pairs: &Vec<(String, String)>)
    ensures
        texts(final(out)@) == texts(old(out)@) + pair_lines(pad@, lead@, sep@, pairs@),
{
    let mut i: usize = 0;
    while i < pairs.len()
        invariant
            i <= pairs@.len(),
            texts(out@) == texts(old(out)@) + pair_lines(pad@, lead@, sep@, pairs@.subrange(0, i as int)),
        decreases pairs@.len() - i,
    {
        let a = join3(pad, lead, pairs[i].0.as_str());
        push_line(out, join3(a.as_str(), sep, pairs[i].1.as_str()));
        i = i + 1;
        assert(texts(out@) =~= texts(old(out)@) + pair_lines(pad@, lead@, sep@, pairs@.subrange(0, i as int)));
    }
    assert(pairs@.subrange(0, i as int) =~= pairs@);
}

fn push_networks(out: &mut Vec<String>, pad: &str, ns: &Vec<(String, Option<String>)>)
    ensures
        texts(final(out)@) == texts(old(out)@) + networks_lines(pad@, ns@),
{
    let mut i: usize = 0;
    while i < ns.len()
        invariant
            i <= ns@.len(),
            texts(out@) == texts(old(out)@) + networks_lines(pad@, ns@.subrange(0, i as int)),
        decreases ns@.len() - i,
    {
        let ghost before = texts(out@);
        push_line(out, join3(pad, "  - Name: ", ns[i].0.as_str()));
        match &ns[i].1 {
            Some(ip) => {
                if ip.unicode_len() > 0 {
                    push_line(out, join3(pad, "    IPAddress: ", ip.as_str()));
                }
            },
            None => {},
        }
        assert(ns@.subrange(0, i + 1).drop_last() =~= ns@.subrange(0, i as int));
        assert(texts(out@) =~= before + network_lines(pad@, ns@[i as int]));
        i = i + 1;
    }
    assert(ns@.subrange(0, i as int) =~= ns@);
}

fn push_section_items(out: &mut Vec<String>, pad: &str, title: &str, lead: &str, items: &Vec<String>)
    ensures
        texts(final(out)@) == texts(old(out)@) + section(pad@, title@, item_lines(pad@, lead@, items@)),
{
    if items.len() > 0 {
        push_line(out, join2(pad, title));
        push_items(out, pad, lead, items);
    }
    assert(texts(out@) =~= texts(old(out)@) + section(pad@, title@, item_lines(pad@, lead@, items@)));
}

fn push_section_pairs(out: &mut Vec<String>, pad: &str, title: &str, lead: &str, sep: &str, pairs: &Vec<(String, String)>)
    ensures
        texts(final(out)@) == texts(old(out)@) + section(pad@, title@, pair_lines(pad@, lead@, sep@, pairs@)),
{
    if pairs.len() > 0 {
        push_line(out, join2(pad, title));
        push_pairs(out, pad, lead, sep, pairs);
    }
    assert(texts(out@) =~= texts(old(out)@) + section(pad@, title@, pair_lines(pad@, lead@, sep@, pairs@)));
}

proof fn lemma_networks_lines_len(pad: Seq<char>, ns: Seq<(String, Option<String>)>)
    ensures
        (networks_lines(pad, ns).len() == 0) == (ns.len() == 0),
    decreases ns.len(),
{
    if ns.len() > 0 {
        lemma_networks_lines_len(pad, ns.drop_last());
    }
}

fn push_head(out: &mut Vec<String>, d: &ContainerDetails, p: &str, now: i64)
    ensures
        texts(final(out)@) == texts(old(out)@) + details_head(*d, p@, now as int),
{
    let idlen = d.id.unicode_len();
    let short = if idlen <= 12 { d.id.clone() } else { slice_text(d.id.as_str(), 0, 12) };
    push_line(out, join3(p, "Id: ", short.as_str()));
    push_line(out, join3(p, "Name: ", d.name.as_str()));
    let status = d.status.label();
    push_line(out, join3(p, "Status: ", status.as_str()));
    if let Some(a) = d.age {
        let age = age_label(a, now);
        push_line(out, join3(p, "Created: ", age.as_str()));
    }
    match (&d.image, &d.image_id) {
        (Some(i), _) => push_line(out, join3(p, "Image: ", i.as_str())),
        (None, Some(i)) => push_line(out, join3(p, "Image: ", i.as_str())),
        (None, None) => {},
    }
    assert(texts(out@) =~= texts(old(out)@) + details_head(*d, p@, now as int));
}

fn push_sections(out: &mut Vec<String>, d: &ContainerDetails, p: &str)
    ensures
        texts(final(out)@) == texts(old(out)@) + details_sections(*d, p@),
{
    let ghost start = texts(out@);
    if let Some(e) = &d.entrypoint {
        push_section_items(out, p, "Entrypoint:", "  - ", e);
    }
    if let Some(c) = &d.command {
        push_section_items(out, p, "Command:", "  - ", c);
    }
    let ghost mid = texts(out@);
    push_section_pairs(out, p, "Environment:", "  ", ": ", &d.env);
    push_section_pairs(out, p, "Volumes:", "  - ", ":", &d.volumes);
    let ghost before_nets = texts(out@);
    if d.network.len() > 0 {
        push_line(out, join2(p, "Networks:"));
        push_networks(out, p, &d.network);
    }
    proof {
        lemma_networks_lines_len(p@, d.network@);
        assert(texts(out@) =~= before_nets + section(p@, "Networks:"@, networks_lines(p@, d.network@)));
    }
    push_section_pairs(out, p, "Ports:", "  - ", ":", &d.ports);
    assert(texts(out@) =~= texts(old(out)@) + details_sections(*d, p@));
}

/// The lines of a container's detail view at time `now`.
pub fn details_to_lines(d: &ContainerDetails, indent: usize, now: i64) -> (r: Vec<String>)
    ensures
        texts(r@) == details_text(*d, indent as nat, now as int),
{
    let pad = spaces_text(indent);
    let mut out: Vec<String> = Vec::new();
    assert(texts(out@) =~= Seq::<Seq<char>>::empty());
    push_head(&mut out, d, pad.as_str(), now);
    push_sections(&mut out, d, pad.as_str());
    assert(texts(out@) =~= details_text(*d, indent as nat, now as int));
    out
}

/// A `label: value` line when the value is present.
pub open spec fn optional_line(label: Seq<char>, v: Option<String>) -> Seq<Seq<char>> {
    match v {
        Some(x) => seq![label + x@],
        None => Seq::empty(),
    }
}

/// Each service's heading `  service - number`, then its container's details indented by four.
pub open spec fn services_text(s: Seq<((String, String), ContainerDetails)>, now: int) -> Seq<Seq<char>>
    decreases s.len(),
{
    if s.len() == 0 {
        Seq::empty()
    } else {
        let e = s.last();
        services_text(s.drop_last(), now) + seq!["  "@ + e.0.0@ + " - "@ + e.0.1@] + details_text(e.1, 4, now)
    }
}

/// Two lines per named item: `<lead><name>` and `  Driver: <driver>`.
pub open spec fn driver_lines(lead: Seq<char>, names: Seq<Seq<char>>, drivers: Seq<Seq<char>>) -> Seq<Seq<char>>
    decreases names.len(),
{
    if names.len() == 0 || drivers.len() != names.len() {
        Seq::empty()
    } else {
        driver_lines(lead, names.drop_last(), drivers.drop_last())
            + seq![lead + names.last(), "  Driver: "@ + drivers.last()]
    }
}

pub open spec fn titled(title: Seq<char>, body: Seq<Seq<char>>, shown: bool) -> Seq<Seq<char>> {
    if shown { seq![title] + body } else { Seq::empty() }
}

/// The detail view of a compose project at time `now`.
pub open spec fn compose_text(c: crate::runtime::model::Compose, now: int) -> Seq<Seq<char>> {
    seq!["Compose project: "@ + c.project@]
        + optional_line("Config file: "@, c.config_file)
        + optional_line("Working directory: "@, c.working_dir)
        + optional_line("Environment file: "@, c.environment_files)
        + titled("Services:"@, services_text(c.services@, now), c.services@.len() > 0)
        + titled("Networks:"@, driver_lines("- Name: "@, c.networks@.map_values(|n: (String, crate::runtime::model::NetworkSummary)| n.0@),
            c.networks@.map_values(|n: (String, crate::runtime::model::NetworkSummary)| n.1.driver@)), c.networks@.len() > 0)
        + titled("Volumes:"@, driver_lines("- Id: "@, c.volumes@.map_values(|v: (String, crate::runtime::model::VolumeSummary)| v.0@),
            c.volumes@.map_values(|v: (String, crate::runtime::model::VolumeSummary)| v.1.driver@)), c.volumes@.len() > 0)
}

fn push_optional(out: &mut Vec<String>, label: &str, v: &Option<String>)
    ensures
        texts(final(out)@) == texts(old(out)@) + optional_line(label@, *v),
{
    if let Some(x) = v {
        push_line(out, join2(label, x.as_str()));
    }
    assert(texts(out@) =~= texts(old(out)@) + optional_line(label@, *v));
}

fn push_details(out: &mut Vec<String>, d: &ContainerDetails, now: i64)
    ensures
        texts(final(out)@) == texts(old(out)@) + details_text(*d, 4, now as int),
{
    let lines = details_to_lines(d, 4, now);
    let mut i: usize = 0;
    while i < lines.len()
        invariant
            i <= lines@.len(),
            texts(lines@) == details_text(*d, 4, now as int),
            texts(out@) == texts(old(out)@) + texts(lines@).subrange(0, i as int),
        decreases lines@.len() - i,
    {
        push_line(out, lines[i].clone());
        i = i + 1;
        assert(texts(out@) =~= texts(old(out)@) + texts(lines@).subrange(0, i as int));
    }
    assert(texts(lines@).subrange(0, i as int) =~= texts(lines@));
}

/// The lines of a compose project's detail view at time `now`.
pub fn compose_to_lines(c: &crate::runtime::model::Compose, now: i64) -> (r: Vec<String>)
    ensures
        texts(r@) == compose_text(*c, now as int),
{
    let mut out: Vec<String> = Vec::new();
    push_line(&mut out, join2("Compose project: ", c.project.as_str()));
    push_optional(&mut out, "Config file: ", &c.config_file);
    push_optional(&mut out, "Working directory: ", &c.working_dir);
    push_optional(&mut out, "Environment file: ", &c.environment_files);
    let ghost s1 = texts(out@);
    if c.services.len() > 0 {
        push_line(&mut out, owned("Services:"));
    }
    let mut i: usize = 0;
    while i < c.services.len()
        invariant
            i <= c.services@.len(),
            c.services@.len() > 0 ==> texts(out@) == s1 + seq!["Services:"@] + services_text(c.services@.subrange(0, i as int), now as int),
            c.services@.len() == 0 ==> texts(out@) == s1,
        decreases c.services@.len() - i,
    {
        let e = &c.services[i];
        push_line(&mut out, join3(join2("  ", e.0.0.as_str()).as_str(), " - ", e.0.1.as_str()));
        push_details(&mut out, &e.1, now);
        assert(c.services@.subrange(0, i + 1).drop_last() =~= c.services@.subrange(0, i as int));
        i = i + 1;
        assert(texts(out@) =~= s1 + seq!["Services:"@] + services_text(c.services@.subrange(0, i as int), now as int));
    }
    assert(c.services@.subrange(0, i as int) =~= c.services@);
    let ghost s2 = texts(out@);
    assert(s2 =~= s1 + titled("Services:"@, services_text(c.services@, now as int), c.services@.len() > 0));
    let ghost nnames = c.networks@.map_values(|n: (String, crate::runtime::model::NetworkSummary)| n.0@);
    let ghost ndrivers = c.networks@.map_values(|n: (String, crate::runtime::model::NetworkSummary)| n.1.driver@);
    if c.networks.len() > 0 {
        push_line(&mut out, owned("Networks:"));
    }
    let mut j: usize = 0;
    while j < c.networks.len()
        invariant
            j <= c.networks@.len(),
            nnames == c.networks@.map_values(|n: (String, crate::runtime::model::NetworkSummary)| n.0@),
            ndrivers == c.networks@.map_values(|n: (String, crate::runtime::model::NetworkSummary)| n.1.driver@),
            c.networks@.len() > 0 ==> texts(out@) == s2 + seq!["Networks:"@]
                + driver_lines("- Name: "@, nnames.subrange(0, j as int), ndrivers.subrange(0, j as int)),
            c.networks@.len() == 0 ==> texts(out@) == s2,
        decreases c.networks@.len() - j,
    {
        push_line(&mut out, join2("- Name: ", c.networks[j].0.as_str()));
        push_line(&mut out, join2("  Driver: ", c.networks[j].1.driver.as_str()));
        assert(nnames.subrange(0, j + 1).drop_last() =~= nnames.subrange(0, j as int));
        assert(nnames.subrange(0, j + 1).last() == c.networks@[j as int].0@);
        assert(ndrivers.subrange(0, j + 1).last() == c.networks@[j as int].1.driver@);
        assert(ndrivers.subrange(0, j + 1).drop_last() =~= ndrivers.subrange(0, j as int));
        j = j + 1;
        assert(texts(out@) =~= s2 + seq!["Networks:"@]
            + driver_lines("- Name: "@, nnames.subrange(0, j as int), ndrivers.subrange(0, j as int)));
    }
    assert(nnames.subrange(0, j as int) =~= nnames);
    assert(ndrivers.subrange(0, j as int) =~= ndrivers);
    let ghost s3 = texts(out@);
    assert(s3 =~= s2 + titled("Networks:"@, driver_lines("- Name: "@, nnames, ndrivers), c.networks@.len() > 0));
    let ghost vnames = c.volumes@.map_values(|v: (String, crate::runtime::model::VolumeSummary)| v.0@);
    let ghost vdrivers = c.volumes@.map_values(|v: (String, crate::runtime::model::VolumeSummary)| v.1.driver@);
    if c.volumes.len() > 0 {
        push_line(&mut out, owned("Volumes:"));
    }
    let mut k: usize = 0;
    while k < c.volumes.len()
        invariant
            k <= c.volumes@.len(),
            vnames == c.volumes@.map_values(|v: (String, crate::runtime::model::VolumeSummary)| v.0@),
            vdrivers == c.volumes@.map_values(|v: (String, crate::runtime::model::VolumeSummary)| v.1.driver@),
            c.volumes@.len() > 0 ==> texts(out@) == s3 + seq!["Volumes:"@]
                + driver_lines("- Id: "@, vnames.subrange(0, k as int), vdrivers.subrange(0, k as int)),
            c.volumes@.len() == 0 ==> texts(out@) == s3,
        decreases c.volumes@.len() - k,
    {
        push_line(&mut out, join2("- Id: ", c.volumes[k].0.as_str()));
        push_line(&mut out, join2("  Driver: ", c.volumes[k].1.driver.as_str()));
        assert(vnames.subrange(0, k + 1).drop_last() =~= vnames.subrange(0, k as int));
        assert(vnames.subrange(0, k + 1).last() == c.volumes@[k as int].0@);
        assert(vdrivers.subrange(0, k + 1).last() == c.volumes@[k as int].1.driver@);
        assert(vdrivers.subrange(0, k + 1).drop_last() =~= vdrivers.subrange(0, k as int));
        k = k + 1;
        assert(texts(out@) =~= s3 + seq!["Volumes:"@]
            + driver_lines("- Id: "@, vnames.subrange(0, k as int), vdrivers.subrange(0, k as int)));
    }
    assert(vnames.subrange(0, k as int) =~= vnames);
    assert(vdrivers.subrange(0, k as int) =~= vdrivers);
    assert(texts(out@) =~= compose_text(*c, now as int));
    out
}

} // verus!
