use vstd::prelude::*;

use crate::runtime::model::{
    status_text, ContainerSummary, ImageSummary, NetworkSummary, VolumeSummary,
};
use crate::text::{decimal, decimal_text, join2};

verus! {

/// Shown where the engine reports no value.
pub const NONE: &'static str = "<none>";

/// How long ago something happened, `delta` seconds back: seconds under a minute,
/// else whole minutes under an hour, else whole hours under a day, else whole days.
pub open spec fn age_text(delta: int) -> Seq<char> {
    if delta < 60 {
        decimal(delta) + "s"@
    } else if delta / 60 < 60 {
        decimal(delta / 60) + "m"@
    } else if delta / 3600 < 24 {
        decimal(delta / 3600) + "h"@
    } else {
        decimal(delta / 86400) + "d"@
    }
}

/// The age of a creation time `created` at time `now` (both in seconds since the epoch).
pub fn age_label(created: i64, now: i64) -> (r: String)
    ensures
        r@ == age_text(now - created),
{
    let delta: i128 = now as i128 - created as i128;
    if delta < 60 {
        let d = decimal_text(delta);
        join2(d.as_str(), "s")
    } else {
        let pos: u128 = delta as u128;
        if pos / 60 < 60 {
            let d = decimal_text((pos / 60) as i128);
            join2(d.as_str(), "m")
        } else if pos / 3600 < 24 {
            let d = decimal_text((pos / 3600) as i128);
            join2(d.as_str(), "h")
        } else {
            let d = decimal_text((pos / 86400) as i128);
            join2(d.as_str(), "d")
        }
    }
}

/// Relies on chrono's `Utc::now` and `DateTime::timestamp`: the current time in
/// seconds since the epoch. Nothing is known of its value.
#[verifier::external_body]
pub fn now_timestamp() -> (r: i64) {
    chrono::Utc::now().timestamp()
}

/// Age of a creation time, measured now.
pub trait Age {
    fn age(&self) -> String;
}

impl Age for i64 {
    fn age(&self) -> (r: String) {
        age_label(*self, now_timestamp())
    }
}

/// The text humansize writes for a size in bytes with its binary options.
pub uninterp spec fn binary_size_of(n: i64) -> Seq<char>;

/// Relies on humansize's `format_size_i` with the `BINARY` options: the size written
/// with binary units (B, KiB, MiB, ...); the text depends on the number alone.
#[verifier::external_body]
pub fn binary_size(n: i64) -> (r: String)
    ensures
        r@ == binary_size_of(n),
{
    humansize::format_size_i(n, humansize::BINARY)
}

/// Cells of an image row at time `now`: id, name, size, age.
pub fn image_cells(i: &ImageSummary, now: i64) -> (r: Vec<String>)
    ensures
        r@.len() == 4,
        r@[0]@ == i.id@,
        r@[1]@ == i.name@,
        r@[2]@ == binary_size_of(i.size),
        r@[3]@ == age_text(now - i.created),
{
    let mut v = Vec::new();
    v.push(i.id.clone());
    v.push(i.name.clone());
    v.push(binary_size(i.size));
    v.push(age_label(i.created, now));
    v
}

/// Cells of a container row at time `now`: id, name, image, status, age.
pub fn container_cells(c: &ContainerSummary, now: i64) -> (r: Vec<String>)
    ensures
        r@.len() == 5,
        r@[0]@ == c.id@,
        r@[1]@ == c.name@,
        r@[2]@ == c.image@,
        r@[3]@ == status_text(c.status),
        r@[4]@ == age_text(now - c.age),
{
    let mut v = Vec::new();
    v.push(c.id.clone());
    v.push(c.name.clone());
    v.push(c.image.clone());
    v.push(c.status.label());
    v.push(age_label(c.age, now));
    v
}

/// Cells of a volume row at time `now`: id, driver, age.
pub fn volume_cells(vol: &VolumeSummary, now: i64) -> (r: Vec<String>)
    ensures
        r@.len() == 3,
        r@[0]@ == vol.id@,
        r@[1]@ == vol.driver@,
        r@[2]@ == age_text(now - vol.created),
{
    let mut v = Vec::new();
    v.push(vol.id.clone());
    v.push(vol.driver.clone());
    v.push(age_label(vol.created, now));
    v
}

/// Cells of a network row at time `now`: id, name, driver, age.
pub fn network_cells(n: &NetworkSummary, now: i64) -> (r: Vec<String>)
    ensures
        r@.len() == 4,
        r@[0]@ == n.id@,
        r@[1]@ == n.name@,
        r@[2]@ == n.driver@,
        r@[3]@ == age_text(now - n.created),
{
    let mut v = Vec::new();
    v.push(n.id.clone());
    v.push(n.name.clone());
    v.push(n.driver.clone());
    v.push(age_label(n.created, now));
    v
}

} // verus!
