//! The checks a device configuration passes before it is built.
use vstd::prelude::*;

use crate::error::{Error, Result};
use crate::text::{cat, str_eq};

verus! {

/// Position of the first point id that repeats an earlier one.
pub open spec fn first_repeat(ids: Seq<Seq<char>>) -> Option<int> {
    if exists|j: int| 0 <= j < ids.len() && repeats_earlier(ids, j) {
        Some(choose|j: int| 0 <= j < ids.len() && repeats_earlier(ids, j) && forall|m: int|
            0 <= m < j ==> !repeats_earlier(ids, m))
    } else {
        None
    }
}

/// Whether the id at `j` equals one before it.
pub open spec fn repeats_earlier(ids: Seq<Seq<char>>, j: int) -> bool {
    exists|i: int| 0 <= i < j && ids[i] == ids[j]
}

/// The outcome of checking a device configuration: an empty id is refused,
/// then an empty name, then the first point id that repeats an earlier one.
pub open spec fn device_check(id: Seq<char>, name: Seq<char>, ids: Seq<Seq<char>>) -> Option<Seq<char>> {
    if id.len() == 0 {
        Some("Device ID cannot be empty"@)
    } else if name.len() == 0 {
        Some("Device name cannot be empty"@)
    } else {
        match first_repeat(ids) {
            Some(j) => Some("Duplicate data point ID: "@ + ids[j]),
            None => None,
        }
    }
}

fn repeats_before(point_ids: &[&str], j: usize) -> (r: bool)
    requires
        j < point_ids@.len(),
    ensures
        r == repeats_earlier(point_ids@.map_values(|s: &str| s@), j as int),
{
    let ghost ids = point_ids@.map_values(|s: &str| s@);
    let mut i: usize = 0;
    while i < j
        invariant
            ids == point_ids@.map_values(|s: &str| s@),
            i <= j < point_ids@.len(),
            forall|m: int| 0 <= m < i ==> ids[m] != ids[j as int],
        decreases j - i,
    {
        if str_eq(point_ids[i], point_ids[j]) {
            assert(ids[i as int] == ids[j as int]);
            return true;
        }
        i = i + 1;
    }
    false
}

/// Checks the fields of a device configuration and the ids of its points, in
/// order: `Config` errors with the message `device_check` gives, else `Ok`.
pub fn validate_device_config(id: &str, name: &str, point_ids: &[&str]) -> (r: Result<()>)
    ensures
        match device_check(id@, name@, point_ids@.map_values(|s: &str| s@)) {
            None => r is Ok,
            Some(m) => r matches Err(Error::Config(msg)) && msg@ == m,
        },
{
    let ghost ids = point_ids@.map_values(|s: &str| s@);
    if id.unicode_len() == 0 {
        return Err(Error::Config("Device ID cannot be empty".to_owned()));
    }
    if name.unicode_len() == 0 {
        return Err(Error::Config("Device name cannot be empty".to_owned()));
    }
    let n = point_ids.len();
    let mut j: usize = 0;
    while j < n
        invariant
            n == point_ids@.len(),
            ids == point_ids@.map_values(|s: &str| s@),
            id@.len() > 0,
            name@.len() > 0,
            j <= n,
            forall|m: int| 0 <= m < j ==> !#[trigger] repeats_earlier(ids, m),
        decreases n - j,
    {
        if repeats_before(point_ids, j) {
            proof {
                let k = choose|k: int|
                    0 <= k < ids.len() && repeats_earlier(ids, k) && forall|m: int|
                        0 <= m < k ==> !repeats_earlier(ids, m);
                assert(exists|k: int| 0 <= k < ids.len() && repeats_earlier(ids, k));
                assert(0 <= k < ids.len() && repeats_earlier(ids, k) && forall|m: int|
                    0 <= m < k ==> !repeats_earlier(ids, m)) by {
                    assert(0 <= j < ids.len() && repeats_earlier(ids, j as int) && forall|m: int|
                        0 <= m < j ==> !repeats_earlier(ids, m));
                }
                if k < j {
                    assert(!repeats_earlier(ids, k));
                } else if k > j {
                    assert(!repeats_earlier(ids, j as int));
                }
                assert(first_repeat(ids) == Some(j as int));
                assert(ids[j as int] == point_ids@[j as int]@);
                assert(device_check(id@, name@, ids) == Some("Duplicate data point ID: "@ + ids[j as int]));
            }
            let msg = cat("Duplicate data point ID: ", point_ids[j]);
            assert(msg@ == "Duplicate data point ID: "@ + ids[j as int]);
            return Err(Error::Config(msg));
        }
        j = j + 1;
    }
    Ok(())
}

} // verus!
