//! Disk usage of a mount, and the most specific mount that holds a path.

use vstd::prelude::*;
use crate::path::{components_start_with, depth, path_components, starts_with, views};

verus! {

/// One entry of the mount table: where a filesystem is mounted, its size and
/// the bytes still available on it.
#[derive(Clone, Debug, PartialEq)]
pub struct Mount {
    pub mounted_on: String,
    pub total: u64,
    pub avail: u64,
}

/// Disk usage of one mount point. The used share is kept in hundredths of a
/// percent (`7500` is 75.00%).
#[derive(Clone, Debug, PartialEq)]
pub struct MountInfo {
    pub avail: u64,
    pub total: u64,
    pub used: u64,
    pub used_pct_hundredths: u64,
    pub mounted_on: String,
}

/// `total - avail`, or zero where `avail` exceeds `total`.
pub open spec fn used_bytes(total: nat, avail: nat) -> nat {
    if avail <= total {
        (total - avail) as nat
    } else {
        0
    }
}

/// `n / d` rounded to the nearest integer, halves rounded up.
pub open spec fn rounded_div(n: nat, d: nat) -> nat
    recommends
        d > 0,
{
    ((2 * n + d) / (2 * d)) as nat
}

/// `used / total * 100`, rounded to two decimals and counted in hundredths;
/// zero for an empty filesystem.
pub open spec fn used_pct_hundredths(used: nat, total: nat) -> nat {
    if total == 0 {
        0
    } else {
        rounded_div(used * 10000, total)
    }
}

/// `info` is the usage of the mount `m`.
pub open spec fn usage_of(info: MountInfo, m: Mount) -> bool {
    &&& info.avail == m.avail
    &&& info.total == m.total
    &&& info.used == used_bytes(m.total as nat, m.avail as nat)
    &&& info.used_pct_hundredths == used_pct_hundredths(info.used as nat, m.total as nat)
    &&& info.mounted_on@ == m.mounted_on@
}

/// The mount `m` holds the path `p`: its mount point is a leading run of the
/// components of `p`.
pub open spec fn holds(m: Mount, p: Seq<char>) -> bool {
    starts_with(p, m.mounted_on@)
}

/// Among the mounts `ms` that hold `p`, the one at `i` has the most
/// components, and no earlier one has as many.
pub open spec fn is_closest(ms: Seq<Mount>, p: Seq<char>, i: int) -> bool {
    &&& 0 <= i < ms.len()
    &&& holds(ms[i], p)
    &&& forall|j: int|
        0 <= j < ms.len() && #[trigger] holds(ms[j], p) ==> depth(ms[j].mounted_on@) <= depth(
            ms[i].mounted_on@,
        ) && (j < i ==> depth(ms[j].mounted_on@) < depth(ms[i].mounted_on@))
}

/// `r` is what resolving `p` against the mount table `ms` gives: nothing where
/// no mount holds `p`, else the usage of the closest mount.
pub open spec fn resolves(ms: Seq<Mount>, p: Seq<char>, r: Option<MountInfo>) -> bool {
    match r {
        None => forall|j: int| 0 <= j < ms.len() ==> !#[trigger] holds(ms[j], p),
        Some(info) => exists|i: int| #[trigger] is_closest(ms, p, i) && usage_of(info, ms[i]),
    }
}

proof fn lemma_pct_bound(used: nat, total: nat)
    requires
        used <= total,
        total > 0,
    ensures
        rounded_div(used * 10000, total) <= 10000,
{
    let n = 2 * (used * 10000) + total;
    assert(n < 2 * total * 10001) by (nonlinear_arith)
        requires
            used <= total,
            total > 0,
            n == 2 * (used * 10000) + total,
    ;
    assert(n / (2 * total) < 10001) by (nonlinear_arith)
        requires
            n < 2 * total * 10001,
            total > 0,
    ;
}

impl MountInfo {
    /// The usage of the filesystem mounted on `mounted_on`, of `total` bytes
    /// with `avail` of them available.
    pub fn new(mounted_on: String, total: u64, avail: u64) -> (r: MountInfo)
        ensures
            r.avail == avail,
            r.total == total,
            r.used == used_bytes(total as nat, avail as nat),
            avail <= total ==> r.used == total - avail,
            avail > total ==> r.used == 0,
            r.used_pct_hundredths == used_pct_hundredths(r.used as nat, total as nat),
            total == 0 ==> r.used_pct_hundredths == 0,
            r.used_pct_hundredths <= 10000,
            r.mounted_on@ == mounted_on@,
    {
        let used = total.saturating_sub(avail);
        let pct: u64 = if total > 0 {
            let n: u128 = 2 * (used as u128 * 10000) + total as u128;
            let q: u128 = n / (2 * total as u128);
            proof {
                lemma_pct_bound(used as nat, total as nat);
            }
            q as u64
        } else {
            0
        };
        MountInfo { avail, total, used, used_pct_hundredths: pct, mounted_on }
    }

    /// The usage of the mount among `mounts` that holds `path` most
    /// specifically, or `None` where no mount holds it.
    pub fn for_path(path: &str, mounts: &Vec<Mount>) -> (r: Option<MountInfo>)
        ensures
            resolves(mounts@, path@, r),
            r is None <==> forall|j: int| 0 <= j < mounts@.len() ==> !#[trigger] holds(mounts@[j], path@),
            r matches Some(info) ==> starts_with(path@, info.mounted_on@) && forall|j: int|
                0 <= j < mounts@.len() && #[trigger] holds(mounts@[j], path@) ==> depth(
                    mounts@[j].mounted_on@,
                ) <= depth(info.mounted_on@),
    {
        let target = path_components(path);
        let mut best: Option<(usize, usize)> = None;
        let mut i: usize = 0;
        while i < mounts.len()
            invariant
                i <= mounts@.len(),
                views(target@) == crate::path::components(path@),
                match best {
                    None => forall|j: int| 0 <= j < i ==> !#[trigger] holds(mounts@[j], path@),
                    Some((b, d)) => {
                        &&& b < i
                        &&& d == depth(mounts@[b as int].mounted_on@)
                        &&& holds(mounts@[b as int], path@)
                        &&& forall|j: int|
                            0 <= j < i && #[trigger] holds(mounts@[j], path@) ==> depth(
                                mounts@[j].mounted_on@,
                            ) <= d && (j < b ==> depth(mounts@[j].mounted_on@) < d)
                    },
                },
            decreases mounts@.len() - i,
        {
            let here = path_components(mounts[i].mounted_on.as_str());
            if components_start_with(&target, &here) {
                match best {
                    None => {
                        best = Some((i, here.len()));
                    },
                    Some((_, d)) => {
                        if here.len() > d {
                            best = Some((i, here.len()));
                        }
                    },
                }
            }
            i = i + 1;
        }
        match best {
            None => None,
            Some((b, _)) => {
                let m = &mounts[b];
                let info = MountInfo::new(m.mounted_on.clone(), m.total, m.avail);
                assert(is_closest(mounts@, path@, b as int));
                Some(info)
            },
        }
    }
}

} // verus!
