//! Assembly of one health snapshot from readings of the process, the system,
//! the network interfaces and the mount table, each taken on its own.

use vstd::prelude::*;
use vstd::string::StringExecFns;
use crate::mount::{resolves, Mount, MountInfo};
use crate::network::Network;

verus! {

/// The paths of the chain database and of the freezer database.
#[derive(Clone, Debug, PartialEq)]
pub struct DBPaths {
    pub chain_db: String,
    pub freezer_db: String,
}

/// Memory of this process.
#[derive(Clone, Copy, Debug, PartialEq, Eq, Structural)]
pub struct ProcessMemory {
    /// Resident set size, in bytes.
    pub rss: u64,
    /// Virtual memory size, in bytes.
    pub vms: u64,
}

/// Virtual memory of the system.
#[derive(Clone, Copy, Debug, PartialEq, Eq, Structural)]
pub struct VirtualMemory {
    pub total: u64,
    pub available: u64,
    pub used: u64,
    pub free: u64,
    /// The used percentage, as the bit pattern of an `f32`.
    pub percent: u32,
}

/// Load averages of the system over 1, 5 and 15 minutes, each as the bit
/// pattern of an `f64`.
#[derive(Clone, Copy, Debug, PartialEq, Eq, Structural)]
pub struct LoadAverage {
    pub one: u64,
    pub five: u64,
    pub fifteen: u64,
}

/// Health of this process and of the system it runs on. Percentages and load
/// averages are kept as the bit patterns of the floats that the system
/// reported.
#[derive(Clone, Copy, Debug, PartialEq, Eq, Structural)]
pub struct CommonHealth {
    /// The pid of this process.
    pub pid: u32,
    /// The resident memory of this process.
    pub pid_mem_resident_set_size: u64,
    /// The virtual memory of this process.
    pub pid_mem_virtual_memory_size: u64,
    /// Total virtual memory of the system.
    pub sys_virt_mem_total: u64,
    /// Virtual memory available for new processes.
    pub sys_virt_mem_available: u64,
    /// Virtual memory in use.
    pub sys_virt_mem_used: u64,
    /// Virtual memory not in use.
    pub sys_virt_mem_free: u64,
    /// Used share of virtual memory, the bits of an `f32` percentage.
    pub sys_virt_mem_percent: u32,
    /// Load average over 1 minute, the bits of an `f64`.
    pub sys_loadavg_1: u64,
    /// Load average over 5 minutes, the bits of an `f64`.
    pub sys_loadavg_5: u64,
    /// Load average over 15 minutes, the bits of an `f64`.
    pub sys_loadavg_15: u64,
}

/// Health of the node: process and system, network totals, and the mounts
/// that hold its two databases (`None` where no mount holds the path).
#[derive(Clone, Debug, PartialEq)]
pub struct BeaconHealth {
    pub common: CommonHealth,
    /// Totals across all network interfaces.
    pub network: Network,
    pub chain_database: Option<MountInfo>,
    pub freezer_database: Option<MountInfo>,
}

/// The error where the platform has no support for these readings.
pub open spec fn unsupported_msg() -> Seq<char> {
    "Health is only available on Linux and MacOS"@
}

/// `r` is `e` with its error as characters.
pub open spec fn same_outcome<T>(r: Result<T, String>, e: Result<T, Seq<char>>) -> bool {
    match (r, e) {
        (Ok(a), Ok(b)) => a == b,
        (Err(a), Err(b)) => a@ == b,
        _ => false,
    }
}

/// The health that the readings give: the first failure among them in the
/// order of the parameters, named after the reading, or every value in its
/// field.
pub open spec fn common_health(
    supported: bool,
    pid: Result<u32, String>,
    memory: Result<ProcessMemory, String>,
    virtual_memory: Result<VirtualMemory, String>,
    loadavg: Result<LoadAverage, String>,
) -> Result<CommonHealth, Seq<char>> {
    if !supported {
        Err(unsupported_msg())
    } else {
        match (pid, memory, virtual_memory, loadavg) {
            (Err(e), _, _, _) => Err("Unable to get current process: "@ + e@),
            (Ok(_), Err(e), _, _) => Err("Unable to get process memory info: "@ + e@),
            (Ok(_), Ok(_), Err(e), _) => Err("Unable to get virtual memory: "@ + e@),
            (Ok(_), Ok(_), Ok(_), Err(e)) => Err("Unable to get loadavg: "@ + e@),
            (Ok(p), Ok(m), Ok(vm), Ok(l)) => Ok(
                CommonHealth {
                    pid: p,
                    pid_mem_resident_set_size: m.rss,
                    pid_mem_virtual_memory_size: m.vms,
                    sys_virt_mem_total: vm.total,
                    sys_virt_mem_available: vm.available,
                    sys_virt_mem_used: vm.used,
                    sys_virt_mem_free: vm.free,
                    sys_virt_mem_percent: vm.percent,
                    sys_loadavg_1: l.one,
                    sys_loadavg_5: l.five,
                    sys_loadavg_15: l.fifteen,
                },
            ),
        }
    }
}

/// `prefix` followed by `cause`.
fn failure(prefix: &str, cause: &String) -> (r: String)
    ensures
        r@ == prefix@ + cause@,
{
    String::from_str(prefix).concat(cause.as_str())
}

impl CommonHealth {
    /// The health of this process and system from its readings; `supported`
    /// says whether the platform offers them at all.
    pub fn observe(
        supported: bool,
        pid: Result<u32, String>,
        memory: Result<ProcessMemory, String>,
        virtual_memory: Result<VirtualMemory, String>,
        loadavg: Result<LoadAverage, String>,
    ) -> (r: Result<CommonHealth, String>)
        ensures
            same_outcome(r, common_health(supported, pid, memory, virtual_memory, loadavg)),
    {
        if !supported {
            return Err(String::from_str("Health is only available on Linux and MacOS"));
        }
        let pid = match pid {
            Ok(p) => p,
            Err(e) => {
                return Err(failure("Unable to get current process: ", &e));
            },
        };
        let memory = match memory {
            Ok(m) => m,
            Err(e) => {
                return Err(failure("Unable to get process memory info: ", &e));
            },
        };
        let vm = match virtual_memory {
            Ok(v) => v,
            Err(e) => {
                return Err(failure("Unable to get virtual memory: ", &e));
            },
        };
        let load = match loadavg {
            Ok(l) => l,
            Err(e) => {
                return Err(failure("Unable to get loadavg: ", &e));
            },
        };
        Ok(
            CommonHealth {
                pid,
                pid_mem_resident_set_size: memory.rss,
                pid_mem_virtual_memory_size: memory.vms,
                sys_virt_mem_total: vm.total,
                sys_virt_mem_available: vm.available,
                sys_virt_mem_used: vm.used,
                sys_virt_mem_free: vm.free,
                sys_virt_mem_percent: vm.percent,
                sys_loadavg_1: load.one,
                sys_loadavg_5: load.five,
                sys_loadavg_15: load.fifteen,
            },
        )
    }
}

impl BeaconHealth {
    /// The snapshot of the node: fails with the first failing reading (the
    /// process and system health, the network totals, the mount table, in
    /// that order); else holds them, with each database path resolved
    /// against the mount table.
    pub fn observe(
        db_paths: &DBPaths,
        common: Result<CommonHealth, String>,
        network: Result<Network, String>,
        mounts: Result<Vec<Mount>, String>,
    ) -> (r: Result<BeaconHealth, String>)
        ensures
            common matches Err(e) ==> r matches Err(m) && m@ == e@,
            common is Ok ==> (network matches Err(e) ==> r matches Err(m) && m@ == e@),
            common is Ok && network is Ok ==> (mounts matches Err(e) ==> r matches Err(m) && m@
                == "Unable to enumerate mounts: "@ + e@),
            r is Ok <==> common is Ok && network is Ok && mounts is Ok,
            r matches Ok(h) ==> {
                &&& common == Ok::<CommonHealth, String>(h.common)
                &&& network == Ok::<Network, String>(h.network)
                &&& mounts matches Ok(ms) && resolves(ms@, db_paths.chain_db@, h.chain_database)
                    && resolves(ms@, db_paths.freezer_db@, h.freezer_database)
            },
    {
        let common = match common {
            Ok(c) => c,
            Err(e) => {
                return Err(e);
            },
        };
        let network = match network {
            Ok(n) => n,
            Err(e) => {
                return Err(e);
            },
        };
        let mounts = match mounts {
            Ok(ms) => ms,
            Err(e) => {
                return Err(failure("Unable to enumerate mounts: ", &e));
            },
        };
        let chain_database = MountInfo::for_path(db_paths.chain_db.as_str(), &mounts);
        let freezer_database = MountInfo::for_path(db_paths.freezer_db.as_str(), &mounts);
        Ok(BeaconHealth { common, network, chain_database, freezer_database })
    }
}

} // verus!
