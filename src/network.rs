//! Network counters, totalled over every interface.

use vstd::prelude::*;
use vstd::string::StringExecFns;

verus! {

/// Received and transmitted bytes, errors and packets: of one interface, or
/// totalled over all of them.
#[derive(Clone, Copy, Debug, PartialEq, Eq, Structural)]
pub struct Network {
    /// Received bytes.
    pub rx_bytes: u64,
    /// Receive errors.
    pub rx_errors: u64,
    /// Received packets.
    pub rx_packets: u64,
    /// Transmitted bytes.
    pub tx_bytes: u64,
    /// Transmit errors.
    pub tx_errors: u64,
    /// Transmitted packets.
    pub tx_packets: u64,
}

/// The counter of `n` with index `k`, in the order of the fields.
pub open spec fn counter(n: Network, k: int) -> nat {
    if k == 0 {
        n.rx_bytes as nat
    } else if k == 1 {
        n.rx_errors as nat
    } else if k == 2 {
        n.rx_packets as nat
    } else if k == 3 {
        n.tx_bytes as nat
    } else if k == 4 {
        n.tx_errors as nat
    } else {
        n.tx_packets as nat
    }
}

/// The sum of counter `k` over all of `ns`.
pub open spec fn total(ns: Seq<Network>, k: int) -> nat
    decreases ns.len(),
{
    if ns.len() == 0 {
        0
    } else {
        total(ns.drop_last(), k) + counter(ns.last(), k)
    }
}

/// Every counter's sum over `ns` fits in a `u64`.
pub open spec fn totals_fit(ns: Seq<Network>) -> bool {
    forall|k: int| 0 <= k < 6 ==> #[trigger] total(ns, k) <= u64::MAX
}

/// `n` holds, counter by counter, the sums over `ns`.
pub open spec fn is_total_of(n: Network, ns: Seq<Network>) -> bool {
    forall|k: int| 0 <= k < 6 ==> #[trigger] counter(n, k) == total(ns, k)
}

proof fn lemma_total_grows(ns: Seq<Network>, i: int, k: int)
    requires
        0 <= i <= ns.len(),
    ensures
        total(ns.take(i), k) <= total(ns, k),
    decreases ns.len() - i,
{
    if i < ns.len() {
        lemma_total_grows(ns, i + 1, k);
        assert(ns.take(i + 1).drop_last() =~= ns.take(i));
    } else {
        assert(ns.take(i) =~= ns);
    }
}

impl Network {
    /// The counters totalled over `interfaces`; an error where a sum does not
    /// fit in a `u64`.
    pub fn observe(interfaces: &Vec<Network>) -> (r: Result<Network, String>)
        ensures
            r is Ok <==> totals_fit(interfaces@),
            r matches Ok(n) ==> is_total_of(n, interfaces@),
            interfaces@.len() == 0 ==> r == Ok::<Network, String>(
                (Network {
                    rx_bytes: 0,
                    rx_errors: 0,
                    rx_packets: 0,
                    tx_bytes: 0,
                    tx_errors: 0,
                    tx_packets: 0,
                }),
            ),
    {
        let mut sum = Network {
            rx_bytes: 0,
            rx_errors: 0,
            rx_packets: 0,
            tx_bytes: 0,
            tx_errors: 0,
            tx_packets: 0,
        };
        let mut i: usize = 0;
        proof {
            assert(interfaces@.take(0) =~= Seq::<Network>::empty());
        }
        while i < interfaces.len()
            invariant
                i <= interfaces@.len(),
                is_total_of(sum, interfaces@.take(i as int)),
                i == 0 ==> sum == (Network {
                    rx_bytes: 0,
                    rx_errors: 0,
                    rx_packets: 0,
                    tx_bytes: 0,
                    tx_errors: 0,
                    tx_packets: 0,
                }),
            decreases interfaces@.len() - i,
        {
            let n = interfaces[i];
            let ghost seen = interfaces@.take(i + 1);
            proof {
                assert(seen.drop_last() =~= interfaces@.take(i as int));
                assert(seen.last() == n);
                assert forall|k: int| 0 <= k < 6 implies #[trigger] total(seen, k) == counter(sum, k)
                    + counter(n, k) by {}
            }
            let next = match (
                sum.rx_bytes.checked_add(n.rx_bytes),
                sum.rx_errors.checked_add(n.rx_errors),
                sum.rx_packets.checked_add(n.rx_packets),
                sum.tx_bytes.checked_add(n.tx_bytes),
                sum.tx_errors.checked_add(n.tx_errors),
                sum.tx_packets.checked_add(n.tx_packets),
            ) {
                (Some(a), Some(b), Some(c), Some(d), Some(e), Some(f)) => Network {
                    rx_bytes: a,
                    rx_errors: b,
                    rx_packets: c,
                    tx_bytes: d,
                    tx_errors: e,
                    tx_packets: f,
                },
                _ => {
                    proof {
                        let k: int = if sum.rx_bytes + n.rx_bytes > u64::MAX {
                            0
                        } else if sum.rx_errors + n.rx_errors > u64::MAX {
                            1
                        } else if sum.rx_packets + n.rx_packets > u64::MAX {
                            2
                        } else if sum.tx_bytes + n.tx_bytes > u64::MAX {
                            3
                        } else if sum.tx_errors + n.tx_errors > u64::MAX {
                            4
                        } else {
                            5
                        };
                        assert(total(seen, k) > u64::MAX);
                        lemma_total_grows(interfaces@, i + 1, k);
                        assert(total(interfaces@, k) > u64::MAX);
                    }
                    return Err(String::from_str("network counter total overflows u64"));
                },
            };
            sum = next;
            i = i + 1;
        }
        proof {
            assert(interfaces@.take(i as int) =~= interfaces@);
            assert forall|k: int| 0 <= k < 6 implies #[trigger] total(interfaces@, k) <= u64::MAX by {
                assert(counter(sum, k) == total(interfaces@, k));
            }
        }
        Ok(sum)
    }
}

} // verus!
