//! The labels that the dashboard shows for connections and latencies.

use vstd::prelude::*;
use crate::format::{decimal, decimal_string};
use crate::model::Connection;

verus! {

/// A proxy chain, given outermost first, written innermost first with ` ← `
/// between the hops.
pub open spec fn chain_label_of(cs: Seq<Seq<char>>) -> Seq<char>
    decreases cs.len(),
{
    if cs.len() == 0 {
        Seq::empty()
    } else if cs.len() == 1 {
        cs[0]
    } else {
        chain_label_of(cs.drop_first()) + " ← "@ + cs[0]
    }
}

pub open spec fn texts(v: Seq<String>) -> Seq<Seq<char>> {
    v.map_values(|s: String| s@)
}

/// The label of a connection's proxy chain: `DIRECT` where the chain is
/// empty, otherwise the hops innermost first.
pub fn chain_label(chains: &Vec<String>) -> (r: String)
    ensures
        r@ == (if chains@.len() == 0 {
            "DIRECT"@
        } else {
            chain_label_of(texts(chains@))
        }),
{
    let n = chains.len();
    if n == 0 {
        return String::from_str("DIRECT");
    }
    let ghost cs = texts(chains@);
    let mut r = chains[n - 1].clone();
    let mut k: usize = n - 1;
    assert(cs.subrange(k as int, n as int) =~= seq![cs[k as int]]);
    while k > 0
        invariant
            0 <= k < n,
            n == chains@.len(),
            cs == texts(chains@),
            r@ == chain_label_of(cs.subrange(k as int, n as int)),
        decreases k,
    {
        assert(cs.subrange(k - 1, n as int).drop_first() =~= cs.subrange(k as int, n as int));
        r = r.concat(" ← ").concat(chains[k - 1].as_str());
        k = k - 1;
    }
    assert(cs.subrange(0, n as int) =~= cs);
    r
}

/// Where a connection goes: its host name, or its destination address where
/// the host name is empty.
pub fn conn_target(c: &Connection) -> (r: &String)
    ensures
        *r == (if c.metadata.host@.len() == 0 {
            c.metadata.destination_ip
        } else {
            c.metadata.host
        }),
{
    if c.metadata.host.as_str().is_empty() {
        &c.metadata.destination_ip
    } else {
        &c.metadata.host
    }
}

/// A member's latency as shown: milliseconds where it is positive, dashes
/// where it is unknown or was a timeout.
pub fn delay_label(delay: i64) -> (r: String)
    ensures
        r@ == (if delay > 0 {
            decimal(delay as nat) + "ms"@
        } else {
            "---"@
        }),
{
    if delay > 0 {
        decimal_string(delay as u128).concat("ms")
    } else {
        String::from_str("---")
    }
}

} // verus!
