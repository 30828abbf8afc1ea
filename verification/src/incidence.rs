//! The incidence assembler's mathematical model, and the structural laws
//! of the oriented node-link incidence matrices `A21` (demand nodes) and
//! `A10` (fixed-head nodes).
//!
//! Links are numbered pipes first, then pumps, then valves, each in
//! declaration order; fixed-head nodes are numbered tanks first, then
//! reservoirs. An entry is -1.0 where the link starts at the node, +1.0
//! where it ends there, and +0.0 elsewhere.

use vstd::prelude::*;
use crate::fp::{add_bits, mul_bits, FP_ZERO, FP_ONE, FP_NEG_ONE};
use crate::network::{
    Network, junctions_of, tanks_of, reservoirs_of, pipes_of, pumps_of, valves_of,
};

verus! {

/// The number of links: pipes, pumps and valves together.
pub open spec fn link_count(net: Network) -> int {
    pipes_of(net).len() + pumps_of(net).len() + valves_of(net).len() as int
}

/// The number of fixed-head nodes: tanks and reservoirs together.
pub open spec fn fixed_count(net: Network) -> int {
    tanks_of(net).len() + reservoirs_of(net).len() as int
}

/// The start node id of the `j`-th link.
pub open spec fn link_start(net: Network, j: int) -> usize {
    if j < pipes_of(net).len() {
        pipes_of(net)[j].start
    } else if j < pipes_of(net).len() + pumps_of(net).len() {
        pumps_of(net)[j - pipes_of(net).len()].start
    } else {
        valves_of(net)[j - pipes_of(net).len() - pumps_of(net).len()].start
    }
}

/// The end node id of the `j`-th link.
pub open spec fn link_end(net: Network, j: int) -> usize {
    if j < pipes_of(net).len() {
        pipes_of(net)[j].end
    } else if j < pipes_of(net).len() + pumps_of(net).len() {
        pumps_of(net)[j - pipes_of(net).len()].end
    } else {
        valves_of(net)[j - pipes_of(net).len() - pumps_of(net).len()].end
    }
}

/// The id of the `k`-th fixed-head node.
pub open spec fn fixed_node_id(net: Network, k: int) -> usize {
    if k < tanks_of(net).len() {
        tanks_of(net)[k].id
    } else {
        reservoirs_of(net)[k - tanks_of(net).len()].id
    }
}

/// The oriented incidence sign of a link against a node id: -1 at the
/// start node, +1 at the end node, 0 elsewhere.
pub open spec fn incidence_sign(start: usize, end: usize, id: usize) -> int {
    if start == id {
        -1
    } else if end == id {
        1
    } else {
        0
    }
}

/// An incidence sign as the bits of the doubles -1.0, +1.0 and +0.0.
pub open spec fn sign_to_bits(s: int) -> u64 {
    if s == -1 {
        FP_NEG_ONE
    } else if s == 1 {
        FP_ONE
    } else {
        FP_ZERO
    }
}

/// The demand-node incidence matrix `A21`: one row per junction, one
/// column per link.
pub open spec fn a21_spec(net: Network) -> Seq<Seq<u64>> {
    Seq::new(
        junctions_of(net).len(),
        |i: int| Seq::new(
            link_count(net) as nat,
            |j: int| sign_to_bits(
                incidence_sign(link_start(net, j), link_end(net, j), junctions_of(net)[i].id),
            ),
        ),
    )
}

/// The fixed-head incidence matrix `A10`: one row per link, one column
/// per fixed-head node.
pub open spec fn a10_spec(net: Network) -> Seq<Seq<u64>> {
    Seq::new(
        link_count(net) as nat,
        |j: int| Seq::new(
            fixed_count(net) as nat,
            |k: int| sign_to_bits(
                incidence_sign(link_start(net, j), link_end(net, j), fixed_node_id(net, k)),
            ),
        ),
    )
}

/// The fixed-head vector: tank heads (elevation plus initial level), then
/// reservoir heads.
pub open spec fn h0_spec(net: Network) -> Seq<u64> {
    Seq::new(
        fixed_count(net) as nat,
        |k: int| if k < tanks_of(net).len() {
            add_bits(tanks_of(net)[k].elevation, tanks_of(net)[k].initial_level)
        } else {
            reservoirs_of(net)[k - tanks_of(net).len()].head
        },
    )
}

/// The demand vector in SI: each junction's demand times the flow unit
/// multiplier.
pub open spec fn q_spec(net: Network, mult: u64) -> Seq<u64> {
    Seq::new(junctions_of(net).len(), |i: int| mul_bits(junctions_of(net)[i].demand, mult))
}

/// The id of the `p`-th node when junctions come first, then tanks, then
/// reservoirs.
pub open spec fn node_id_at(net: Network, p: int) -> usize {
    if p < junctions_of(net).len() {
        junctions_of(net)[p].id
    } else {
        fixed_node_id(net, p - junctions_of(net).len())
    }
}

/// The number of all nodes.
pub open spec fn node_count(net: Network) -> int {
    junctions_of(net).len() + fixed_count(net)
}

/// Every node id occurs once: nodes at distinct positions have distinct
/// ids.
pub open spec fn node_ids_unique(net: Network) -> bool {
    forall|p1: int, p2: int|
        0 <= p1 < p2 < node_count(net) ==> #[trigger] node_id_at(net, p1) != #[trigger] node_id_at(
            net,
            p2,
        )
}

/// Both endpoints of every link are nodes of the network, and differ.
pub open spec fn link_endpoints_ok(net: Network) -> bool {
    forall|j: int|
        0 <= j < link_count(net) ==> ((exists|p: int|
            0 <= p < node_count(net) && node_id_at(net, p) == link_start(net, j)) && (exists|
            p: int,
        |
            0 <= p < node_count(net) && node_id_at(net, p) == link_end(net, j)) && #[trigger] link_start(
            net,
            j,
        ) != link_end(net, j))
}

/// The sum of the incidence signs of link `j` over the first `p` nodes of
/// the stacked matrix `[A21 ; A10]`.
pub open spec fn col_sign_sum(net: Network, j: int, p: int) -> int
    decreases p,
{
    if p <= 0 {
        0
    } else {
        col_sign_sum(net, j, p - 1) + incidence_sign(
            link_start(net, j),
            link_end(net, j),
            node_id_at(net, p - 1),
        )
    }
}

/// How many of the first `p` nodes carry the given id.
pub open spec fn occurrences(net: Network, id: usize, p: int) -> int
    decreases p,
{
    if p <= 0 {
        0
    } else {
        occurrences(net, id, p - 1) + if node_id_at(net, p - 1) == id {
            1int
        } else {
            0int
        }
    }
}

proof fn lemma_occurrences_unique(net: Network, id: usize, p0: int, p: int)
    requires
        node_ids_unique(net),
        0 <= p0 < node_count(net),
        node_id_at(net, p0) == id,
        0 <= p <= node_count(net),
    ensures
        occurrences(net, id, p) == if p0 < p {
            1int
        } else {
            0int
        },
    decreases p,
{
    if p > 0 {
        lemma_occurrences_unique(net, id, p0, p - 1);
        if p - 1 != p0 && node_id_at(net, p - 1) == id {
            if p0 < p - 1 {
                assert(node_id_at(net, p0) != node_id_at(net, p - 1));
            } else {
                assert(node_id_at(net, p - 1) != node_id_at(net, p0));
            }
        }
    }
}

proof fn lemma_col_sum_as_occurrences(net: Network, j: int, p: int)
    requires
        0 <= j < link_count(net),
        link_start(net, j) != link_end(net, j),
        0 <= p <= node_count(net),
    ensures
        col_sign_sum(net, j, p) == occurrences(net, link_end(net, j), p) - occurrences(
            net,
            link_start(net, j),
            p,
        ),
    decreases p,
{
    if p > 0 {
        lemma_col_sum_as_occurrences(net, j, p - 1);
    }
}

/// Incidence column sum: in a network with unique node ids whose links
/// join two distinct existing nodes, every column of the stacked
/// incidence matrix `[A21 ; A10]` sums to zero — each link contributes
/// exactly one -1 (at its start node) and one +1 (at its end node).
pub proof fn lemma_incidence_column_sum(net: Network, j: int)
    requires
        node_ids_unique(net),
        link_endpoints_ok(net),
        0 <= j < link_count(net),
    ensures
        col_sign_sum(net, j, node_count(net)) == 0,
{
    let start = link_start(net, j);
    let end = link_end(net, j);
    let ps: int = choose|p: int| 0 <= p < node_count(net) && node_id_at(net, p) == start;
    let pe: int = choose|p: int| 0 <= p < node_count(net) && node_id_at(net, p) == end;
    lemma_occurrences_unique(net, start, ps, node_count(net));
    lemma_occurrences_unique(net, end, pe, node_count(net));
    lemma_col_sum_as_occurrences(net, j, node_count(net));
}

/// Sign symmetry: swapping one link's start and end nodes negates that
/// link's column of `A21` and row of `A10`, entry by entry (at the sign
/// level: -1, +1 and 0 swap roles of the endpoints), and leaves every
/// other entry of both matrices unchanged.
pub proof fn lemma_incidence_sign_symmetry(net: Network, net2: Network, j0: int)
    requires
        junctions_of(net2) == junctions_of(net),
        tanks_of(net2) == tanks_of(net),
        reservoirs_of(net2) == reservoirs_of(net),
        link_count(net2) == link_count(net),
        0 <= j0 < link_count(net),
        link_start(net2, j0) == link_end(net, j0),
        link_end(net2, j0) == link_start(net, j0),
        link_start(net, j0) != link_end(net, j0),
        forall|j: int|
            0 <= j < link_count(net) && j != j0 ==> #[trigger] link_start(net2, j) == link_start(
                net,
                j,
            ),
        forall|j: int|
            0 <= j < link_count(net) && j != j0 ==> #[trigger] link_end(net2, j) == link_end(
                net,
                j,
            ),
    ensures
        forall|i: int|
            0 <= i < junctions_of(net).len() ==> #[trigger] a21_spec(net2)[i][j0] == sign_to_bits(
                -incidence_sign(
                    link_start(net, j0),
                    link_end(net, j0),
                    junctions_of(net)[i].id,
                ),
            ),
        forall|k: int|
            0 <= k < fixed_count(net) ==> #[trigger] a10_spec(net2)[j0][k] == sign_to_bits(
                -incidence_sign(link_start(net, j0), link_end(net, j0), fixed_node_id(net, k)),
            ),
        forall|i: int, j: int|
            0 <= i < junctions_of(net).len() && 0 <= j < link_count(net) && j != j0
                ==> #[trigger] a21_spec(net2)[i][j] == a21_spec(net)[i][j],
        forall|j: int, k: int|
            0 <= j < link_count(net) && 0 <= k < fixed_count(net) && j != j0
                ==> #[trigger] a10_spec(net2)[j][k] == a10_spec(net)[j][k],
{
    assert(fixed_count(net2) == fixed_count(net));
    assert forall|i: int| 0 <= i < junctions_of(net).len() implies #[trigger] a21_spec(
        net2,
    )[i][j0] == sign_to_bits(
        -incidence_sign(link_start(net, j0), link_end(net, j0), junctions_of(net)[i].id),
    ) by {
        let id = junctions_of(net)[i].id;
        assert(a21_spec(net2)[i][j0] == sign_to_bits(
            incidence_sign(link_start(net2, j0), link_end(net2, j0), id),
        ));
    }
    assert forall|k: int| 0 <= k < fixed_count(net) implies #[trigger] a10_spec(
        net2,
    )[j0][k] == sign_to_bits(
        -incidence_sign(link_start(net, j0), link_end(net, j0), fixed_node_id(net, k)),
    ) by {
        assert(fixed_node_id(net2, k) == fixed_node_id(net, k));
        assert(a10_spec(net2)[j0][k] == sign_to_bits(
            incidence_sign(link_start(net2, j0), link_end(net2, j0), fixed_node_id(net2, k)),
        ));
    }
    assert forall|i: int, j: int|
        0 <= i < junctions_of(net).len() && 0 <= j < link_count(net) && j != j0 implies #[trigger] a21_spec(
        net2,
    )[i][j] == a21_spec(net)[i][j] by {
        assert(link_start(net2, j) == link_start(net, j));
        assert(link_end(net2, j) == link_end(net, j));
    }
    assert forall|j: int, k: int|
        0 <= j < link_count(net) && 0 <= k < fixed_count(net) && j != j0 implies #[trigger] a10_spec(
        net2,
    )[j][k] == a10_spec(net)[j][k] by {
        assert(link_start(net2, j) == link_start(net, j));
        assert(link_end(net2, j) == link_end(net, j));
        assert(fixed_node_id(net2, k) == fixed_node_id(net, k));
    }
}

} // verus!
