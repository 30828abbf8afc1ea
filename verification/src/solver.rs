//! The multilinear hydraulic solver: an iterative linearization of the
//! nonlinear head-loss/flow system. Each iteration rewrites the diagonal
//! resistance matrix `A` and intercept vector `B` from the current flow
//! estimate, solves the linear system for heads and flows, and tests
//! convergence; on exit the results are written back onto the network.
//!
//! Every step is pinned exactly: the spec functions below mirror the
//! computation as compositions of the IEEE-754 operations of
//! [`crate::fp`], and `compute` ensures that the heads, flows, iteration
//! count and reported errors equal that mirror's values.

use vstd::prelude::*;
use crate::fp::{
    add_bits, sub_bits, mul_bits, div_bits, abs_bits, signum_bits, trunc_bits, max_bits, le_bits,
    of_u64_bits, ratio_bits, fp_add, fp_sub, fp_mul, fp_div, fp_abs, fp_signum, fp_trunc, fp_max,
    fp_le, fp_from_u64, fp_ratio, FP_ZERO, FP_ONE, FP_NEG_ONE, FP_MAX,
};
use crate::pow::{powi_bits, pow_bits, fp_powi, fp_powf};
use crate::link::{Pipe, Pump, Valve, pipe_resistance_bits, pipe_r_of_q_bits, valve_rq_bits};
use crate::node::Junction;
use crate::network::{Network, junctions_of, tanks_of, reservoirs_of, pipes_of, pumps_of, valves_of};
use crate::options::{unit_factor_bits, unit_factor};
use crate::incidence::{
    link_count, fixed_count, link_start, link_end, fixed_node_id, incidence_sign, sign_to_bits, a21_spec,
    a10_spec, h0_spec, q_spec,
};
use crate::matrix::{
    mview, rectangular, mat_mul_spec, mat_vec_spec, transpose_spec, diag_inverse_spec,
    zero_vec_spec, gj_augment, gj_pivots_ok, gj_inverse_spec, zero_vector, transpose, product,
    product2, invers_diagonal, inverse_matrix_jordan, LinAlgError,
};

verus! {

/// Why an analysis was abandoned.
#[derive(Debug, Clone, Copy, PartialEq, Eq, Structural)]
pub enum SolveError {
    /// fewer than two demand nodes
    TooFewJunctions,
    /// no links at all
    NoLinks,
    /// Gauss-Jordan met a zero pivot while solving for heads
    SingularSystem,
}

/// The machine limits an analysis needs: index arithmetic over the link
/// and node counts must fit a `usize`.
pub open spec fn network_sizes_ok(net: Network) -> bool {
    &&& pipes_of(net).len() + pumps_of(net).len() + valves_of(net).len() <= usize::MAX
    &&& junctions_of(net).len() <= usize::MAX / 2
    &&& tanks_of(net).len() + reservoirs_of(net).len() <= usize::MAX
}

/// The SI conversion multiplier the solver fixes at construction: 1.0 for
/// a network without junctions, else the flow unit's factor.
pub open spec fn conversion_multiplier(net: Network) -> u64 {
    if net.junctions is None {
        FP_ONE
    } else {
        unit_factor_bits(net.options.flow_unit)
    }
}

/// A solver bound to a network it owns for the duration of the analysis.
pub struct Solver {
    pub network: Network,
    pub junction_count: usize,
    pub tank_count: usize,
    pub reservoir_count: usize,
    pub pipe_count: usize,
    pub pump_count: usize,
    pub valve_count: usize,
    pub flow_unit_multiplier: u64,
    /// flow discretization parameter (default 100.0)
    pub m: u64,
    /// head-loss exponent (1.852 for Hazen-Williams)
    pub n: u64,
    pub iterations: Option<usize>,
    pub final_error: Option<(u64, u64)>,
    /// wall-clock milliseconds of the last analysis
    pub time_analysis: Option<u64>,
    pub objective_error: u64,
}

/// The cached counts agree with the network and index arithmetic fits.
pub open spec fn solver_wf(s: Solver) -> bool {
    &&& s.junction_count == junctions_of(s.network).len()
    &&& s.tank_count == tanks_of(s.network).len()
    &&& s.reservoir_count == reservoirs_of(s.network).len()
    &&& s.pipe_count == pipes_of(s.network).len()
    &&& s.pump_count == pumps_of(s.network).len()
    &&& s.valve_count == valves_of(s.network).len()
    &&& network_sizes_ok(s.network)
}

impl Solver {
    /// Binds a solver to a network. The stopping criterion defaults to
    /// 1e-3 when none is given; the discretization parameter starts at
    /// 100 and the head-loss exponent at 1.852.
    pub fn new(wdn: Network, objective_error: Option<u64>) -> (r: Solver)
        requires
            network_sizes_ok(wdn),
        ensures
            solver_wf(r),
            r.network == wdn,
            r.m == of_u64_bits(100),
            r.n == ratio_bits(1852, 1000),
            r.flow_unit_multiplier == conversion_multiplier(wdn),
            r.objective_error == match objective_error {
                None => ratio_bits(1, 1000),
                Some(e) => e,
            },
            r.iterations is None,
            r.final_error is None,
            r.time_analysis is None,
    {
        let njunction: usize = match &wdn.junctions {
            None => 0,
            Some(items) => items.len(),
        };
        let ntank: usize = match &wdn.tanks {
            None => 0,
            Some(items) => items.len(),
        };
        let nreservoir: usize = match &wdn.reservoirs {
            None => 0,
            Some(items) => items.len(),
        };
        let npipe: usize = match &wdn.pipes {
            None => 0,
            Some(items) => items.len(),
        };
        let npump: usize = match &wdn.pumps {
            None => 0,
            Some(items) => items.len(),
        };
        let nvalve: usize = match &wdn.valves {
            None => 0,
            Some(items) => items.len(),
        };
        let obj_err: u64 = match objective_error {
            None => fp_ratio(1, 1000),
            Some(objerr) => objerr,
        };
        let flow_unit_multiplier = Solver::unit_conversion_multiplier(&wdn);
        Solver {
            network: wdn,
            junction_count: njunction,
            tank_count: ntank,
            reservoir_count: nreservoir,
            pipe_count: npipe,
            pump_count: npump,
            valve_count: nvalve,
            m: fp_from_u64(100),
            n: fp_ratio(1852, 1000),
            iterations: None,
            final_error: None,
            objective_error: obj_err,
            time_analysis: None,
            flow_unit_multiplier,
        }
    }

    fn unit_conversion_multiplier(wdn: &Network) -> (r: u64)
        ensures
            r == conversion_multiplier(*wdn),
    {
        match &wdn.junctions {
            None => FP_ONE,
            Some(_items) => unit_factor(wdn.options.flow_unit),
        }
    }

    /// Sets the discretization parameter, clamped to at least 1.
    pub fn set_m_parameter(&mut self, m_value: u64)
        ensures
            *final(self) == (Solver { m: max_bits(m_value, FP_ONE), ..*old(self) }),
    {
        self.m = fp_max(m_value, FP_ONE);
    }

    /// Sets the stopping criterion, clamped to at least 1e-13.
    pub fn set_objective_error(&mut self, err_value: u64)
        ensures
            *final(self) == (Solver {
                objective_error: max_bits(err_value, ratio_bits(1, 10000000000000)),
                ..*old(self)
            }),
    {
        self.objective_error = fp_max(err_value, fp_ratio(1, 10000000000000));
    }

    pub fn get_final_iterations(&self) -> (r: Option<usize>)
        ensures
            r == self.iterations,
    {
        self.iterations
    }

    pub fn get_final_errors(&self) -> (r: Option<(u64, u64)>)
        ensures
            r == self.final_error,
    {
        self.final_error
    }

    pub fn get_version(&self) -> (r: &'static str)
        ensures
            r@ == "0.1.2"@,
    {
        let v = "0.1.2";
        proof {
            reveal_strlit("0.1.2");
        }
        v
    }

    pub fn get_time_analysis(&self) -> (r: Option<u64>)
        ensures
            r == self.time_analysis,
    {
        self.time_analysis
    }

    fn link_sizes(&self) -> (r: (usize, usize, usize))
        ensures
            r == (self.pipe_count, self.pump_count, self.valve_count),
    {
        (self.pipe_count, self.pump_count, self.valve_count)
    }
}

/// The sum of the first `k` entries, accumulated from +0.0.
pub open spec fn vec_sum(x: Seq<u64>, k: int) -> u64
    decreases k,
{
    if k <= 0 {
        FP_ZERO
    } else {
        add_bits(vec_sum(x, k - 1), x[k - 1])
    }
}

/// The diagonal entry of the initial resistance matrix: pipe resistance
/// times the SI demand total `Q_max`, a sentinel 1.0 for pumps, and the
/// valve law at `Q_max` for valves.
pub open spec fn init_diag(net: Network, qmax: u64, r: int) -> u64 {
    if r < pipes_of(net).len() {
        mul_bits(pipe_resistance_bits(pipes_of(net)[r]), qmax)
    } else if r < pipes_of(net).len() + pumps_of(net).len() {
        FP_ONE
    } else {
        valve_rq_bits(valves_of(net)[r - pipes_of(net).len() - pumps_of(net).len()], qmax)
    }
}

/// The initial `A`: the diagonal of `init_diag`, +0.0 elsewhere.
pub open spec fn init_a_spec(net: Network, qmax: u64) -> Seq<Seq<u64>> {
    Seq::new(
        link_count(net) as nat,
        |r: int| Seq::new(
            link_count(net) as nat,
            |c: int| if r == c {
                init_diag(net, qmax, r)
            } else {
                FP_ZERO
            },
        ),
    )
}

/// The linearization segment slope `(b^n - a^n)/(b - a)` for a segment
/// `[a, b] = [trunc(|Q|/dq)*dq, a+dq]`.
pub open spec fn seg_slope(ip0: u64, ca: u64, cb: u64, nexp: u64) -> u64 {
    div_bits(sub_bits(pow_bits(cb, nexp), pow_bits(ca, nexp)), sub_bits(cb, ca))
}

/// The updated diagonal entry of `A` for link `r` under the current
/// trial flows: `R*slope` over the segment holding `|Q|` for pipes,
/// `-(alpha*slope + beta)` for pumps, and the same form as pipes with
/// the valve law `R(Q) = k*Q` for valves.
pub open spec fn upd_diag(net: Network, flows: Seq<u64>, deltaq: u64, nexp: u64, r: int) -> u64 {
    if r < pipes_of(net).len() {
        let q = flows[r];
        let ip0 = div_bits(abs_bits(q), deltaq);
        let ca = mul_bits(trunc_bits(ip0), deltaq);
        let cb = add_bits(ca, deltaq);
        mul_bits(pipe_r_of_q_bits(pipes_of(net)[r], q), seg_slope(ip0, ca, cb, nexp))
    } else if r < pipes_of(net).len() + pumps_of(net).len() {
        let pm = pumps_of(net)[r - pipes_of(net).len()];
        let q = flows[r];
        let ip0 = div_bits(abs_bits(q), deltaq);
        let ca = mul_bits(trunc_bits(ip0), deltaq);
        let cb = add_bits(ca, deltaq);
        mul_bits(FP_NEG_ONE, add_bits(mul_bits(pm.alpha, seg_slope(ip0, ca, cb, nexp)), pm.beta))
    } else {
        let v = valves_of(net)[r - pipes_of(net).len() - pumps_of(net).len()];
        let q = flows[r];
        let ip0 = div_bits(abs_bits(q), deltaq);
        let ca = mul_bits(trunc_bits(ip0), deltaq);
        let cb = add_bits(ca, deltaq);
        mul_bits(valve_rq_bits(v, q), seg_slope(ip0, ca, cb, nexp))
    }
}

/// The updated intercept `B[r]` for link `r` under the current trial
/// flows: `-sign(Q)*R*(slope*a - a^n)` for pipes and (with the `k*Q`
/// law) for valves, and `alpha*(slope*a - a^2) - gamma` for pumps.
pub open spec fn upd_b(net: Network, flows: Seq<u64>, deltaq: u64, nexp: u64, r: int) -> u64 {
    if r < pipes_of(net).len() {
        let q = flows[r];
        let ip0 = div_bits(abs_bits(q), deltaq);
        let ca = mul_bits(trunc_bits(ip0), deltaq);
        let cb = add_bits(ca, deltaq);
        let slope = seg_slope(ip0, ca, cb, nexp);
        mul_bits(
            mul_bits(mul_bits(FP_NEG_ONE, signum_bits(q)), pipe_r_of_q_bits(pipes_of(net)[r], q)),
            sub_bits(mul_bits(slope, ca), pow_bits(ca, nexp)),
        )
    } else if r < pipes_of(net).len() + pumps_of(net).len() {
        let pm = pumps_of(net)[r - pipes_of(net).len()];
        let q = flows[r];
        let ip0 = div_bits(abs_bits(q), deltaq);
        let ca = mul_bits(trunc_bits(ip0), deltaq);
        let cb = add_bits(ca, deltaq);
        let slope = seg_slope(ip0, ca, cb, nexp);
        sub_bits(mul_bits(pm.alpha, sub_bits(mul_bits(slope, ca), powi_bits(ca, 2))), pm.gamma)
    } else {
        let v = valves_of(net)[r - pipes_of(net).len() - pumps_of(net).len()];
        let q = flows[r];
        let ip0 = div_bits(abs_bits(q), deltaq);
        let ca = mul_bits(trunc_bits(ip0), deltaq);
        let cb = add_bits(ca, deltaq);
        let slope = seg_slope(ip0, ca, cb, nexp);
        mul_bits(
            mul_bits(mul_bits(FP_NEG_ONE, signum_bits(q)), valve_rq_bits(v, q)),
            sub_bits(mul_bits(slope, ca), pow_bits(ca, nexp)),
        )
    }
}

/// `A` after an update: the diagonal rewritten by `upd_diag`, everything
/// else kept.
pub open spec fn updated_a(
    net: Network,
    a: Seq<Seq<u64>>,
    flows: Seq<u64>,
    deltaq: u64,
    nexp: u64,
) -> Seq<Seq<u64>> {
    Seq::new(
        a.len(),
        |rr: int| Seq::new(
            a[rr].len(),
            |cc: int| if rr == cc {
                upd_diag(net, flows, deltaq, nexp, rr)
            } else {
                a[rr][cc]
            },
        ),
    )
}

/// `B` after an update: every entry rewritten by `upd_b`.
pub open spec fn updated_b(
    net: Network,
    len: int,
    flows: Seq<u64>,
    deltaq: u64,
    nexp: u64,
) -> Seq<u64> {
    Seq::new(len as nat, |i: int| upd_b(net, flows, deltaq, nexp, i))
}

impl Solver {
    fn junction_id_at(&self, i: usize) -> (r: usize)
        requires
            solver_wf(*self),
            i < self.junction_count,
        ensures
            r == junctions_of(self.network)[i as int].id,
    {
        match &self.network.junctions {
            Some(v) => v[i].id,
            None => {
                proof {
                    assert(false);
                }
                0
            },
        }
    }

    fn link_start_at(&self, j: usize) -> (r: usize)
        requires
            solver_wf(*self),
            j < self.pipe_count + self.pump_count + self.valve_count,
        ensures
            r == link_start(self.network, j as int),
    {
        if j < self.pipe_count {
            match &self.network.pipes {
                Some(v) => v[j].start,
                None => {
                    proof {
                        assert(false);
                    }
                    0
                },
            }
        } else if j < self.pipe_count + self.pump_count {
            match &self.network.pumps {
                Some(v) => v[j - self.pipe_count].start,
                None => {
                    proof {
                        assert(false);
                    }
                    0
                },
            }
        } else {
            match &self.network.valves {
                Some(v) => v[j - self.pipe_count - self.pump_count].start,
                None => {
                    proof {
                        assert(false);
                    }
                    0
                },
            }
        }
    }

    fn link_end_at(&self, j: usize) -> (r: usize)
        requires
            solver_wf(*self),
            j < self.pipe_count + self.pump_count + self.valve_count,
        ensures
            r == link_end(self.network, j as int),
    {
        if j < self.pipe_count {
            match &self.network.pipes {
                Some(v) => v[j].end,
                None => {
                    proof {
                        assert(false);
                    }
                    0
                },
            }
        } else if j < self.pipe_count + self.pump_count {
            match &self.network.pumps {
                Some(v) => v[j - self.pipe_count].end,
                None => {
                    proof {
                        assert(false);
                    }
                    0
                },
            }
        } else {
            match &self.network.valves {
                Some(v) => v[j - self.pipe_count - self.pump_count].end,
                None => {
                    proof {
                        assert(false);
                    }
                    0
                },
            }
        }
    }

    fn fixed_id_at(&self, k: usize) -> (r: usize)
        requires
            solver_wf(*self),
            k < self.tank_count + self.reservoir_count,
        ensures
            r == fixed_node_id(self.network, k as int),
    {
        if k < self.tank_count {
            match &self.network.tanks {
                Some(v) => v[k].id,
                None => {
                    proof {
                        assert(false);
                    }
                    0
                },
            }
        } else {
            match &self.network.reservoirs {
                Some(v) => v[k - self.tank_count].id,
                None => {
                    proof {
                        assert(false);
                    }
                    0
                },
            }
        }
    }

    /// Assembles the incidence matrices `A21` and `A10`, the fixed-head
    /// vector `h0` (tank heads then reservoir heads) and the SI demand
    /// vector `q`. The incidence laws of [`crate::incidence`] apply to
    /// the returned matrices through these ensures.
    pub fn get_network(&self) -> (r: (Vec<Vec<u64>>, Vec<Vec<u64>>, Vec<u64>, Vec<u64>))
        requires
            solver_wf(*self),
        ensures
            mview(r.0) == a21_spec(self.network),
            mview(r.1) == a10_spec(self.network),
            r.2@ == h0_spec(self.network),
            r.3@ == q_spec(self.network, self.flow_unit_multiplier),
            r.0@.len() == self.junction_count,
            r.1@.len() == self.pipe_count + self.pump_count + self.valve_count,
    {
        let nj = self.junction_count;
        let np = self.pipe_count + self.pump_count + self.valve_count;
        let no = self.tank_count + self.reservoir_count;

        let mut a21: Vec<Vec<u64>> = Vec::new();
        let mut i: usize = 0;
        while i < nj
            invariant
                i <= nj,
                solver_wf(*self),
                nj == self.junction_count,
                np == self.pipe_count + self.pump_count + self.valve_count,
                a21@.len() == i,
                forall|ii: int| 0 <= ii < i ==> (#[trigger] a21@[ii]@) == a21_spec(self.network)[ii],
            decreases nj - i,
        {
            let jid = self.junction_id_at(i);
            let mut row: Vec<u64> = Vec::new();
            let mut j: usize = 0;
            while j < np
                invariant
                    j <= np,
                    i < nj,
                    solver_wf(*self),
                    nj == self.junction_count,
                    np == self.pipe_count + self.pump_count + self.valve_count,
                    jid == junctions_of(self.network)[i as int].id,
                    row@.len() == j,
                    forall|jj: int|
                        0 <= jj < j ==> row@[jj] == sign_to_bits(
                            incidence_sign(
                                link_start(self.network, jj),
                                link_end(self.network, jj),
                                jid,
                            ),
                        ),
                decreases np - j,
            {
                let s = self.link_start_at(j);
                let e = self.link_end_at(j);
                if s == jid {
                    row.push(FP_NEG_ONE);
                } else if e == jid {
                    row.push(FP_ONE);
                } else {
                    row.push(FP_ZERO);
                }
                j = j + 1;
            }
            proof {
                assert(row@ =~= a21_spec(self.network)[i as int]);
            }
            a21.push(row);
            i = i + 1;
        }

        let mut a10: Vec<Vec<u64>> = Vec::new();
        let mut j: usize = 0;
        while j < np
            invariant
                j <= np,
                solver_wf(*self),
                np == self.pipe_count + self.pump_count + self.valve_count,
                no == self.tank_count + self.reservoir_count,
                a10@.len() == j,
                forall|jj: int| 0 <= jj < j ==> (#[trigger] a10@[jj]@) == a10_spec(self.network)[jj],
            decreases np - j,
        {
            let s = self.link_start_at(j);
            let e = self.link_end_at(j);
            let mut row: Vec<u64> = Vec::new();
            let mut k: usize = 0;
            while k < no
                invariant
                    k <= no,
                    j < np,
                    solver_wf(*self),
                    np == self.pipe_count + self.pump_count + self.valve_count,
                    no == self.tank_count + self.reservoir_count,
                    s == link_start(self.network, j as int),
                    e == link_end(self.network, j as int),
                    row@.len() == k,
                    forall|kk: int|
                        0 <= kk < k ==> row@[kk] == sign_to_bits(
                            incidence_sign(s, e, fixed_node_id(self.network, kk)),
                        ),
                decreases no - k,
            {
                let fid = self.fixed_id_at(k);
                if s == fid {
                    row.push(FP_NEG_ONE);
                } else if e == fid {
                    row.push(FP_ONE);
                } else {
                    row.push(FP_ZERO);
                }
                k = k + 1;
            }
            proof {
                assert(row@ =~= a10_spec(self.network)[j as int]);
            }
            a10.push(row);
            j = j + 1;
        }

        let mut h0: Vec<u64> = Vec::new();
        let mut k: usize = 0;
        while k < no
            invariant
                k <= no,
                solver_wf(*self),
                no == self.tank_count + self.reservoir_count,
                h0@.len() == k,
                forall|kk: int| 0 <= kk < k ==> h0@[kk] == h0_spec(self.network)[kk],
            decreases no - k,
        {
            if k < self.tank_count {
                let v = match &self.network.tanks {
                    Some(v) => fp_add(v[k].elevation, v[k].initial_level),
                    None => {
                        proof {
                            assert(false);
                        }
                        0
                    },
                };
                h0.push(v);
            } else {
                let v = match &self.network.reservoirs {
                    Some(v) => v[k - self.tank_count].head,
                    None => {
                        proof {
                            assert(false);
                        }
                        0
                    },
                };
                h0.push(v);
            }
            k = k + 1;
        }
        proof {
            assert(h0@ =~= h0_spec(self.network));
        }

        let mut q: Vec<u64> = Vec::new();
        let mut i: usize = 0;
        while i < nj
            invariant
                i <= nj,
                solver_wf(*self),
                nj == self.junction_count,
                q@.len() == i,
                forall|ii: int|
                    0 <= ii < i ==> q@[ii] == q_spec(
                        self.network,
                        self.flow_unit_multiplier,
                    )[ii],
            decreases nj - i,
        {
            let d = match &self.network.junctions {
                Some(v) => v[i].demand,
                None => {
                    proof {
                        assert(false);
                    }
                    0
                },
            };
            q.push(fp_mul(d, self.flow_unit_multiplier));
            i = i + 1;
        }
        proof {
            assert(q@ =~= q_spec(self.network, self.flow_unit_multiplier));
            assert(mview(a21) =~~= a21_spec(self.network));
            assert(mview(a10) =~~= a10_spec(self.network));
        }
        (a21, a10, h0, q)
    }

    /// The initial resistance matrix, from the SI demand total `Q_max`.
    fn initilize_a_matrix(&self) -> (r: Vec<Vec<u64>>)
        requires
            solver_wf(*self),
        ensures
            mview(r) == init_a_spec(
                self.network,
                si_demand_total(self.network, self.flow_unit_multiplier),
            ),
            r@.len() == self.pipe_count + self.pump_count + self.valve_count,
    {
        let np = self.pipe_count + self.pump_count + self.valve_count;
        let qmax = self.demand_total();
        let ghost qm = si_demand_total(self.network, self.flow_unit_multiplier);
        let mut out: Vec<Vec<u64>> = Vec::new();
        let mut r: usize = 0;
        while r < np
            invariant
                r <= np,
                solver_wf(*self),
                np == self.pipe_count + self.pump_count + self.valve_count,
                qmax == qm,
                out@.len() == r,
                forall|rr: int|
                    0 <= rr < r ==> (#[trigger] out@[rr]@) == init_a_spec(self.network, qm)[rr],
            decreases np - r,
        {
            let diag = self.init_diag_at(qmax, r);
            let mut row: Vec<u64> = Vec::new();
            let mut c: usize = 0;
            while c < np
                invariant
                    c <= np,
                    r < np,
                    solver_wf(*self),
                    np == self.pipe_count + self.pump_count + self.valve_count,
                    diag == init_diag(self.network, qm, r as int),
                    row@.len() == c,
                    forall|cc: int|
                        0 <= cc < c ==> row@[cc] == (if r == cc {
                            init_diag(self.network, qm, r as int)
                        } else {
                            FP_ZERO
                        }),
                decreases np - c,
            {
                if r == c {
                    row.push(diag);
                } else {
                    row.push(FP_ZERO);
                }
                c = c + 1;
            }
            proof {
                assert(row@ =~= init_a_spec(self.network, qm)[r as int]);
            }
            out.push(row);
            r = r + 1;
        }
        proof {
            assert(mview(out) =~~= init_a_spec(self.network, qm));
        }
        out
    }

    /// The total demand in SI m³/s: the sum of the converted demand
    /// vector.
    fn demand_total(&self) -> (r: u64)
        requires
            solver_wf(*self),
        ensures
            r == si_demand_total(self.network, self.flow_unit_multiplier),
    {
        match &self.network.junctions {
            None => FP_ZERO,
            Some(junctions) => {
                let mut acc: u64 = FP_ZERO;
                let mut i: usize = 0;
                while i < junctions.len()
                    invariant
                        i <= junctions@.len(),
                        junctions_of(self.network) == junctions@,
                        acc == vec_sum(
                            q_spec(self.network, self.flow_unit_multiplier),
                            i as int,
                        ),
                    decreases junctions@.len() - i,
                {
                    proof {
                        assert(q_spec(self.network, self.flow_unit_multiplier)[i as int]
                            == mul_bits(junctions@[i as int].demand, self.flow_unit_multiplier));
                    }
                    acc = fp_add(acc, fp_mul(junctions[i].demand, self.flow_unit_multiplier));
                    i = i + 1;
                }
                acc
            },
        }
    }

    fn init_diag_at(&self, qmax: u64, r: usize) -> (v: u64)
        requires
            solver_wf(*self),
            r < self.pipe_count + self.pump_count + self.valve_count,
        ensures
            v == init_diag(self.network, qmax, r as int),
    {
        if r < self.pipe_count {
            match &self.network.pipes {
                Some(v) => fp_mul(v[r].resistance(), qmax),
                None => {
                    proof {
                        assert(false);
                    }
                    0
                },
            }
        } else if r < self.pipe_count + self.pump_count {
            FP_ONE
        } else {
            match &self.network.valves {
                Some(v) => v[r - self.pipe_count - self.pump_count].get_rq(qmax),
                None => {
                    proof {
                        assert(false);
                    }
                    0
                },
            }
        }
    }

    /// The updated diagonal entry and intercept for link `r`, from the
    /// current trial flow.
    fn upd_coeffs(&self, flowsq: &Vec<u64>, deltaq: u64, nexp: u64, r: usize) -> (v: (u64, u64))
        requires
            solver_wf(*self),
            r < self.pipe_count + self.pump_count + self.valve_count,
            flowsq@.len() == self.pipe_count + self.pump_count + self.valve_count,
        ensures
            v.0 == upd_diag(self.network, flowsq@, deltaq, nexp, r as int),
            v.1 == upd_b(self.network, flowsq@, deltaq, nexp, r as int),
    {
        let q = flowsq[r];
        if r < self.pipe_count {
            let ip0 = fp_div(fp_abs(q), deltaq);
            let ca = fp_mul(fp_trunc(ip0), deltaq);
            let cb = fp_add(ca, deltaq);
            let slope = fp_div(fp_sub(fp_powf(cb, nexp), fp_powf(ca, nexp)), fp_sub(cb, ca));
            let rq = match &self.network.pipes {
                Some(v) => v[r].get_r_of_q(q),
                None => {
                    proof {
                        assert(false);
                    }
                    0
                },
            };
            let aa = fp_mul(rq, slope);
            let bb = fp_mul(
                fp_mul(fp_mul(FP_NEG_ONE, fp_signum(q)), rq),
                fp_sub(fp_mul(slope, ca), fp_powf(ca, nexp)),
            );
            (aa, bb)
        } else if r < self.pipe_count + self.pump_count {
            let (alpha, beta, gamma) = match &self.network.pumps {
                Some(v) => {
                    let p = &v[r - self.pipe_count];
                    (p.alpha, p.beta, p.gamma)
                },
                None => {
                    proof {
                        assert(false);
                    }
                    (0, 0, 0)
                },
            };
            let ip0 = fp_div(fp_abs(q), deltaq);
            let ca = fp_mul(fp_trunc(ip0), deltaq);
            let cb = fp_add(ca, deltaq);
            let slope = fp_div(fp_sub(fp_powf(cb, nexp), fp_powf(ca, nexp)), fp_sub(cb, ca));
            let aa = fp_mul(FP_NEG_ONE, fp_add(fp_mul(alpha, slope), beta));
            let bb = fp_sub(
                fp_mul(alpha, fp_sub(fp_mul(slope, ca), fp_powi(ca, 2))),
                gamma,
            );
            (aa, bb)
        } else {
            let ip0 = fp_div(fp_abs(q), deltaq);
            let ca = fp_mul(fp_trunc(ip0), deltaq);
            let cb = fp_add(ca, deltaq);
            let slope = fp_div(fp_sub(fp_powf(cb, nexp), fp_powf(ca, nexp)), fp_sub(cb, ca));
            let rq = match &self.network.valves {
                Some(v) => v[r - self.pipe_count - self.pump_count].get_rq(q),
                None => {
                    proof {
                        assert(false);
                    }
                    0
                },
            };
            let aa = fp_mul(rq, slope);
            let bb = fp_mul(
                fp_mul(fp_mul(FP_NEG_ONE, fp_signum(q)), rq),
                fp_sub(fp_mul(slope, ca), fp_powf(ca, nexp)),
            );
            (aa, bb)
        }
    }

    /// Rewrites the diagonal of `A` and all of `B` from the current trial
    /// flows, as the piecewise-linear coefficient update prescribes.
    fn update_matrices_a_b(
        &self,
        a: &mut Vec<Vec<u64>>,
        b: &mut Vec<u64>,
        flowsq: &Vec<u64>,
        deltaq: u64,
        nexp: u64,
    )
        requires
            solver_wf(*self),
            old(a)@.len() == self.pipe_count + self.pump_count + self.valve_count,
            forall|rr: int|
                0 <= rr < old(a)@.len() ==> (#[trigger] old(a)@[rr]@).len() == old(a)@.len(),
            old(b)@.len() == old(a)@.len(),
            flowsq@.len() == old(a)@.len(),
        ensures
            mview(*final(a)) == updated_a(self.network, mview(*old(a)), flowsq@, deltaq, nexp),
            final(b)@ == updated_b(self.network, old(b)@.len() as int, flowsq@, deltaq, nexp),
            final(a)@.len() == old(a)@.len(),
            forall|rr: int|
                0 <= rr < final(a)@.len() ==> (#[trigger] final(a)@[rr]@).len() == final(a)@.len(),
    {
        let np = a.len();
        let mut newa: Vec<Vec<u64>> = Vec::new();
        let mut newb: Vec<u64> = Vec::new();
        let mut r: usize = 0;
        while r < np
            invariant
                r <= np,
                solver_wf(*self),
                np == self.pipe_count + self.pump_count + self.valve_count,
                a@.len() == np,
                forall|rr: int| 0 <= rr < np ==> (#[trigger] a@[rr]@).len() == np,
                flowsq@.len() == np,
                newa@.len() == r,
                newb@.len() == r,
                forall|rr: int|
                    0 <= rr < r ==> (#[trigger] newa@[rr]@) == updated_a(
                        self.network,
                        mview(*a),
                        flowsq@,
                        deltaq,
                        nexp,
                    )[rr],
                forall|rr: int|
                    0 <= rr < r ==> (#[trigger] newb@[rr]) == upd_b(
                        self.network,
                        flowsq@,
                        deltaq,
                        nexp,
                        rr,
                    ),
            decreases np - r,
        {
            let (aa, bb) = self.upd_coeffs(flowsq, deltaq, nexp, r);
            let mut row: Vec<u64> = Vec::new();
            let mut c: usize = 0;
            while c < np
                invariant
                    c <= np,
                    r < np,
                    a@.len() == np,
                    forall|rr: int| 0 <= rr < np ==> (#[trigger] a@[rr]@).len() == np,
                    aa == upd_diag(self.network, flowsq@, deltaq, nexp, r as int),
                    row@.len() == c,
                    forall|cc: int|
                        0 <= cc < c ==> row@[cc] == (if r == cc {
                            upd_diag(self.network, flowsq@, deltaq, nexp, r as int)
                        } else {
                            a@[r as int]@[cc]
                        }),
                decreases np - c,
            {
                if r == c {
                    row.push(aa);
                } else {
                    let v = a[r][c];
                    row.push(v);
                }
                c = c + 1;
            }
            proof {
                assert(mview(*a)[r as int] == a@[r as int]@);
                assert(row@ =~= updated_a(self.network, mview(*a), flowsq@, deltaq, nexp)[r as int]);
            }
            newa.push(row);
            newb.push(bb);
            r = r + 1;
        }
        proof {
            assert(mview(newa) =~~= updated_a(self.network, mview(*a), flowsq@, deltaq, nexp));
            assert(newb@ =~= updated_b(self.network, np as int, flowsq@, deltaq, nexp));
        }
        *a = newa;
        *b = newb;
    }
}

impl Solver {
    /// Runs the analysis: up to 20 iterations of the multilinear method,
    /// then writes heads and flows back onto the network. The outcome —
    /// heads, flows, iteration count and final errors — equals the value
    /// of the iteration mirror `iter_at` at the halting iteration
    /// `final_iter_spec`; a zero Gauss-Jordan pivot, too few junctions or
    /// a linkless network abandon the analysis with the network
    /// untouched.
    #[verifier::rlimit(100)]
    pub fn compute(&mut self) -> (r: Result<(), SolveError>)
        requires
            solver_wf(*old(self)),
        ensures
            solver_wf(*final(self)),
            junctions_of(old(self).network).len() < 2 ==> r == Err::<(), SolveError>(
                SolveError::TooFewJunctions,
            ) && *final(self) == *old(self),
            junctions_of(old(self).network).len() >= 2 && link_count(old(self).network) < 1 ==> r
                == Err::<(), SolveError>(SolveError::NoLinks) && *final(self) == *old(self),
            junctions_of(old(self).network).len() >= 2 && link_count(old(self).network) >= 1 ==> ({
                let net = old(self).network;
                let mult = old(self).flow_unit_multiplier;
                let ft = final_iter_spec(net, mult, old(self).m, old(self).n, old(self).objective_error);
                match iter_at(net, mult, old(self).m, old(self).n, old(self).objective_error, ft) {
                    None => r == Err::<(), SolveError>(SolveError::SingularSystem) && *final(self)
                        == *old(self),
                    Some(s) => {
                        &&& r == Ok::<(), SolveError>(())
                        &&& 1 <= ft <= 20
                        &&& s.iter == ft
                        &&& final(self).iterations == Some(ft as usize)
                        &&& final(self).final_error == Some((s.err_q, s.err_h))
                        &&& final(self).time_analysis is Some
                        &&& junctions_of(final(self).network) == written_junctions(
                            junctions_of(net),
                            s.heads,
                        )
                        &&& pipes_of(final(self).network) == written_pipes(
                            pipes_of(net),
                            s.flows,
                            mult,
                        )
                        &&& pumps_of(final(self).network) == written_pumps(
                            pumps_of(net),
                            s.flows,
                            mult,
                            pipes_of(net).len() as int,
                        )
                        &&& valves_of(final(self).network) == written_valves(
                            valves_of(net),
                            s.flows,
                            mult,
                            pipes_of(net).len() + pumps_of(net).len() as int,
                        )
                        &&& (final(self).network.junctions is Some <==> net.junctions is Some)
                        &&& (final(self).network.pipes is Some <==> net.pipes is Some)
                        &&& (final(self).network.pumps is Some <==> net.pumps is Some)
                        &&& (final(self).network.valves is Some <==> net.valves is Some)
                        &&& final(self).network.title == net.title
                        &&& final(self).network.tanks == net.tanks
                        &&& final(self).network.reservoirs == net.reservoirs
                        &&& final(self).network.options == net.options
                        &&& final(self).flow_unit_multiplier == mult
                        &&& final(self).m == old(self).m
                        &&& final(self).n == old(self).n
                        &&& final(self).objective_error == old(self).objective_error
                    },
                }
            }),
    {
        let t0 = clock_now();
        let ghost net = self.network;
        let ghost mult_g = self.flow_unit_multiplier;
        let ghost mm = self.m;
        let ghost nexp_g = self.n;
        let ghost obj_g = self.objective_error;

        let (a21, a10, h0, q) = self.get_network();

        let nn = a21.len();
        let np = self.pipe_count + self.pump_count + self.valve_count;

        if nn < 2 {
            return Err(SolveError::TooFewJunctions);
        }
        if np < 1 {
            return Err(SolveError::NoLinks);
        }

        proof {
            assert forall|i: int| 0 <= i < a21_spec(net).len() implies (#[trigger] a21_spec(
                net,
            )[i]).len() == np by {}
            assert(rectangular(a21_spec(net)));
            assert forall|j: int| 0 <= j < a10_spec(net).len() implies (#[trigger] a10_spec(
                net,
            )[j]).len() == self.tank_count + self.reservoir_count by {}
            assert(rectangular(a10_spec(net)));
        }

        let a12 = transpose(&a21);
        proof {
            crate::matrix::lemma_transpose_shape(a21_spec(net));
        }

        let qmax = sum_vec(&q);
        let deltaq = fp_div(qmax, self.m);
        proof {
            assert(deltaq == deltaq_spec(net, mult_g, mm));
        }

        let mut amat = self.initilize_a_matrix();
        let mut bvec = zero_vector(np);
        let mut flowsq: Vec<u64> = Vec::new();
        let mut i: usize = 0;
        while i < np
            invariant
                i <= np,
                qmax == si_demand_total(net, mult_g),
                flowsq@.len() == i,
                forall|k: int| 0 <= k < i ==> flowsq@[k] == si_demand_total(net, mult_g),
            decreases np - i,
        {
            flowsq.push(qmax);
            i = i + 1;
        }
        proof {
            assert(flowsq@ =~= iter_init(net, mult_g).flows);
            assert(mview(amat) == iter_init(net, mult_g).a);
            assert forall|rr: int| 0 <= rr < np implies (#[trigger] amat@[rr]@).len() == np by {
                assert(mview(amat)[rr] == amat@[rr]@);
            }
        }
        let mut prev_q = zero_vector(np);
        let mut headsh = zero_vector(nn);
        let mut prev_h = zero_vector(nn);

        let mut final_err_q: u64 = FP_MAX;
        let mut final_err_h: u64 = FP_MAX;
        let mut iter: usize = 0;
        let mut stoploop: bool = false;

        while !stoploop
            invariant
                solver_wf(*self),
                *self == *old(self),
                net == self.network,
                mult_g == self.flow_unit_multiplier,
                mm == self.m,
                nexp_g == self.n,
                obj_g == self.objective_error,
                nn == junctions_of(net).len(),
                nn >= 2,
                np == link_count(net),
                np >= 1,
                mview(a21) == a21_spec(net),
                a21@.len() == nn,
                mview(a12) == transpose_spec(a21_spec(net)),
                mview(a10) == a10_spec(net),
                a10@.len() == np,
                h0@ == h0_spec(net),
                q@ == q_spec(net, mult_g),
                deltaq == deltaq_spec(net, mult_g, mm),
                amat@.len() == np,
                forall|rr: int| 0 <= rr < np ==> (#[trigger] amat@[rr]@).len() == np,
                bvec@.len() == np,
                flowsq@.len() == np,
                prev_q@.len() == np,
                headsh@.len() == nn,
                prev_h@.len() == nn,
                iter <= 20,
                !stoploop ==> iter < 20,
                stoploop ==> iter >= 1,
                iter_at(net, mult_g, mm, nexp_g, obj_g, iter as int) == Some(
                    (IterState {
                        a: mview(amat),
                        b: bvec@,
                        flows: flowsq@,
                        prev_q: prev_q@,
                        heads: headsh@,
                        prev_h: prev_h@,
                        err_q: final_err_q,
                        err_h: final_err_h,
                        stop: stoploop,
                        iter: iter as int,
                    }),
                ),
                forall|t: int|
                    1 <= t < iter as int ==> running_at(net, mult_g, mm, nexp_g, obj_g, t),
            decreases 20 - iter,
        {
            let ghost st = (IterState {
                a: mview(amat),
                b: bvec@,
                flows: flowsq@,
                prev_q: prev_q@,
                heads: headsh@,
                prev_h: prev_h@,
                err_q: final_err_q,
                err_h: final_err_h,
                stop: stoploop,
                iter: iter as int,
            });

            self.update_matrices_a_b(&mut amat, &mut bvec, &flowsq, deltaq, self.n);
            let ghost a1 = updated_a(net, st.a, st.flows, deltaq_spec(net, mult_g, mm), nexp_g);
            let ghost b1 = updated_b(
                net,
                np as int,
                st.flows,
                deltaq_spec(net, mult_g, mm),
                nexp_g,
            );
            proof {
                assert(mview(amat) == a1);
                assert(bvec@ == b1);
                assert(rectangular(mview(amat)));
            }

            let inva = match invers_diagonal(&amat) {
                Ok(x) => x,
                Err(_) => {
                    proof {
                        assert(false);
                    }
                    return Err(SolveError::SingularSystem);
                },
            };
            proof {
                crate::matrix::lemma_diag_inverse_shape(a1);
            }

            let v1 = match product(&a21, &inva) {
                Ok(x) => x,
                Err(_) => {
                    proof {
                        assert(false);
                    }
                    return Err(SolveError::SingularSystem);
                },
            };
            proof {
                crate::matrix::lemma_mat_mul_shape(a21_spec(net), diag_inverse_spec(a1));
            }

            let v = match product(&v1, &a12) {
                Ok(x) => x,
                Err(_) => {
                    proof {
                        assert(false);
                    }
                    return Err(SolveError::SingularSystem);
                },
            };
            proof {
                crate::matrix::lemma_mat_mul_shape(
                    mat_mul_spec(a21_spec(net), diag_inverse_spec(a1)),
                    transpose_spec(a21_spec(net)),
                );
                crate::matrix::lemma_transpose_shape(a21_spec(net));
            }

            let tmpc = match product2(&a10, &h0) {
                Ok(x) => x,
                Err(_) => {
                    proof {
                        assert(false);
                    }
                    return Err(SolveError::SingularSystem);
                },
            };

            let mut c: Vec<u64> = Vec::new();
            let mut ci: usize = 0;
            while ci < np
                invariant
                    ci <= np,
                    np == bvec@.len(),
                    np <= tmpc@.len(),
                    c@.len() == ci,
                    forall|k: int|
                        0 <= k < ci ==> c@[k] == sub_bits(
                            mul_bits(FP_NEG_ONE, bvec@[k]),
                            tmpc@[k],
                        ),
                decreases np - ci,
            {
                let x = fp_sub(fp_mul(FP_NEG_ONE, bvec[ci]), tmpc[ci]);
                c.push(x);
                ci = ci + 1;
            }
            let ghost c_spec = cvec_spec(b1, mat_vec_spec(a10_spec(net), h0_spec(net)), np as int);
            proof {
                assert(c@ =~= c_spec);
            }

            let ghost v_spec = mat_mul_spec(
                mat_mul_spec(a21_spec(net), diag_inverse_spec(a1)),
                transpose_spec(a21_spec(net)),
            );
            let invv = match inverse_matrix_jordan(&v) {
                Ok(x) => x,
                Err(e) => {
                    proof {
                        assert(mview(v) == v_spec);
                        assert(e == LinAlgError::SingularPivot);
                        assert(!gj_pivots_ok(gj_augment(v_spec, nn as int), nn as int));
                        assert(iter_next(net, mult_g, mm, nexp_g, obj_g, st) is None);
                        assert(iter_at(net, mult_g, mm, nexp_g, obj_g, iter as int + 1)
                            is None);
                        assert(!running_at(net, mult_g, mm, nexp_g, obj_g, iter as int + 1));
                        lemma_halt_value(net, mult_g, mm, nexp_g, obj_g, 1, iter as int + 1);
                        assert(final_iter_spec(net, mult_g, mm, nexp_g, obj_g) == iter as int
                            + 1);
                    }
                    return Err(SolveError::SingularSystem);
                },
            };
            proof {
                crate::matrix::lemma_gj_inverse_shape(v_spec, nn as int);
            }

            let tmp = match product2(&v1, &c) {
                Ok(x) => x,
                Err(_) => {
                    proof {
                        assert(false);
                    }
                    return Err(SolveError::SingularSystem);
                },
            };

            let mut tmp2: Vec<u64> = Vec::new();
            let mut ti: usize = 0;
            while ti < nn
                invariant
                    ti <= nn,
                    nn <= tmp@.len(),
                    nn == q@.len(),
                    tmp2@.len() == ti,
                    forall|k: int| 0 <= k < ti ==> tmp2@[k] == sub_bits(tmp@[k], q@[k]),
                decreases nn - ti,
            {
                let x = fp_sub(tmp[ti], q[ti]);
                tmp2.push(x);
                ti = ti + 1;
            }
            let ghost tmp2_spec = vdiff_spec(
                mat_vec_spec(mat_mul_spec(a21_spec(net), diag_inverse_spec(a1)), c_spec),
                q_spec(net, mult_g),
                nn as int,
            );
            proof {
                assert(tmp2@ =~= tmp2_spec);
            }

            headsh = match product2(&invv, &tmp2) {
                Ok(x) => x,
                Err(_) => {
                    proof {
                        assert(false);
                    }
                    return Err(SolveError::SingularSystem);
                },
            };

            let tmpql = match product2(&inva, &c) {
                Ok(x) => x,
                Err(_) => {
                    proof {
                        assert(false);
                    }
                    return Err(SolveError::SingularSystem);
                },
            };

            let tmpqm = match product(&inva, &a12) {
                Ok(x) => x,
                Err(_) => {
                    proof {
                        assert(false);
                    }
                    return Err(SolveError::SingularSystem);
                },
            };
            proof {
                crate::matrix::lemma_mat_mul_shape(
                    diag_inverse_spec(a1),
                    transpose_spec(a21_spec(net)),
                );
            }

            let tmpqr = match product2(&tmpqm, &headsh) {
                Ok(x) => x,
                Err(_) => {
                    proof {
                        assert(false);
                    }
                    return Err(SolveError::SingularSystem);
                },
            };

            flowsq = Vec::new();
            let mut fi: usize = 0;
            while fi < np
                invariant
                    fi <= np,
                    np <= tmpql@.len(),
                    np <= tmpqr@.len(),
                    flowsq@.len() == fi,
                    forall|k: int| 0 <= k < fi ==> flowsq@[k] == sub_bits(tmpql@[k], tmpqr@[k]),
                decreases np - fi,
            {
                let x = fp_sub(tmpql[fi], tmpqr[fi]);
                flowsq.push(x);
                fi = fi + 1;
            }
            let ghost invv_spec = gj_inverse_spec(v_spec, nn as int);
            let ghost heads_spec = mat_vec_spec(invv_spec, tmp2_spec);
            let ghost flows_spec = vdiff_spec(
                mat_vec_spec(diag_inverse_spec(a1), c_spec),
                mat_vec_spec(
                    mat_mul_spec(diag_inverse_spec(a1), transpose_spec(a21_spec(net))),
                    heads_spec,
                ),
                np as int,
            );
            proof {
                assert(headsh@ == heads_spec);
                assert(flowsq@ =~= flows_spec);
            }

            let checkq = check_convergence(&flowsq, &prev_q, self.objective_error);
            if checkq.0 {
                let checkh = check_convergence(&headsh, &prev_h, self.objective_error);
                final_err_h = checkh.1;
                stoploop = checkh.0;
            } else {
                stoploop = false;
            }
            final_err_q = checkq.1;

            prev_q = copy_vec(&flowsq);
            prev_h = copy_vec(&headsh);

            iter = iter + 1;
            if iter >= 20 {
                stoploop = true;
            }

            proof {
                let newst = (IterState {
                    a: mview(amat),
                    b: bvec@,
                    flows: flowsq@,
                    prev_q: prev_q@,
                    heads: headsh@,
                    prev_h: prev_h@,
                    err_q: final_err_q,
                    err_h: final_err_h,
                    stop: stoploop,
                    iter: iter as int,
                });
                assert(iter_next(net, mult_g, mm, nexp_g, obj_g, st) == Some(newst));
                assert(iter_at(net, mult_g, mm, nexp_g, obj_g, iter as int) == Some(newst));
                assert(running_at(net, mult_g, mm, nexp_g, obj_g, iter as int - 1) || iter as int
                    - 1 == 0);
            }
        }

        proof {
            assert(!running_at(net, mult_g, mm, nexp_g, obj_g, iter as int));
            lemma_halt_value(net, mult_g, mm, nexp_g, obj_g, 1, iter as int);
            assert(final_iter_spec(net, mult_g, mm, nexp_g, obj_g) == iter as int);
        }

        self.copy_results(&headsh, &flowsq);
        self.iterations = Some(iter);
        self.final_error = Some((final_err_q, final_err_h));
        self.time_analysis = Some(duration_millis(&clock_elapsed(&t0)));
        Ok(())
    }
}

/// The sum of the absolute differences of the first `k` entries,
/// accumulated from +0.0.
pub open spec fn abs_diff_sum(x: Seq<u64>, y: Seq<u64>, k: int) -> u64
    decreases k,
{
    if k <= 0 {
        FP_ZERO
    } else {
        add_bits(abs_diff_sum(x, y, k - 1), abs_bits(sub_bits(x[k - 1], y[k - 1])))
    }
}

/// The sum of the absolute values of the first `k` entries.
pub open spec fn abs_sum(x: Seq<u64>, k: int) -> u64
    decreases k,
{
    if k <= 0 {
        FP_ZERO
    } else {
        add_bits(abs_sum(x, k - 1), abs_bits(x[k - 1]))
    }
}

/// The relative error between an iterate and its predecessor:
/// `sum |x_new - x_prev| / sum |x_new|`.
pub open spec fn conv_err_bits(actual: Seq<u64>, previous: Seq<u64>) -> u64 {
    div_bits(
        abs_diff_sum(actual, previous, actual.len() as int),
        abs_sum(actual, actual.len() as int),
    )
}

/// A constant vector.
pub open spec fn const_vec_spec(v: u64, n: int) -> Seq<u64> {
    Seq::new(n as nat, |i: int| v)
}

/// The right-hand side `C = -B - A10*h0`, entry by entry.
pub open spec fn cvec_spec(b1: Seq<u64>, tmpc: Seq<u64>, n: int) -> Seq<u64> {
    Seq::new(n as nat, |i: int| sub_bits(mul_bits(FP_NEG_ONE, b1[i]), tmpc[i]))
}

/// The entrywise difference of two vectors.
pub open spec fn vdiff_spec(x: Seq<u64>, y: Seq<u64>, n: int) -> Seq<u64> {
    Seq::new(n as nat, |i: int| sub_bits(x[i], y[i]))
}

/// The complete state an analysis carries from one iteration to the
/// next.
pub struct IterState {
    pub a: Seq<Seq<u64>>,
    pub b: Seq<u64>,
    pub flows: Seq<u64>,
    pub prev_q: Seq<u64>,
    pub heads: Seq<u64>,
    pub prev_h: Seq<u64>,
    pub err_q: u64,
    pub err_h: u64,
    pub stop: bool,
    pub iter: int,
}

/// The SI demand total `Q_max`: the sum of the converted demand vector.
pub open spec fn si_demand_total(net: Network, mult: u64) -> u64 {
    vec_sum(q_spec(net, mult), junctions_of(net).len() as int)
}

/// The segment width of the piecewise linearization: `Q_max / m`.
pub open spec fn deltaq_spec(net: Network, mult: u64, m: u64) -> u64 {
    div_bits(si_demand_total(net, mult), m)
}

/// The state before the first iteration: the initial `A`, a zero `B`,
/// every trial flow at `Q_max`, zero heads, and the worst possible
/// errors.
pub open spec fn iter_init(net: Network, mult: u64) -> IterState {
    IterState {
        a: init_a_spec(net, si_demand_total(net, mult)),
        b: zero_vec_spec(link_count(net)),
        flows: const_vec_spec(si_demand_total(net, mult), link_count(net)),
        prev_q: zero_vec_spec(link_count(net)),
        heads: zero_vec_spec(junctions_of(net).len() as int),
        prev_h: zero_vec_spec(junctions_of(net).len() as int),
        err_q: FP_MAX,
        err_h: FP_MAX,
        stop: false,
        iter: 0,
    }
}

/// One iteration of the multilinear method: update `A` and `B`, invert
/// the diagonal, form `V = A21 A^-1 A12` and `C = -B - A10 h0`, solve
/// `V H = A21 A^-1 C - q` by Gauss-Jordan, recover the flows, and test
/// convergence (flows first, heads only if the flows pass). `None` when
/// the Gauss-Jordan elimination meets a zero pivot.
pub open spec fn iter_next(
    net: Network,
    mult: u64,
    m: u64,
    nexp: u64,
    obj: u64,
    s: IterState,
) -> Option<IterState> {
    let np = link_count(net);
    let nn = junctions_of(net).len() as int;
    let dq = deltaq_spec(net, mult, m);
    let a21 = a21_spec(net);
    let a12 = transpose_spec(a21);
    let a1 = updated_a(net, s.a, s.flows, dq, nexp);
    let b1 = updated_b(net, np, s.flows, dq, nexp);
    let inva = diag_inverse_spec(a1);
    let v1 = mat_mul_spec(a21, inva);
    let v = mat_mul_spec(v1, a12);
    let tmpc = mat_vec_spec(a10_spec(net), h0_spec(net));
    let c = cvec_spec(b1, tmpc, np);
    if !gj_pivots_ok(gj_augment(v, nn), nn) {
        None
    } else {
        let invv = gj_inverse_spec(v, nn);
        let tmp = mat_vec_spec(v1, c);
        let tmp2 = vdiff_spec(tmp, q_spec(net, mult), nn);
        let heads = mat_vec_spec(invv, tmp2);
        let tmpql = mat_vec_spec(inva, c);
        let tmpqm = mat_mul_spec(inva, a12);
        let tmpqr = mat_vec_spec(tmpqm, heads);
        let flows = vdiff_spec(tmpql, tmpqr, np);
        let errq = conv_err_bits(flows, s.prev_q);
        let okq = le_bits(errq, obj);
        let errh = if okq {
            conv_err_bits(heads, s.prev_h)
        } else {
            s.err_h
        };
        let stop1 = okq && le_bits(conv_err_bits(heads, s.prev_h), obj);
        let iter1 = s.iter + 1;
        Some(
            IterState {
                a: a1,
                b: b1,
                flows,
                prev_q: flows,
                heads,
                prev_h: heads,
                err_q: errq,
                err_h: errh,
                stop: stop1 || iter1 >= 20,
                iter: iter1,
            },
        )
    }
}

/// The state after `t` iterations, or `None` once a zero pivot was met.
pub open spec fn iter_at(
    net: Network,
    mult: u64,
    m: u64,
    nexp: u64,
    obj: u64,
    t: int,
) -> Option<IterState>
    decreases t,
{
    if t <= 0 {
        Some(iter_init(net, mult))
    } else {
        match iter_at(net, mult, m, nexp, obj, t - 1) {
            None => None,
            Some(s) => iter_next(net, mult, m, nexp, obj, s),
        }
    }
}

/// Whether the analysis is still going after `t` iterations: no pivot
/// failure and no stop.
pub open spec fn running_at(net: Network, mult: u64, m: u64, nexp: u64, obj: u64, t: int) -> bool {
    match iter_at(net, mult, m, nexp, obj, t) {
        None => false,
        Some(s) => !s.stop,
    }
}

/// The first iteration count at or after `t` where the analysis halts
/// (converged, pivot failure, or the hard cap of 20).
pub open spec fn halt_from(net: Network, mult: u64, m: u64, nexp: u64, obj: u64, t: int) -> int
    decreases 20 - t,
{
    if t >= 20 {
        t
    } else if running_at(net, mult, m, nexp, obj, t) {
        halt_from(net, mult, m, nexp, obj, t + 1)
    } else {
        t
    }
}

/// The iteration at which a freshly started analysis halts.
pub open spec fn final_iter_spec(net: Network, mult: u64, m: u64, nexp: u64, obj: u64) -> int {
    halt_from(net, mult, m, nexp, obj, 1)
}

proof fn lemma_halt_value(net: Network, mult: u64, m: u64, nexp: u64, obj: u64, k: int, fin: int)
    requires
        1 <= k <= fin <= 20,
        forall|t: int| k <= t < fin ==> running_at(net, mult, m, nexp, obj, t),
        !running_at(net, mult, m, nexp, obj, fin) || fin == 20,
    ensures
        halt_from(net, mult, m, nexp, obj, k) == fin,
    decreases fin - k,
{
    if k < fin {
        lemma_halt_value(net, mult, m, nexp, obj, k + 1, fin);
    }
}

/// The junctions with the computed heads written in.
pub open spec fn written_junctions(js: Seq<Junction>, heads: Seq<u64>) -> Seq<Junction> {
    Seq::new(js.len(), |i: int| Junction { head: Some(heads[i]), ..js[i] })
}

/// The pipes with their flows written in, converted back from SI.
pub open spec fn written_pipes(ps: Seq<Pipe>, flows: Seq<u64>, mult: u64) -> Seq<Pipe> {
    Seq::new(ps.len(), |i: int| Pipe { flow: Some(div_bits(flows[i], mult)), ..ps[i] })
}

/// The pumps with their flows written in, read at the pump offset.
pub open spec fn written_pumps(ps: Seq<Pump>, flows: Seq<u64>, mult: u64, off: int) -> Seq<Pump> {
    Seq::new(ps.len(), |i: int| Pump { flow: Some(div_bits(flows[off + i], mult)), ..ps[i] })
}

/// The valves with their flows written in, read at the valve offset.
pub open spec fn written_valves(vs: Seq<Valve>, flows: Seq<u64>, mult: u64, off: int) -> Seq<
    Valve,
> {
    Seq::new(vs.len(), |i: int| Valve { flow: Some(div_bits(flows[off + i], mult)), ..vs[i] })
}

/// A junction's analysis inputs: everything but the computed head.
pub open spec fn junction_inputs(j: Junction) -> Junction {
    Junction { head: None, ..j }
}

/// A pipe's analysis inputs: everything but the computed flow.
pub open spec fn pipe_inputs(p: Pipe) -> Pipe {
    Pipe { flow: None, ..p }
}

/// A pump's analysis inputs: everything but the computed flow.
pub open spec fn pump_inputs(p: Pump) -> Pump {
    Pump { flow: None, ..p }
}

/// A valve's analysis inputs: everything but the computed flow.
pub open spec fn valve_inputs(v: Valve) -> Valve {
    Valve { flow: None, ..v }
}

/// Two networks agree on everything an analysis reads: the same
/// junctions up to the computed head, the same pipes, pumps and valves up
/// to the computed flow, and the same tanks and reservoirs.
pub open spec fn same_inputs(net: Network, net2: Network) -> bool {
    &&& junctions_of(net2).len() == junctions_of(net).len()
    &&& (forall|i: int|
        0 <= i < junctions_of(net).len() ==> junction_inputs(#[trigger] junctions_of(net2)[i])
            == junction_inputs(junctions_of(net)[i]))
    &&& pipes_of(net2).len() == pipes_of(net).len()
    &&& (forall|i: int|
        0 <= i < pipes_of(net).len() ==> pipe_inputs(#[trigger] pipes_of(net2)[i]) == pipe_inputs(
            pipes_of(net)[i],
        ))
    &&& pumps_of(net2).len() == pumps_of(net).len()
    &&& (forall|i: int|
        0 <= i < pumps_of(net).len() ==> pump_inputs(#[trigger] pumps_of(net2)[i]) == pump_inputs(
            pumps_of(net)[i],
        ))
    &&& valves_of(net2).len() == valves_of(net).len()
    &&& (forall|i: int|
        0 <= i < valves_of(net).len() ==> valve_inputs(#[trigger] valves_of(net2)[i])
            == valve_inputs(valves_of(net)[i]))
    &&& tanks_of(net2) == tanks_of(net)
    &&& reservoirs_of(net2) == reservoirs_of(net)
}

proof fn lemma_same_inputs_assembly(net: Network, net2: Network)
    requires
        same_inputs(net, net2),
    ensures
        link_count(net2) == link_count(net),
        fixed_count(net2) == fixed_count(net),
        forall|j: int|
            0 <= j < link_count(net) ==> #[trigger] link_start(net2, j) == link_start(net, j),
        forall|j: int|
            0 <= j < link_count(net) ==> #[trigger] link_end(net2, j) == link_end(net, j),
        a21_spec(net2) == a21_spec(net),
        a10_spec(net2) == a10_spec(net),
        h0_spec(net2) == h0_spec(net),
        forall|mult: u64| #[trigger] q_spec(net2, mult) == q_spec(net, mult),
{
    assert forall|j: int| 0 <= j < link_count(net) implies #[trigger] link_start(net2, j)
        == link_start(net, j) && #[trigger] link_end(net2, j) == link_end(net, j) by {
        if j < pipes_of(net).len() {
            assert(pipe_inputs(pipes_of(net2)[j]) == pipe_inputs(pipes_of(net)[j]));
        } else if j < pipes_of(net).len() + pumps_of(net).len() {
            assert(pump_inputs(pumps_of(net2)[j - pipes_of(net).len()]) == pump_inputs(
                pumps_of(net)[j - pipes_of(net).len()],
            ));
        } else {
            assert(valve_inputs(valves_of(net2)[j - pipes_of(net).len() - pumps_of(net).len()])
                == valve_inputs(valves_of(net)[j - pipes_of(net).len() - pumps_of(net).len()]));
        }
    }
    assert forall|i: int| 0 <= i < junctions_of(net).len() implies #[trigger] junctions_of(
        net2,
    )[i].id == junctions_of(net)[i].id && junctions_of(net2)[i].demand == junctions_of(
        net,
    )[i].demand by {
        assert(junction_inputs(junctions_of(net2)[i]) == junction_inputs(junctions_of(net)[i]));
    }
    assert(a21_spec(net2) =~~= a21_spec(net));
    assert(a10_spec(net2) =~~= a10_spec(net));
    assert(h0_spec(net2) =~= h0_spec(net));
    assert forall|mult: u64| #[trigger] q_spec(net2, mult) == q_spec(net, mult) by {
        assert(q_spec(net2, mult) =~= q_spec(net, mult));
    }
}

proof fn lemma_same_coeffs(
    net: Network,
    net2: Network,
    a: Seq<Seq<u64>>,
    flows: Seq<u64>,
    dq: u64,
    nexp: u64,
)
    requires
        same_inputs(net, net2),
        a.len() <= link_count(net),
    ensures
        updated_a(net2, a, flows, dq, nexp) == updated_a(net, a, flows, dq, nexp),
        updated_b(net2, a.len() as int, flows, dq, nexp) == updated_b(
            net,
            a.len() as int,
            flows,
            dq,
            nexp,
        ),
{
    assert forall|r: int| 0 <= r < link_count(net) implies #[trigger] upd_diag(
        net2,
        flows,
        dq,
        nexp,
        r,
    ) == upd_diag(net, flows, dq, nexp, r) && #[trigger] upd_b(net2, flows, dq, nexp, r) == upd_b(
        net,
        flows,
        dq,
        nexp,
        r,
    ) by {
        if 0 <= r < pipes_of(net).len() {
            assert(pipe_inputs(pipes_of(net2)[r]) == pipe_inputs(pipes_of(net)[r]));
            assert(pipe_r_of_q_bits(pipes_of(net2)[r], flows[r]) == pipe_r_of_q_bits(
                pipes_of(net)[r],
                flows[r],
            ));
        } else if r < pipes_of(net).len() + pumps_of(net).len() {
            assert(pump_inputs(pumps_of(net2)[r - pipes_of(net).len()]) == pump_inputs(
                pumps_of(net)[r - pipes_of(net).len()],
            ));
        } else if r >= pipes_of(net).len() + pumps_of(net).len() {
            if r < link_count(net) {
                let rr = r - pipes_of(net).len() - pumps_of(net).len();
                assert(valve_inputs(valves_of(net2)[rr]) == valve_inputs(valves_of(net)[rr]));
                assert(valve_rq_bits(valves_of(net2)[rr], flows[r]) == valve_rq_bits(
                    valves_of(net)[rr],
                    flows[r],
                ));
            }
        }
    }
    assert(updated_a(net2, a, flows, dq, nexp) =~~= updated_a(net, a, flows, dq, nexp));
    assert(updated_b(net2, a.len() as int, flows, dq, nexp) =~= updated_b(
        net,
        a.len() as int,
        flows,
        dq,
        nexp,
    ));
}

proof fn lemma_same_init_a(net: Network, net2: Network, qm: u64)
    requires
        same_inputs(net, net2),
    ensures
        init_a_spec(net2, qm) == init_a_spec(net, qm),
{
    assert forall|r: int| 0 <= r < link_count(net) implies #[trigger] init_diag(net2, qm, r)
        == init_diag(net, qm, r) by {
        if 0 <= r < pipes_of(net).len() {
            assert(pipe_inputs(pipes_of(net2)[r]) == pipe_inputs(pipes_of(net)[r]));
            assert(pipe_resistance_bits(pipes_of(net2)[r]) == pipe_resistance_bits(
                pipes_of(net)[r],
            ));
        } else if r >= pipes_of(net).len() + pumps_of(net).len() && r < link_count(net) {
            let rr = r - pipes_of(net).len() - pumps_of(net).len();
            assert(valve_inputs(valves_of(net2)[rr]) == valve_inputs(valves_of(net)[rr]));
            assert(valve_rq_bits(valves_of(net2)[rr], qm) == valve_rq_bits(
                valves_of(net)[rr],
                qm,
            ));
        }
    }
    assert(init_a_spec(net2, qm) =~~= init_a_spec(net, qm));
}

proof fn lemma_same_iter_at(
    net: Network,
    net2: Network,
    mult: u64,
    m: u64,
    nexp: u64,
    obj: u64,
    t: int,
)
    requires
        same_inputs(net, net2),
    ensures
        iter_at(net2, mult, m, nexp, obj, t) == iter_at(net, mult, m, nexp, obj, t),
        match iter_at(net, mult, m, nexp, obj, t) {
            Some(s) => s.a.len() == link_count(net),
            None => true,
        },
    decreases t,
{
    lemma_same_inputs_assembly(net, net2);
    assert(si_demand_total(net2, mult) == si_demand_total(net, mult));
    lemma_same_init_a(net, net2, si_demand_total(net, mult));
    if t <= 0 {
        assert(iter_init(net2, mult) == iter_init(net, mult));
    } else {
        lemma_same_iter_at(net, net2, mult, m, nexp, obj, t - 1);
        match iter_at(net, mult, m, nexp, obj, t - 1) {
            None => {},
            Some(s) => {
                lemma_same_coeffs(net, net2, s.a, s.flows, deltaq_spec(net, mult, m), nexp);
                assert(deltaq_spec(net2, mult, m) == deltaq_spec(net, mult, m));
                assert(iter_next(net2, mult, m, nexp, obj, s) == iter_next(
                    net,
                    mult,
                    m,
                    nexp,
                    obj,
                    s,
                ));
            },
        }
    }
}

proof fn lemma_same_halt_from(
    net: Network,
    net2: Network,
    mult: u64,
    m: u64,
    nexp: u64,
    obj: u64,
    t: int,
)
    requires
        same_inputs(net, net2),
    ensures
        halt_from(net2, mult, m, nexp, obj, t) == halt_from(net, mult, m, nexp, obj, t),
    decreases 20 - t,
{
    lemma_same_iter_at(net, net2, mult, m, nexp, obj, t);
    if t < 20 && running_at(net, mult, m, nexp, obj, t) {
        lemma_same_halt_from(net, net2, mult, m, nexp, obj, t + 1);
    }
}

/// Idempotence of the result write-back: the analysis reads none of the
/// outputs it writes (junction heads and link flows), so on a network
/// carrying the write-back of any earlier result the iteration mirror,
/// and with it every head, flow, error and the halting iteration of
/// `compute`, is bit-for-bit the same as on the original network.
pub proof fn lemma_write_back_idempotent(
    net: Network,
    net2: Network,
    mult: u64,
    m: u64,
    nexp: u64,
    obj: u64,
    heads: Seq<u64>,
    flows: Seq<u64>,
)
    requires
        junctions_of(net2) == written_junctions(junctions_of(net), heads),
        pipes_of(net2) == written_pipes(pipes_of(net), flows, mult),
        pumps_of(net2) == written_pumps(pumps_of(net), flows, mult, pipes_of(net).len() as int),
        valves_of(net2) == written_valves(
            valves_of(net),
            flows,
            mult,
            pipes_of(net).len() + pumps_of(net).len() as int,
        ),
        tanks_of(net2) == tanks_of(net),
        reservoirs_of(net2) == reservoirs_of(net),
    ensures
        forall|t: int| #[trigger] iter_at(net2, mult, m, nexp, obj, t) == iter_at(
            net,
            mult,
            m,
            nexp,
            obj,
            t,
        ),
        final_iter_spec(net2, mult, m, nexp, obj) == final_iter_spec(net, mult, m, nexp, obj),
{
    assert(same_inputs(net, net2)) by {
        assert forall|i: int| 0 <= i < junctions_of(net).len() implies junction_inputs(
            #[trigger] junctions_of(net2)[i],
        ) == junction_inputs(junctions_of(net)[i]) by {
            assert(junctions_of(net2)[i] == written_junctions(junctions_of(net), heads)[i]);
        }
        assert forall|i: int| 0 <= i < pipes_of(net).len() implies pipe_inputs(
            #[trigger] pipes_of(net2)[i],
        ) == pipe_inputs(pipes_of(net)[i]) by {
            assert(pipes_of(net2)[i] == written_pipes(pipes_of(net), flows, mult)[i]);
        }
        assert forall|i: int| 0 <= i < pumps_of(net).len() implies pump_inputs(
            #[trigger] pumps_of(net2)[i],
        ) == pump_inputs(pumps_of(net)[i]) by {
            assert(pumps_of(net2)[i] == written_pumps(
                pumps_of(net),
                flows,
                mult,
                pipes_of(net).len() as int,
            )[i]);
        }
        assert forall|i: int| 0 <= i < valves_of(net).len() implies valve_inputs(
            #[trigger] valves_of(net2)[i],
        ) == valve_inputs(valves_of(net)[i]) by {
            assert(valves_of(net2)[i] == written_valves(
                valves_of(net),
                flows,
                mult,
                pipes_of(net).len() + pumps_of(net).len() as int,
            )[i]);
        }
    }
    assert forall|t: int| #[trigger] iter_at(net2, mult, m, nexp, obj, t) == iter_at(
        net,
        mult,
        m,
        nexp,
        obj,
        t,
    ) by {
        lemma_same_iter_at(net, net2, mult, m, nexp, obj, t);
    }
    lemma_same_halt_from(net, net2, mult, m, nexp, obj, 1);
}

fn copy_vec(v: &Vec<u64>) -> (r: Vec<u64>)
    ensures
        r@ == v@,
{
    let mut out: Vec<u64> = Vec::new();
    let mut i: usize = 0;
    while i < v.len()
        invariant
            i <= v@.len(),
            out@.len() == i,
            forall|k: int| 0 <= k < i ==> out@[k] == v@[k],
        decreases v@.len() - i,
    {
        let x = v[i];
        out.push(x);
        i = i + 1;
    }
    proof {
        assert(out@ =~= v@);
    }
    out
}

fn sum_vec(v: &Vec<u64>) -> (r: u64)
    ensures
        r == vec_sum(v@, v@.len() as int),
{
    let mut acc: u64 = FP_ZERO;
    let mut i: usize = 0;
    while i < v.len()
        invariant
            i <= v@.len(),
            acc == vec_sum(v@, i as int),
        decreases v@.len() - i,
    {
        acc = fp_add(acc, v[i]);
        i = i + 1;
    }
    acc
}

#[verifier::external_type_specification]
#[verifier::external_body]
pub struct ExInstant(std::time::Instant);

/// Relies on `std::time::Instant::now`: an opaque monotonic timestamp.
#[verifier::external_body]
fn clock_now() -> std::time::Instant {
    std::time::Instant::now()
}

/// Relies on `std::time::Instant::elapsed`: the opaque wall-clock span
/// since the timestamp. The value depends on the clock, so nothing is
/// assumed of it.
#[verifier::external_body]
fn clock_elapsed(start: &std::time::Instant) -> std::time::Duration {
    start.elapsed()
}

/// Relies on `std::time::Duration::as_millis`: the span as whole
/// milliseconds. Nothing is assumed of the value.
#[verifier::external_body]
fn duration_millis(d: &std::time::Duration) -> u64 {
    d.as_millis() as u64
}

impl Solver {
    /// Writes the solved heads onto the junctions and the solved flows,
    /// converted back to the network's unit, onto pipes, pumps and valves
    /// (in that order of offsets). Nothing else changes.
    fn copy_results(&mut self, heads_h: &Vec<u64>, flows_q: &Vec<u64>)
        requires
            solver_wf(*old(self)),
            heads_h@.len() == old(self).junction_count,
            flows_q@.len() == old(self).pipe_count + old(self).pump_count + old(
                self,
            ).valve_count,
        ensures
            solver_wf(*final(self)),
            final(self).network.junctions is Some <==> old(self).network.junctions is Some,
            junctions_of(final(self).network) == written_junctions(
                junctions_of(old(self).network),
                heads_h@,
            ),
            final(self).network.pipes is Some <==> old(self).network.pipes is Some,
            pipes_of(final(self).network) == written_pipes(
                pipes_of(old(self).network),
                flows_q@,
                old(self).flow_unit_multiplier,
            ),
            final(self).network.pumps is Some <==> old(self).network.pumps is Some,
            pumps_of(final(self).network) == written_pumps(
                pumps_of(old(self).network),
                flows_q@,
                old(self).flow_unit_multiplier,
                old(self).pipe_count as int,
            ),
            final(self).network.valves is Some <==> old(self).network.valves is Some,
            valves_of(final(self).network) == written_valves(
                valves_of(old(self).network),
                flows_q@,
                old(self).flow_unit_multiplier,
                old(self).pipe_count + old(self).pump_count,
            ),
            final(self).network.title == old(self).network.title,
            final(self).network.tanks == old(self).network.tanks,
            final(self).network.reservoirs == old(self).network.reservoirs,
            final(self).network.options == old(self).network.options,
            final(self).junction_count == old(self).junction_count,
            final(self).tank_count == old(self).tank_count,
            final(self).reservoir_count == old(self).reservoir_count,
            final(self).pipe_count == old(self).pipe_count,
            final(self).pump_count == old(self).pump_count,
            final(self).valve_count == old(self).valve_count,
            final(self).flow_unit_multiplier == old(self).flow_unit_multiplier,
            final(self).m == old(self).m,
            final(self).n == old(self).n,
            final(self).iterations == old(self).iterations,
            final(self).final_error == old(self).final_error,
            final(self).time_analysis == old(self).time_analysis,
            final(self).objective_error == old(self).objective_error,
    {
        let mult = self.flow_unit_multiplier;
        let flen = flows_q.len();

        let junctions = self.network.junctions.take();
        match junctions {
            None => {
                self.network.junctions = None;
            },
            Some(mut rest) => {
                let ghost orig = rest@;
                let total = rest.len();
                let mut out: Vec<Junction> = Vec::new();
                let mut i: usize = 0;
                while rest.len() > 0
                    invariant
                        orig.len() == total,
                        i + rest@.len() == orig.len(),
                        rest@ == orig.subrange(i as int, orig.len() as int),
                        heads_h@.len() == orig.len(),
                        out@.len() == i,
                        forall|k: int|
                            0 <= k < i ==> #[trigger] out@[k] == (Junction {
                                head: Some(heads_h@[k]),
                                ..orig[k]
                            }),
                    decreases rest.len(),
                {
                    let mut j = rest.remove(0);
                    j.head = Some(heads_h[i]);
                    out.push(j);
                    i = i + 1;
                }
                proof {
                    assert(out@ =~= written_junctions(orig, heads_h@));
                }
                self.network.junctions = Some(out);
            },
        }

        let pipes = self.network.pipes.take();
        match pipes {
            None => {
                self.network.pipes = None;
            },
            Some(mut rest) => {
                let ghost orig = rest@;
                let total = rest.len();
                let mut out: Vec<Pipe> = Vec::new();
                let mut i: usize = 0;
                while rest.len() > 0
                    invariant
                        orig.len() == total,
                        i + rest@.len() == orig.len(),
                        rest@ == orig.subrange(i as int, orig.len() as int),
                        flows_q@.len() >= orig.len(),
                        out@.len() == i,
                        forall|k: int|
                            0 <= k < i ==> #[trigger] out@[k] == (Pipe {
                                flow: Some(div_bits(flows_q@[k], mult)),
                                ..orig[k]
                            }),
                    decreases rest.len(),
                {
                    let mut p = rest.remove(0);
                    p.flow = Some(fp_div(flows_q[i], mult));
                    out.push(p);
                    i = i + 1;
                }
                proof {
                    assert(out@ =~= written_pipes(orig, flows_q@, mult));
                }
                self.network.pipes = Some(out);
            },
        }

        let npip = self.pipe_count;
        let pumps = self.network.pumps.take();
        match pumps {
            None => {
                self.network.pumps = None;
            },
            Some(mut rest) => {
                let ghost orig = rest@;
                let total = rest.len();
                let mut out: Vec<Pump> = Vec::new();
                let mut i: usize = 0;
                while rest.len() > 0
                    invariant
                        orig.len() == total,
                        i + rest@.len() == orig.len(),
                        rest@ == orig.subrange(i as int, orig.len() as int),
                        flows_q@.len() == flen,
                        flows_q@.len() >= npip + orig.len(),
                        out@.len() == i,
                        forall|k: int|
                            0 <= k < i ==> #[trigger] out@[k] == (Pump {
                                flow: Some(div_bits(flows_q@[npip + k], mult)),
                                ..orig[k]
                            }),
                    decreases rest.len(),
                {
                    let mut p = rest.remove(0);
                    p.flow = Some(fp_div(flows_q[npip + i], mult));
                    out.push(p);
                    i = i + 1;
                }
                proof {
                    assert(out@ =~= written_pumps(orig, flows_q@, mult, npip as int));
                }
                self.network.pumps = Some(out);
            },
        }

        let noff = self.pipe_count + self.pump_count;
        let valves = self.network.valves.take();
        match valves {
            None => {
                self.network.valves = None;
            },
            Some(mut rest) => {
                let ghost orig = rest@;
                let total = rest.len();
                let mut out: Vec<Valve> = Vec::new();
                let mut i: usize = 0;
                while rest.len() > 0
                    invariant
                        orig.len() == total,
                        i + rest@.len() == orig.len(),
                        rest@ == orig.subrange(i as int, orig.len() as int),
                        flows_q@.len() == flen,
                        flows_q@.len() >= noff + orig.len(),
                        out@.len() == i,
                        forall|k: int|
                            0 <= k < i ==> #[trigger] out@[k] == (Valve {
                                flow: Some(div_bits(flows_q@[noff + k], mult)),
                                ..orig[k]
                            }),
                    decreases rest.len(),
                {
                    let mut p = rest.remove(0);
                    p.flow = Some(fp_div(flows_q[noff + i], mult));
                    out.push(p);
                    i = i + 1;
                }
                proof {
                    assert(out@ =~= written_valves(orig, flows_q@, mult, noff as int));
                }
                self.network.valves = Some(out);
            },
        }
    }
}

/// The convergence test: whether the relative error is at or below the
/// objective, and the error itself.
pub(crate) fn check_convergence(actual: &Vec<u64>, previous: &Vec<u64>, objective: u64) -> (r: (
    bool,
    u64,
))
    requires
        actual@.len() == previous@.len(),
    ensures
        r.1 == conv_err_bits(actual@, previous@),
        r.0 == le_bits(conv_err_bits(actual@, previous@), objective),
{
    let k = actual.len();
    let mut sum_err: u64 = FP_ZERO;
    let mut sumq: u64 = FP_ZERO;
    let mut i: usize = 0;
    while i < k
        invariant
            i <= k,
            k == actual@.len(),
            k == previous@.len(),
            sum_err == abs_diff_sum(actual@, previous@, i as int),
            sumq == abs_sum(actual@, i as int),
        decreases k - i,
    {
        sum_err = fp_add(sum_err, fp_abs(fp_sub(actual[i], previous[i])));
        sumq = fp_add(sumq, fp_abs(actual[i]));
        i = i + 1;
    }
    let computed_err = fp_div(sum_err, sumq);
    let ok = fp_le(computed_err, objective);
    (ok, computed_err)
}

} // verus!
