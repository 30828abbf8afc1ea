//! Network links: pipes, pumps and valves, with their resistance laws.
//! All physical quantities are bit patterns of doubles.

use vstd::prelude::*;
use crate::fp::{
    add_bits, mul_bits, div_bits, abs_bits, max_bits, lt_bits, gt_bits, eq_bits, of_u64_bits,
    ratio_bits, fp_add, fp_mul, fp_div, fp_abs, fp_max, fp_lt, fp_gt, fp_eq, fp_from_u64,
    fp_ratio, FP_ZERO, FP_ONE,
};
use crate::pow::{powi_bits, pow_bits, fp_powi, fp_powf};
use crate::options::FlowUnits;
use crate::position::Position;

verus! {

/// Bits of the double nearest to pi.
pub const FP_PI: u64 = 0x4009_21FB_5444_2D18;

#[derive(Debug, Clone, Copy, PartialEq, Eq, Structural)]
pub enum ValveType {
    FCV,
    PBV,
    PRV,
    TCV,
    PSV,
    GPV,
}

#[derive(Debug, Clone, Copy, PartialEq, Eq, Structural)]
pub enum LinkType {
    Pipe,
    Pump,
    Valve(ValveType),
}

#[derive(Debug, Clone, Copy, PartialEq, Eq, Structural)]
pub enum LinkStatus {
    Open,
    Closed,
}

/// The minimal flow considered as null: 1e-6 m³/s (one cm³/s).
pub open spec fn flow_epsilon_bits() -> u64 {
    ratio_bits(1, 1000000)
}

/// The Hazen-Williams numerical constant 10.65.
pub open spec fn chw_bits() -> u64 {
    ratio_bits(1065, 100)
}

/// The Hazen-Williams head-loss exponent 1.852.
pub open spec fn hw_exp_bits() -> u64 {
    ratio_bits(1852, 1000)
}

/// The Hazen-Williams diameter exponent 4.8704.
pub open spec fn diam_exp_bits() -> u64 {
    ratio_bits(48704, 10000)
}

/// Millimeters to meters: 0.001.
pub open spec fn mm_bits() -> u64 {
    ratio_bits(1, 1000)
}

/// The sentinel resistance of a closed pipe: 99.99^20, effectively
/// infinite.
pub open spec fn closed_resistance_bits() -> u64 {
    powi_bits(ratio_bits(9999, 100), 20)
}

/// The sentinel resistance of a closed pump: 10^20.
pub open spec fn closed_pump_bits() -> u64 {
    powi_bits(of_u64_bits(10), 20)
}

/// The trickle resistance of a closed valve at near-zero flow: 10^15.
pub open spec fn valve_trickle_bits() -> u64 {
    powi_bits(of_u64_bits(10), 15)
}

/// The blocking resistance of a closed valve: 10^25.
pub open spec fn valve_block_bits() -> u64 {
    powi_bits(of_u64_bits(10), 25)
}

/// The Hazen-Williams resistance of an open pipe:
/// `10.65 * L / (C^1.852 * (D*0.001)^4.8704)` with `L` in m, `D` in mm and
/// `C` the roughness coefficient.
pub open spec fn hw_resistance_bits(length: u64, diameter: u64, roughness: u64) -> u64 {
    div_bits(
        mul_bits(chw_bits(), length),
        mul_bits(
            pow_bits(roughness, hw_exp_bits()),
            pow_bits(mul_bits(diameter, mm_bits()), diam_exp_bits()),
        ),
    )
}

/// A pipe between two distinct nodes.
#[derive(Debug, Clone)]
pub struct Pipe {
    pub id: usize,
    pub name: Option<String>,
    pub vertices: Option<Vec<Position>>,
    pub start: usize,
    pub end: usize,
    /// length in m
    pub length: u64,
    /// diameter in mm
    pub diameter: u64,
    /// Hazen-Williams coefficient (or D-W roughness)
    pub roughness: u64,
    pub minor_loss: u64,
    /// flow in the network's flow unit, written by the solver
    pub flow: Option<u64>,
    pub status: LinkStatus,
    pub check_valve: bool,
    pub flow_unit: FlowUnits,
}

/// The resistance of a pipe: the Hazen-Williams value when open, the
/// sentinel infinity when closed.
pub open spec fn pipe_resistance_bits(p: Pipe) -> u64 {
    if p.status == LinkStatus::Open {
        hw_resistance_bits(p.length, p.diameter, p.roughness)
    } else {
        closed_resistance_bits()
    }
}

/// The resistance of a pipe under a trial flow: a check valve under
/// negative flow behaves as closed.
pub open spec fn pipe_r_of_q_bits(p: Pipe, flow: u64) -> u64 {
    if p.status == LinkStatus::Open {
        if p.check_valve && lt_bits(flow, FP_ZERO) {
            closed_resistance_bits()
        } else {
            hw_resistance_bits(p.length, p.diameter, p.roughness)
        }
    } else {
        closed_resistance_bits()
    }
}

/// The factor taking a stored flow to SI for head-loss evaluation; units
/// the formula does not convert keep 1.0.
pub open spec fn pipe_flow_factor_bits(u: FlowUnits) -> u64 {
    match u {
        FlowUnits::Lps => ratio_bits(1, 1000),
        FlowUnits::Cmh => ratio_bits(1, 3600),
        FlowUnits::Lpm => div_bits(ratio_bits(1, 1000), of_u64_bits(60)),
        _ => FP_ONE,
    }
}

/// The head loss along a pipe with a computed flow:
/// `R * (|Q|*factor)^1.852`.
pub open spec fn pipe_headloss_bits(p: Pipe) -> Option<u64> {
    match p.flow {
        Some(q) => Some(
            mul_bits(
                pipe_resistance_bits(p),
                pow_bits(mul_bits(abs_bits(q), pipe_flow_factor_bits(p.flow_unit)), hw_exp_bits()),
            ),
        ),
        None => None,
    }
}

impl Pipe {
    pub fn resistance(&self) -> (r: u64)
        ensures
            r == pipe_resistance_bits(*self),
    {
        if self.status == LinkStatus::Open {
            self.hw_resistance()
        } else {
            fp_powi(fp_ratio(9999, 100), 20)
        }
    }

    fn hw_resistance(&self) -> (r: u64)
        ensures
            r == hw_resistance_bits(self.length, self.diameter, self.roughness),
    {
        fp_div(
            fp_mul(fp_ratio(1065, 100), self.length),
            fp_mul(
                fp_powf(self.roughness, fp_ratio(1852, 1000)),
                fp_powf(fp_mul(self.diameter, fp_ratio(1, 1000)), fp_ratio(48704, 10000)),
            ),
        )
    }

    /// The resistance used against a trial flow in m³/s.
    pub fn get_r_of_q(&self, flow: u64) -> (r: u64)
        ensures
            r == pipe_r_of_q_bits(*self, flow),
    {
        if self.status == LinkStatus::Open {
            if self.check_valve {
                if fp_lt(flow, FP_ZERO) {
                    fp_powi(fp_ratio(9999, 100), 20)
                } else {
                    self.hw_resistance()
                }
            } else {
                self.hw_resistance()
            }
        } else {
            fp_powi(fp_ratio(9999, 100), 20)
        }
    }

    fn get_flow_factor(&self) -> (r: u64)
        ensures
            r == pipe_flow_factor_bits(self.flow_unit),
    {
        match self.flow_unit {
            FlowUnits::Lps => fp_ratio(1, 1000),
            FlowUnits::Cmh => fp_ratio(1, 3600),
            FlowUnits::Lpm => fp_div(fp_ratio(1, 1000), fp_from_u64(60)),
            _ => FP_ONE,
        }
    }

    /// The head loss along the pipe, once a flow has been computed.
    pub fn headloss(&self) -> (r: Option<u64>)
        ensures
            r == pipe_headloss_bits(*self),
    {
        match self.flow {
            Some(q) => Some(
                fp_mul(
                    self.resistance(),
                    fp_powf(fp_mul(fp_abs(q), self.get_flow_factor()), fp_ratio(1852, 1000)),
                ),
            ),
            None => None,
        }
    }

    /// The head loss per meter of pipe; a tiny placeholder before any flow
    /// is computed.
    pub fn unit_headloss(&self) -> (r: u64)
        ensures
            r == match pipe_headloss_bits(*self) {
                Some(hl) => div_bits(hl, self.length),
                None => ratio_bits(1, 10000000),
            },
    {
        match self.headloss() {
            Some(hl) => fp_div(hl, self.length),
            None => fp_ratio(1, 10000000),
        }
    }

    /// The mean velocity `4*Q*factor / (pi * (D*0.001)^2)`, once a flow
    /// has been computed.
    pub fn velocity(&self) -> (r: Option<u64>)
        ensures
            r == match self.flow {
                Some(q) => Some(
                    div_bits(
                        mul_bits(mul_bits(of_u64_bits(4), q), pipe_flow_factor_bits(self.flow_unit)),
                        mul_bits(FP_PI, powi_bits(mul_bits(self.diameter, mm_bits()), 2)),
                    ),
                ),
                None => None::<u64>,
            },
    {
        match self.flow {
            Some(q) => Some(
                fp_div(
                    fp_mul(fp_mul(fp_from_u64(4), q), self.get_flow_factor()),
                    fp_mul(FP_PI, fp_powi(fp_mul(self.diameter, fp_ratio(1, 1000)), 2)),
                ),
            ),
            None => None,
        }
    }

    pub fn get_vertices(&self) -> (r: Option<&Vec<Position>>)
        ensures
            match r {
                Some(v) => self.vertices == Some(*v),
                None => self.vertices is None,
            },
    {
        match &self.vertices {
            None => None,
            Some(vertices) => Some(vertices),
        }
    }

    pub fn get_id(&self) -> (r: usize)
        ensures
            r == self.id,
    {
        self.id
    }

    pub fn get_start_node(&self) -> (r: usize)
        ensures
            r == self.start,
    {
        self.start
    }

    pub fn get_end_node(&self) -> (r: usize)
        ensures
            r == self.end,
    {
        self.end
    }

    pub fn get_diameter(&self) -> (r: u64)
        ensures
            r == self.diameter,
    {
        self.diameter
    }

    pub fn get_length(&self) -> (r: u64)
        ensures
            r == self.length,
    {
        self.length
    }

    pub fn set_flow_unit(&mut self, flow_unit: FlowUnits)
        ensures
            *final(self) == (Pipe { flow_unit, ..*old(self) }),
    {
        self.flow_unit = flow_unit;
    }

    pub fn get_flow_unit(&self) -> (r: FlowUnits)
        ensures
            r == self.flow_unit,
    {
        self.flow_unit
    }

    pub fn link_type(&self) -> (r: LinkType)
        ensures
            r == LinkType::Pipe,
    {
        LinkType::Pipe
    }
}

impl Default for Pipe {
    /// A 100 m, 100 mm, C=130 open pipe from node 0 to node 1.
    fn default() -> (r: Self)
        ensures
            r.id == 0,
            r.start == 0,
            r.end == 1,
            r.length == of_u64_bits(100),
            r.diameter == of_u64_bits(100),
            r.roughness == of_u64_bits(130),
            r.minor_loss == FP_ZERO,
            r.flow is None,
            r.status == LinkStatus::Open,
            !r.check_valve,
            r.flow_unit == FlowUnits::Cms,
            r.name is None,
            r.vertices is None,
    {
        Pipe {
            id: 0,
            name: None,
            vertices: None,
            start: 0,
            end: 1,
            length: fp_from_u64(100),
            diameter: fp_from_u64(100),
            roughness: fp_from_u64(130),
            minor_loss: FP_ZERO,
            flow: None,
            status: LinkStatus::Open,
            check_valve: false,
            flow_unit: FlowUnits::Cms,
        }
    }
}

#[derive(Debug, Clone)]
pub struct PipeBuilder {
    pub id: usize,
    pub name: Option<String>,
    pub vertices: Option<Vec<Position>>,
    pub start: usize,
    pub end: usize,
    pub length: u64,
    pub diameter: u64,
    pub roughness: u64,
    pub minor_loss: u64,
    pub flow: Option<u64>,
    pub status: LinkStatus,
    pub check_valve: bool,
    pub flow_unit: FlowUnits,
}

impl PipeBuilder {
    /// Starts from the default pipe's values with both endpoints at 0.
    pub fn new() -> (r: Self)
        ensures
            r.id == 0,
            r.start == 0,
            r.end == 0,
            r.length == of_u64_bits(100),
            r.diameter == of_u64_bits(100),
            r.roughness == of_u64_bits(130),
            r.minor_loss == FP_ZERO,
            r.flow is None,
            r.status == LinkStatus::Open,
            !r.check_valve,
            r.flow_unit == FlowUnits::Cms,
            r.name is None,
            r.vertices is None,
    {
        PipeBuilder {
            id: 0,
            name: None,
            vertices: None,
            start: 0,
            end: 0,
            length: fp_from_u64(100),
            diameter: fp_from_u64(100),
            roughness: fp_from_u64(130),
            minor_loss: FP_ZERO,
            flow: None,
            status: LinkStatus::Open,
            check_valve: false,
            flow_unit: FlowUnits::Cms,
        }
    }

    pub fn set_id(self, id: usize) -> (r: Self)
        ensures
            r == (PipeBuilder { id, ..self }),
    {
        PipeBuilder { id, ..self }
    }

    pub fn set_vertices(self, vertices: Option<Vec<Position>>) -> (r: Self)
        ensures
            r == (PipeBuilder { vertices, ..self }),
    {
        PipeBuilder { vertices, ..self }
    }

    pub fn set_name(self, name: &str) -> (r: Self)
        ensures
            r == (PipeBuilder { name: r.name, ..self }),
            r.name is Some,
    {
        PipeBuilder { name: Some(name.to_string()), ..self }
    }

    pub fn set_start(self, start_node: usize) -> (r: Self)
        ensures
            r == (PipeBuilder { start: start_node, ..self }),
    {
        PipeBuilder { start: start_node, ..self }
    }

    pub fn set_end(self, end_node: usize) -> (r: Self)
        ensures
            r == (PipeBuilder { end: end_node, ..self }),
    {
        PipeBuilder { end: end_node, ..self }
    }

    /// Clamps the length to at least 1 m.
    pub fn set_length(self, length: u64) -> (r: Self)
        ensures
            r == (PipeBuilder { length: max_bits(FP_ONE, length), ..self }),
    {
        PipeBuilder { length: fp_max(FP_ONE, length), ..self }
    }

    /// Clamps the diameter to at least 1 mm (the storage unit).
    pub fn set_diameter(self, diameter: u64) -> (r: Self)
        ensures
            r == (PipeBuilder { diameter: max_bits(diameter, FP_ONE), ..self }),
    {
        PipeBuilder { diameter: fp_max(diameter, FP_ONE), ..self }
    }

    /// Clamps the roughness to at least 1e-5.
    pub fn set_roughness(self, roughness: u64) -> (r: Self)
        ensures
            r == (PipeBuilder { roughness: max_bits(roughness, ratio_bits(1, 100000)), ..self }),
    {
        PipeBuilder { roughness: fp_max(roughness, fp_ratio(1, 100000)), ..self }
    }

    /// Clamps the minor loss to be non-negative.
    pub fn set_minorloss(self, minloss: u64) -> (r: Self)
        ensures
            r == (PipeBuilder { minor_loss: max_bits(FP_ZERO, minloss), ..self }),
    {
        PipeBuilder { minor_loss: fp_max(FP_ZERO, minloss), ..self }
    }

    pub fn set_status(self, status: LinkStatus) -> (r: Self)
        ensures
            r == (PipeBuilder { status, ..self }),
    {
        PipeBuilder { status, ..self }
    }

    pub fn set_check_valve(self, check_valve: bool) -> (r: Self)
        ensures
            r == (PipeBuilder { check_valve, ..self }),
    {
        PipeBuilder { check_valve, ..self }
    }

    pub fn set_flow_unit(self, flow_unit: FlowUnits) -> (r: Self)
        ensures
            r == (PipeBuilder { flow_unit, ..self }),
    {
        PipeBuilder { flow_unit, ..self }
    }

    /// The built pipe carries every configured field; its flow is unset.
    pub fn build(self) -> (r: Pipe)
        ensures
            r.id == self.id,
            r.name == self.name,
            r.vertices == self.vertices,
            r.start == self.start,
            r.end == self.end,
            r.length == self.length,
            r.diameter == self.diameter,
            r.roughness == self.roughness,
            r.minor_loss == self.minor_loss,
            r.flow is None,
            r.status == self.status,
            r.check_valve == self.check_valve,
            r.flow_unit == self.flow_unit,
    {
        Pipe {
            id: self.id,
            name: self.name,
            vertices: self.vertices,
            start: self.start,
            end: self.end,
            length: self.length,
            diameter: self.diameter,
            roughness: self.roughness,
            minor_loss: self.minor_loss,
            flow: None,
            status: self.status,
            check_valve: self.check_valve,
            flow_unit: self.flow_unit,
        }
    }
}

/// A pump with head curve `H(Q) = alpha*Q^2 + beta*Q + gamma`.
#[derive(Debug, Clone)]
pub struct Pump {
    pub id: usize,
    pub name: Option<String>,
    pub start: usize,
    pub end: usize,
    /// quadratic coefficient of the head curve
    pub alpha: u64,
    /// linear coefficient of the head curve
    pub beta: u64,
    /// constant coefficient of the head curve
    pub gamma: u64,
    /// power rating in kW
    pub power_rating: u64,
    /// flow in the network's flow unit, written by the solver
    pub flow: Option<u64>,
    pub status: LinkStatus,
    pub parameters: Option<String>,
    pub flow_unit: FlowUnits,
}

/// The head-per-flow ratio a pump contributes against a trial flow:
/// `alpha*(Q/mult) + beta + gamma*mult/Q` on the curve, the power law
/// `P/(9.81*max(|Q|,eps)^2)` when `alpha` is zero, and the sentinel 10^20
/// when closed.
pub open spec fn pump_r_of_q0_bits(p: Pump, flow: u64, mult: u64) -> u64 {
    if p.status == LinkStatus::Open {
        if !eq_bits(p.alpha, FP_ZERO) {
            add_bits(
                add_bits(mul_bits(p.alpha, div_bits(flow, mult)), p.beta),
                div_bits(mul_bits(p.gamma, mult), flow),
            )
        } else {
            div_bits(
                p.power_rating,
                mul_bits(ratio_bits(981, 100), powi_bits(max_bits(abs_bits(flow), flow_epsilon_bits()), 2)),
            )
        }
    } else {
        closed_pump_bits()
    }
}

impl Pump {
    /// The generated head per unit flow against a trial flow.
    pub fn get_r_of_q0(&self, flow: u64, flow_unit_multiplier: u64) -> (r: u64)
        ensures
            r == pump_r_of_q0_bits(*self, flow, flow_unit_multiplier),
    {
        if self.status == LinkStatus::Open {
            if !fp_eq(self.alpha, FP_ZERO) {
                fp_add(
                    fp_add(fp_mul(self.alpha, fp_div(flow, flow_unit_multiplier)), self.beta),
                    fp_div(fp_mul(self.gamma, flow_unit_multiplier), flow),
                )
            } else {
                let q = fp_max(fp_abs(flow), fp_ratio(1, 1000000));
                fp_div(self.power_rating, fp_mul(fp_ratio(981, 100), fp_powi(q, 2)))
            }
        } else {
            fp_powi(fp_from_u64(10), 20)
        }
    }

    pub fn get_id(&self) -> (r: usize)
        ensures
            r == self.id,
    {
        self.id
    }

    pub fn get_start_node(&self) -> (r: usize)
        ensures
            r == self.start,
    {
        self.start
    }

    pub fn get_end_node(&self) -> (r: usize)
        ensures
            r == self.end,
    {
        self.end
    }

    pub fn link_type(&self) -> (r: LinkType)
        ensures
            r == LinkType::Pump,
    {
        LinkType::Pump
    }

    pub fn set_flow_unit(&mut self, flow_unit: FlowUnits)
        ensures
            *final(self) == (Pump { flow_unit, ..*old(self) }),
    {
        self.flow_unit = flow_unit;
    }

    pub fn get_flow_unit(&self) -> (r: FlowUnits)
        ensures
            r == self.flow_unit,
    {
        self.flow_unit
    }
}

#[derive(Debug, Clone)]
pub struct PumpBuilder {
    pub id: usize,
    pub name: Option<String>,
    pub start: usize,
    pub end: usize,
    pub alpha: u64,
    pub beta: u64,
    pub gamma: u64,
    pub power_rating: u64,
    pub status: LinkStatus,
    pub parameters: Option<String>,
    pub flow_unit: FlowUnits,
}

impl PumpBuilder {
    pub fn new() -> (r: Self)
        ensures
            r.id == 0,
            r.start == 0,
            r.end == 0,
            r.alpha == FP_ZERO,
            r.beta == FP_ZERO,
            r.gamma == FP_ZERO,
            r.power_rating == FP_ZERO,
            r.status == LinkStatus::Open,
            r.parameters is None,
            r.name is None,
            r.flow_unit == FlowUnits::Cms,
    {
        PumpBuilder {
            id: 0,
            name: None,
            start: 0,
            end: 0,
            alpha: FP_ZERO,
            beta: FP_ZERO,
            gamma: FP_ZERO,
            power_rating: FP_ZERO,
            status: LinkStatus::Open,
            parameters: None,
            flow_unit: FlowUnits::Cms,
        }
    }

    pub fn set_id(self, id: usize) -> (r: Self)
        ensures
            r == (PumpBuilder { id, ..self }),
    {
        PumpBuilder { id, ..self }
    }

    pub fn set_name(self, name: String) -> (r: Self)
        ensures
            r == (PumpBuilder { name: Some(name), ..self }),
    {
        PumpBuilder { name: Some(name), ..self }
    }

    pub fn set_start(self, start_node: usize) -> (r: Self)
        ensures
            r == (PumpBuilder { start: start_node, ..self }),
    {
        PumpBuilder { start: start_node, ..self }
    }

    pub fn set_end(self, end_node: usize) -> (r: Self)
        ensures
            r == (PumpBuilder { end: end_node, ..self }),
    {
        PumpBuilder { end: end_node, ..self }
    }

    pub fn set_alpha(self, alpha: u64) -> (r: Self)
        ensures
            r == (PumpBuilder { alpha, ..self }),
    {
        PumpBuilder { alpha, ..self }
    }

    pub fn set_beta(self, beta: u64) -> (r: Self)
        ensures
            r == (PumpBuilder { beta, ..self }),
    {
        PumpBuilder { beta, ..self }
    }

    pub fn set_gamma(self, gamma: u64) -> (r: Self)
        ensures
            r == (PumpBuilder { gamma, ..self }),
    {
        PumpBuilder { gamma, ..self }
    }

    /// Stores the power rating into the constant curve coefficient
    /// `gamma`; the `power_rating` field itself is set only directly.
    pub fn set_power_rating(self, power_kw: u64) -> (r: Self)
        ensures
            r == (PumpBuilder { gamma: power_kw, ..self }),
    {
        PumpBuilder { gamma: power_kw, ..self }
    }

    pub fn set_status(self, status: LinkStatus) -> (r: Self)
        ensures
            r == (PumpBuilder { status, ..self }),
    {
        PumpBuilder { status, ..self }
    }

    pub fn set_parameters(self, parameters: Option<String>) -> (r: Self)
        ensures
            r == (PumpBuilder { parameters, ..self }),
    {
        PumpBuilder { parameters, ..self }
    }

    pub fn set_flow_unit(self, flow_unit: FlowUnits) -> (r: Self)
        ensures
            r == (PumpBuilder { flow_unit, ..self }),
    {
        PumpBuilder { flow_unit, ..self }
    }

    /// The built pump carries every configured field; its flow is unset.
    pub fn build(self) -> (r: Pump)
        ensures
            r.id == self.id,
            r.name == self.name,
            r.start == self.start,
            r.end == self.end,
            r.alpha == self.alpha,
            r.beta == self.beta,
            r.gamma == self.gamma,
            r.power_rating == self.power_rating,
            r.flow is None,
            r.status == self.status,
            r.parameters == self.parameters,
            r.flow_unit == self.flow_unit,
    {
        Pump {
            id: self.id,
            name: self.name,
            start: self.start,
            end: self.end,
            alpha: self.alpha,
            beta: self.beta,
            gamma: self.gamma,
            power_rating: self.power_rating,
            flow: None,
            status: self.status,
            parameters: self.parameters,
            flow_unit: self.flow_unit,
        }
    }
}

impl Default for PumpBuilder {
    fn default() -> (r: Self)
        ensures
            r.id == 0,
            r.start == 0,
            r.end == 0,
            r.alpha == FP_ZERO,
            r.beta == FP_ZERO,
            r.gamma == FP_ZERO,
            r.power_rating == FP_ZERO,
            r.status == LinkStatus::Open,
            r.parameters is None,
            r.name is None,
            r.flow_unit == FlowUnits::Cms,
    {
        PumpBuilder::new()
    }
}

/// A valve with resistance law `k * Q` (flow-control valves block
/// backward flow).
#[derive(Debug, Clone)]
pub struct Valve {
    pub id: usize,
    pub name: Option<String>,
    pub start: usize,
    pub end: usize,
    pub length: u64,
    pub diameter: u64,
    pub roughness: u64,
    pub minor_loss: u64,
    /// flow in the network's flow unit, written by the solver
    pub flow: Option<u64>,
    pub k_value: u64,
    pub status: LinkStatus,
    pub valvetype: ValveType,
}

/// The resistance a valve opposes to a trial flow: `k*Q` when open (an
/// FCV under non-positive flow behaves as blocked), and a
/// magnitude-dependent sentinel when closed.
pub open spec fn valve_rq_bits(v: Valve, flow: u64) -> u64 {
    if v.status == LinkStatus::Open {
        match v.valvetype {
            ValveType::FCV => if gt_bits(flow, FP_ZERO) {
                mul_bits(v.k_value, flow)
            } else {
                valve_trickle_bits()
            },
            _ => mul_bits(v.k_value, flow),
        }
    } else {
        if lt_bits(flow, flow_epsilon_bits()) {
            valve_trickle_bits()
        } else {
            valve_block_bits()
        }
    }
}

impl Valve {
    pub fn get_rq(&self, flow: u64) -> (r: u64)
        ensures
            r == valve_rq_bits(*self, flow),
    {
        if self.status == LinkStatus::Open {
            match self.valvetype {
                ValveType::FCV => if fp_gt(flow, FP_ZERO) {
                    fp_mul(self.k_value, flow)
                } else {
                    fp_powi(fp_from_u64(10), 15)
                },
                _ => fp_mul(self.k_value, flow),
            }
        } else {
            if fp_lt(flow, fp_ratio(1, 1000000)) {
                fp_powi(fp_from_u64(10), 15)
            } else {
                fp_powi(fp_from_u64(10), 25)
            }
        }
    }

    pub fn get_id(&self) -> (r: usize)
        ensures
            r == self.id,
    {
        self.id
    }

    pub fn get_start_node(&self) -> (r: usize)
        ensures
            r == self.start,
    {
        self.start
    }

    pub fn get_end_node(&self) -> (r: usize)
        ensures
            r == self.end,
    {
        self.end
    }

    pub fn link_type(&self) -> (r: LinkType)
        ensures
            r == LinkType::Valve(self.valvetype),
    {
        LinkType::Valve(self.valvetype)
    }
}

impl Default for Valve {
    /// An open 100 mm general-purpose valve with zero loss coefficient
    /// from node 0 to node 1.
    fn default() -> (r: Self)
        ensures
            r.id == 0,
            r.start == 0,
            r.end == 1,
            r.length == of_u64_bits(100),
            r.diameter == of_u64_bits(100),
            r.roughness == of_u64_bits(130),
            r.minor_loss == FP_ZERO,
            r.flow is None,
            r.status == LinkStatus::Open,
            r.k_value == FP_ZERO,
            r.valvetype == ValveType::GPV,
            r.name is None,
    {
        Valve {
            id: 0,
            name: None,
            start: 0,
            end: 1,
            length: fp_from_u64(100),
            diameter: fp_from_u64(100),
            roughness: fp_from_u64(130),
            minor_loss: FP_ZERO,
            flow: None,
            status: LinkStatus::Open,
            k_value: FP_ZERO,
            valvetype: ValveType::GPV,
        }
    }
}

#[derive(Debug, Clone)]
pub struct ValveBuilder {
    pub id: usize,
    pub name: Option<String>,
    pub start: usize,
    pub end: usize,
    pub length: u64,
    pub diameter: u64,
    pub roughness: u64,
    pub minor_loss: u64,
    pub k_value: u64,
    pub status: LinkStatus,
    pub valvetype: ValveType,
}

impl ValveBuilder {
    pub fn new() -> (r: Self)
        ensures
            r.id == 0,
            r.start == 0,
            r.end == 0,
            r.length == of_u64_bits(100),
            r.diameter == of_u64_bits(100),
            r.roughness == of_u64_bits(130),
            r.minor_loss == FP_ZERO,
            r.k_value == FP_ZERO,
            r.status == LinkStatus::Open,
            r.valvetype == ValveType::GPV,
            r.name is None,
    {
        ValveBuilder {
            id: 0,
            name: None,
            start: 0,
            end: 0,
            length: fp_from_u64(100),
            diameter: fp_from_u64(100),
            roughness: fp_from_u64(130),
            minor_loss: FP_ZERO,
            k_value: FP_ZERO,
            status: LinkStatus::Open,
            valvetype: ValveType::GPV,
        }
    }

    pub fn set_id(self, id: usize) -> (r: Self)
        ensures
            r == (ValveBuilder { id, ..self }),
    {
        ValveBuilder { id, ..self }
    }

    pub fn set_name(self, name: &str) -> (r: Self)
        ensures
            r == (ValveBuilder { name: r.name, ..self }),
            r.name is Some,
    {
        ValveBuilder { name: Some(name.to_string()), ..self }
    }

    pub fn set_start(self, start_node: usize) -> (r: Self)
        ensures
            r == (ValveBuilder { start: start_node, ..self }),
    {
        ValveBuilder { start: start_node, ..self }
    }

    pub fn set_end(self, end_node: usize) -> (r: Self)
        ensures
            r == (ValveBuilder { end: end_node, ..self }),
    {
        ValveBuilder { end: end_node, ..self }
    }

    pub fn set_length(self, length: u64) -> (r: Self)
        ensures
            r == (ValveBuilder { length: max_bits(FP_ONE, length), ..self }),
    {
        ValveBuilder { length: fp_max(FP_ONE, length), ..self }
    }

    /// Clamps the diameter to at least 1 mm (the storage unit).
    pub fn set_diameter(self, diameter: u64) -> (r: Self)
        ensures
            r == (ValveBuilder { diameter: max_bits(diameter, FP_ONE), ..self }),
    {
        ValveBuilder { diameter: fp_max(diameter, FP_ONE), ..self }
    }

    pub fn set_roughness(self, roughness: u64) -> (r: Self)
        ensures
            r == (ValveBuilder { roughness: max_bits(roughness, ratio_bits(1, 100000)), ..self }),
    {
        ValveBuilder { roughness: fp_max(roughness, fp_ratio(1, 100000)), ..self }
    }

    pub fn set_minorloss(self, minloss: u64) -> (r: Self)
        ensures
            r == (ValveBuilder { minor_loss: max_bits(FP_ZERO, minloss), ..self }),
    {
        ValveBuilder { minor_loss: fp_max(FP_ZERO, minloss), ..self }
    }

    pub fn set_status(self, status: LinkStatus) -> (r: Self)
        ensures
            r == (ValveBuilder { status, ..self }),
    {
        ValveBuilder { status, ..self }
    }

    pub fn set_k_value(self, k_value: u64) -> (r: Self)
        ensures
            r == (ValveBuilder { k_value, ..self }),
    {
        ValveBuilder { k_value, ..self }
    }

    pub fn set_valve_type(self, valve_type: ValveType) -> (r: Self)
        ensures
            r == (ValveBuilder { valvetype: valve_type, ..self }),
    {
        ValveBuilder { valvetype: valve_type, ..self }
    }

    /// The built valve carries every configured field; its flow is unset.
    pub fn build(self) -> (r: Valve)
        ensures
            r.id == self.id,
            r.name == self.name,
            r.start == self.start,
            r.end == self.end,
            r.length == self.length,
            r.diameter == self.diameter,
            r.roughness == self.roughness,
            r.minor_loss == self.minor_loss,
            r.flow is None,
            r.k_value == self.k_value,
            r.status == self.status,
            r.valvetype == self.valvetype,
    {
        Valve {
            id: self.id,
            name: self.name,
            start: self.start,
            end: self.end,
            length: self.length,
            diameter: self.diameter,
            roughness: self.roughness,
            minor_loss: self.minor_loss,
            flow: None,
            k_value: self.k_value,
            status: self.status,
            valvetype: self.valvetype,
        }
    }
}

} // verus!
