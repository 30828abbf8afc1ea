//! Network and analysis options: flow units, head-loss formula, and the
//! SI conversion multipliers.

use vstd::prelude::*;
use crate::fp::{mul_bits, div_bits, of_u64_bits, ratio_bits, fp_mul, fp_div, fp_from_u64, fp_ratio,
    FP_ONE};

verus! {

/// The closed set of flow units a network can be expressed in.
#[derive(Debug, Clone, Copy, PartialEq, Eq, Structural)]
pub enum FlowUnits {
    /// cubic feet per second
    Cfs,
    /// gallons per minute
    Gpm,
    /// million gallons per day
    Mgd,
    /// imperial million gallons per day
    Imgd,
    /// acre-feet per day
    Afd,
    /// liters per second
    Lps,
    /// liters per minute
    Lpm,
    /// million liters per day
    Mld,
    /// cubic meters per second
    Cms,
    /// cubic meters per hour
    Cmh,
    /// cubic meters per day
    Cmd,
}

impl Default for FlowUnits {
    fn default() -> (r: Self)
        ensures
            r == FlowUnits::Cms,
    {
        FlowUnits::Cms
    }
}

#[derive(Debug, Clone, Copy, PartialEq, Eq, Structural)]
pub enum HeadlossFormula {
    /// Hazen-Williams (H-W)
    Hw,
    /// Darcy-Weisbach (D-W)
    Dw,
    /// Chezy-Manning (C-M)
    Cm,
}

#[derive(Debug, Clone, Copy, PartialEq, Eq, Structural)]
pub enum Unbalanced {
    StopIter,
    ContinueIter(usize),
}

/// The multiplier taking a flow value in the given unit to SI m³/s.
/// Units the solver does not convert keep the neutral multiplier 1.0.
pub open spec fn unit_factor_bits(u: FlowUnits) -> u64 {
    match u {
        FlowUnits::Lps => ratio_bits(1, 1000),
        FlowUnits::Lpm => div_bits(ratio_bits(1, 1000), of_u64_bits(60)),
        FlowUnits::Cmh => ratio_bits(1, 3600),
        FlowUnits::Cmd => div_bits(of_u64_bits(1), mul_bits(of_u64_bits(24), of_u64_bits(3600))),
        FlowUnits::Afd => ratio_bits(14276394, 1000000000),
        _ => FP_ONE,
    }
}

/// The SI multiplier of a flow unit: 0.001 for L/s, 0.001/60 for L/min,
/// 1/3600 for m³/h, 1/86400 for m³/d, 0.014276394 for acre-feet/day, and
/// 1.0 for the rest.
pub fn unit_factor(u: FlowUnits) -> (r: u64)
    ensures
        r == unit_factor_bits(u),
{
    match u {
        FlowUnits::Lps => fp_ratio(1, 1000),
        FlowUnits::Lpm => fp_div(fp_ratio(1, 1000), fp_from_u64(60)),
        FlowUnits::Cmh => fp_ratio(1, 3600),
        FlowUnits::Cmd => fp_div(fp_from_u64(1), fp_mul(fp_from_u64(24), fp_from_u64(3600))),
        FlowUnits::Afd => fp_ratio(14276394, 1000000000),
        _ => FP_ONE,
    }
}

/// Analysis options. All quantities are bit patterns of doubles.
#[derive(Debug, Clone)]
pub struct Options {
    pub flow_unit: FlowUnits,
    pub headloss_formula: HeadlossFormula,
    /// kinematic viscosity (default 1e-7)
    pub viscosity: u64,
    pub trials: usize,
    /// accuracy goal (default 1e-4)
    pub accuracy: u64,
    pub unbalanced: Unbalanced,
    pub pattern: usize,
    /// demand multiplier (default 1.0)
    pub demand_multiplier: u64,
    /// emitter exponent (default 0.5)
    pub emitter_exponent: u64,
}

/// The default options: Hazen-Williams in m³/s, 40 trials, accuracy 1e-4.
pub open spec fn default_options() -> Options {
    Options {
        flow_unit: FlowUnits::Cms,
        headloss_formula: HeadlossFormula::Hw,
        viscosity: ratio_bits(1, 10000000),
        trials: 40,
        accuracy: ratio_bits(1, 10000),
        unbalanced: Unbalanced::StopIter,
        pattern: 0,
        demand_multiplier: FP_ONE,
        emitter_exponent: ratio_bits(1, 2),
    }
}

impl Default for Options {
    fn default() -> (r: Self)
        ensures
            r == default_options(),
    {
        Options {
            flow_unit: FlowUnits::Cms,
            headloss_formula: HeadlossFormula::Hw,
            viscosity: fp_ratio(1, 10000000),
            trials: 40,
            accuracy: fp_ratio(1, 10000),
            unbalanced: Unbalanced::StopIter,
            pattern: 0,
            demand_multiplier: FP_ONE,
            emitter_exponent: fp_ratio(1, 2),
        }
    }
}

#[derive(Debug, Clone)]
pub struct OptionsBuilder {
    pub flow_unit: FlowUnits,
    pub headloss_formula: HeadlossFormula,
    pub viscosity: u64,
    pub trials: usize,
    pub accuracy: u64,
    pub unbalanced: Unbalanced,
    pub pattern: usize,
    pub demand_multiplier: u64,
    pub emitter_exponent: u64,
}

impl OptionsBuilder {
    /// Starts from the defaults, but with flows in L/s.
    pub fn new() -> (r: Self)
        ensures
            r.flow_unit == FlowUnits::Lps,
            r.headloss_formula == HeadlossFormula::Hw,
    {
        OptionsBuilder {
            flow_unit: FlowUnits::Lps,
            headloss_formula: HeadlossFormula::Hw,
            viscosity: fp_ratio(1, 10000000),
            trials: 40,
            accuracy: fp_ratio(1, 10000),
            unbalanced: Unbalanced::StopIter,
            pattern: 0,
            demand_multiplier: FP_ONE,
            emitter_exponent: fp_ratio(1, 2),
        }
    }

    pub fn set_flow_unit(self, flow_unit: FlowUnits) -> (r: Self)
        ensures
            r == (OptionsBuilder { flow_unit, ..self }),
    {
        OptionsBuilder { flow_unit, ..self }
    }

    pub fn set_headlossformula(self, headlossformula: HeadlossFormula) -> (r: Self)
        ensures
            r == (OptionsBuilder { headloss_formula: headlossformula, ..self }),
    {
        OptionsBuilder { headloss_formula: headlossformula, ..self }
    }

    /// Produces the chosen unit and formula over otherwise default
    /// options.
    pub fn build(&self) -> (r: Options)
        ensures
            r == (Options { flow_unit: self.flow_unit, headloss_formula: self.headloss_formula, ..default_options() }),
    {
        Options {
            flow_unit: self.flow_unit,
            headloss_formula: self.headloss_formula,
            viscosity: fp_ratio(1, 10000000),
            trials: 40,
            accuracy: fp_ratio(1, 10000),
            unbalanced: Unbalanced::StopIter,
            pattern: 0,
            demand_multiplier: FP_ONE,
            emitter_exponent: fp_ratio(1, 2),
        }
    }
}

} // verus!
