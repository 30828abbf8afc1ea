//! Steady-state hydraulic analysis of pressurized water distribution
//! networks by the multilinear method: an iterative linearization of the
//! nonlinear head-loss/flow system that computes the flow in every link and
//! the piezometric head at every demand node, so that mass balance and
//! head-loss relations hold together.
//!
//! Every physical quantity (length, demand, head, flow, ...) is carried as
//! the bit pattern of an IEEE-754 double in a `u64`. The arithmetic itself
//! goes through the thin trusted wrappers of [`fp`]; everything else — the
//! incidence assembly, the dense linear-algebra kernels, the piecewise
//! linear coefficient update, the outer iteration and the result
//! write-back — is verified, with contracts that pin each result as an
//! exact function of those operations.
//!
//! The entire trusted surface is small: the primitive IEEE-754 operations
//! in [`fp`] (one `rustc_apfloat` call each), and the two wall-clock
//! calls in [`solver`]. Powers, sign handling and comparisons against the
//! discretization grid are verified code on top of those primitives.

pub mod fp;
pub mod pow;
pub mod options;
pub mod position;
pub mod node;
pub mod link;
pub mod network;
pub mod matrix;
pub mod incidence;
pub mod solver;
pub mod parse;

pub use crate::network::{Network, NetworkBuilder};
pub use crate::node::{
    NodeType, Junction, JunctionBuilder, Tank, TankBuilder, Reservoir, ReservoirBuilder,
};
pub use crate::link::{
    LinkType, LinkStatus, ValveType, Pipe, PipeBuilder, Pump, PumpBuilder, Valve, ValveBuilder,
};
pub use crate::options::{Options, OptionsBuilder, FlowUnits, HeadlossFormula, Unbalanced};
pub use crate::position::Position;
pub use crate::parse::InpFileParser;
pub use crate::solver::{Solver, SolveError};
