//! Network nodes: junctions (demand nodes, head unknown), tanks and
//! reservoirs (fixed-head nodes). All physical quantities are bit patterns
//! of doubles.

use vstd::prelude::*;
use crate::fp::{add_bits, sub_bits, fp_add, fp_sub, FP_ZERO};
use crate::options::FlowUnits;
use crate::position::Position;

verus! {

#[derive(Debug, Clone, Copy, PartialEq, Eq, Structural)]
pub enum NodeType {
    Junction,
    Reservoir,
    Tank,
}

/// A demand node: head is an output of the analysis, absent until then.
#[derive(Debug, Clone)]
pub struct Junction {
    pub id: usize,
    pub position: Position,
    /// elevation in m
    pub elevation: u64,
    /// demand in the network's flow unit
    pub demand: u64,
    pub pattern: Option<usize>,
    pub name: Option<String>,
    /// piezometric head in m, written by the solver
    pub head: Option<u64>,
}

impl Junction {
    pub fn new(id: usize, elevation: u64, demand: u64) -> (r: Self)
        ensures
            r.id == id,
            r.elevation == elevation,
            r.demand == demand,
            r.head is None,
            r.pattern is None,
            r.name is None,
            r.position == (Position { x: 0u32, y: 0u32 }),
    {
        Junction {
            id,
            position: Position::default(),
            elevation,
            demand,
            name: None,
            head: None,
            pattern: None,
        }
    }

    pub fn set_name(&mut self, name: Option<String>)
        ensures
            *final(self) == (Junction { name, ..*old(self) }),
    {
        self.name = name;
    }

    pub fn get_id(&self) -> (r: usize)
        ensures
            r == self.id,
    {
        self.id
    }

    pub fn get_elevation(&self) -> (r: u64)
        ensures
            r == self.elevation,
    {
        self.elevation
    }

    pub fn get_head(&self) -> (r: Option<u64>)
        ensures
            r == self.head,
    {
        self.head
    }

    pub fn node_type(&self) -> (r: NodeType)
        ensures
            r == NodeType::Junction,
    {
        NodeType::Junction
    }

    /// Pressure head: the computed head minus the elevation, if a head has
    /// been computed.
    pub fn pressure(&self) -> (r: Option<u64>)
        ensures
            r == match self.head {
                Some(h) => Some(sub_bits(h, self.elevation)),
                None => None::<u64>,
            },
    {
        match self.head {
            Some(h) => Some(fp_sub(h, self.elevation)),
            None => None,
        }
    }
}

impl Default for Junction {
    /// Junction 0 at zero elevation with zero demand.
    fn default() -> (r: Self)
        ensures
            r.id == 0,
            r.elevation == FP_ZERO,
            r.demand == FP_ZERO,
            r.head is None,
    {
        Junction::new(0, FP_ZERO, FP_ZERO)
    }
}

pub struct JunctionBuilder {
    pub id: usize,
    pub position: Position,
    pub elevation: u64,
    pub demand: u64,
    pub pattern: Option<usize>,
    pub name: Option<String>,
    pub head: Option<u64>,
}

impl JunctionBuilder {
    pub fn new() -> (r: Self)
        ensures
            r.id == 0,
            r.elevation == FP_ZERO,
            r.demand == FP_ZERO,
            r.pattern is None,
            r.name is None,
            r.head is None,
            r.position == (Position { x: 0u32, y: 0u32 }),
    {
        JunctionBuilder {
            id: 0,
            position: Position::default(),
            elevation: FP_ZERO,
            demand: FP_ZERO,
            pattern: None,
            name: None,
            head: None,
        }
    }

    pub fn set_id(self, id: usize) -> (r: Self)
        ensures
            r == (JunctionBuilder { id, ..self }),
    {
        JunctionBuilder { id, ..self }
    }

    pub fn set_position(self, pos: Position) -> (r: Self)
        ensures
            r == (JunctionBuilder { position: pos, ..self }),
    {
        JunctionBuilder { position: pos, ..self }
    }

    pub fn set_elevation(self, elevation: u64) -> (r: Self)
        ensures
            r == (JunctionBuilder { elevation, ..self }),
    {
        JunctionBuilder { elevation, ..self }
    }

    pub fn set_demand(self, demand: u64) -> (r: Self)
        ensures
            r == (JunctionBuilder { demand, ..self }),
    {
        JunctionBuilder { demand, ..self }
    }

    pub fn set_pattern(self, pattern: Option<usize>) -> (r: Self)
        ensures
            r == (JunctionBuilder { pattern, ..self }),
    {
        JunctionBuilder { pattern, ..self }
    }

    pub fn set_name(self, name: &str) -> (r: Self)
        ensures
            r.id == self.id,
            r.position == self.position,
            r.elevation == self.elevation,
            r.demand == self.demand,
            r.pattern == self.pattern,
            r.head == self.head,
            r.name is Some,
    {
        JunctionBuilder { name: Some(name.to_string()), ..self }
    }

    pub fn build(self) -> (r: Junction)
        ensures
            r.id == self.id,
            r.position == self.position,
            r.elevation == self.elevation,
            r.demand == self.demand,
            r.pattern == self.pattern,
            r.name == self.name,
            r.head == self.head,
    {
        Junction {
            id: self.id,
            position: self.position,
            name: self.name,
            elevation: self.elevation,
            demand: self.demand,
            head: self.head,
            pattern: self.pattern,
        }
    }
}

/// A fixed-head node whose head is its elevation plus the initial water
/// level.
#[derive(Debug, Clone)]
pub struct Tank {
    pub id: usize,
    pub position: Position,
    pub name: Option<String>,
    /// elevation in m
    pub elevation: u64,
    /// initial water level in m
    pub initial_level: u64,
}

impl Tank {
    pub fn new(id: usize, elevation: u64, initial_level: u64) -> (r: Self)
        ensures
            r.id == id,
            r.elevation == elevation,
            r.initial_level == initial_level,
            r.name is None,
            r.position == (Position { x: 0u32, y: 0u32 }),
    {
        Tank { id, position: Position::default(), elevation, initial_level, name: None }
    }

    /// The piezometric head of a tank: elevation plus initial level.
    pub fn head(&self) -> (r: u64)
        ensures
            r == add_bits(self.elevation, self.initial_level),
    {
        fp_add(self.elevation, self.initial_level)
    }

    pub fn get_id(&self) -> (r: usize)
        ensures
            r == self.id,
    {
        self.id
    }

    pub fn node_type(&self) -> (r: NodeType)
        ensures
            r == NodeType::Tank,
    {
        NodeType::Tank
    }
}

pub struct TankBuilder {
    pub id: usize,
    pub position: Position,
    pub name: Option<String>,
    pub elevation: u64,
    pub initial_level: u64,
}

impl TankBuilder {
    pub fn new() -> (r: Self)
        ensures
            r.id == 0,
            r.elevation == FP_ZERO,
            r.initial_level == FP_ZERO,
            r.name is None,
            r.position == (Position { x: 0u32, y: 0u32 }),
    {
        TankBuilder {
            id: 0,
            position: Position::default(),
            name: None,
            elevation: FP_ZERO,
            initial_level: FP_ZERO,
        }
    }

    pub fn set_id(self, id: usize) -> (r: Self)
        ensures
            r == (TankBuilder { id, ..self }),
    {
        TankBuilder { id, ..self }
    }

    pub fn set_position(self, pos: Position) -> (r: Self)
        ensures
            r == (TankBuilder { position: pos, ..self }),
    {
        TankBuilder { position: pos, ..self }
    }

    pub fn set_name(self, name: &str) -> (r: Self)
        ensures
            r.id == self.id,
            r.position == self.position,
            r.elevation == self.elevation,
            r.initial_level == self.initial_level,
            r.name is Some,
    {
        TankBuilder { name: Some(name.to_string()), ..self }
    }

    pub fn set_elevation(self, elevation: u64) -> (r: Self)
        ensures
            r == (TankBuilder { elevation, ..self }),
    {
        TankBuilder { elevation, ..self }
    }

    pub fn set_initial_level(self, initial_level: u64) -> (r: Self)
        ensures
            r == (TankBuilder { initial_level, ..self }),
    {
        TankBuilder { initial_level, ..self }
    }

    pub fn build(self) -> (r: Tank)
        ensures
            r.id == self.id,
            r.position == self.position,
            r.name == self.name,
            r.elevation == self.elevation,
            r.initial_level == self.initial_level,
    {
        Tank {
            id: self.id,
            position: self.position,
            name: self.name,
            elevation: self.elevation,
            initial_level: self.initial_level,
        }
    }
}

/// A fixed-head node whose head is given directly.
#[derive(Debug, Clone)]
pub struct Reservoir {
    pub id: usize,
    pub position: Position,
    pub name: Option<String>,
    /// piezometric head in m
    pub head: u64,
    pub pattern: Option<String>,
    pub flow_unit: FlowUnits,
}

impl Reservoir {
    pub fn get_id(&self) -> (r: usize)
        ensures
            r == self.id,
    {
        self.id
    }

    pub fn node_type(&self) -> (r: NodeType)
        ensures
            r == NodeType::Reservoir,
    {
        NodeType::Reservoir
    }

    pub fn set_flow_unit(&mut self, flow_unit: FlowUnits)
        ensures
            *final(self) == (Reservoir { flow_unit, ..*old(self) }),
    {
        self.flow_unit = flow_unit;
    }

    pub fn get_flow_unit(&self) -> (r: FlowUnits)
        ensures
            r == self.flow_unit,
    {
        self.flow_unit
    }
}

impl Default for Reservoir {
    /// Reservoir 0 with zero head in the default unit.
    fn default() -> (r: Self)
        ensures
            r.id == 0,
            r.head == FP_ZERO,
            r.name is None,
            r.pattern is None,
            r.flow_unit == FlowUnits::Cms,
    {
        Reservoir {
            id: 0,
            position: Position::default(),
            name: None,
            head: FP_ZERO,
            pattern: None,
            flow_unit: FlowUnits::Cms,
        }
    }
}

pub struct ReservoirBuilder {
    pub id: usize,
    pub position: Position,
    pub name: Option<String>,
    pub head: u64,
    pub pattern: Option<String>,
    pub flow_unit: FlowUnits,
}

impl ReservoirBuilder {
    pub fn new() -> (r: Self)
        ensures
            r.id == 0,
            r.head == FP_ZERO,
            r.name is None,
            r.pattern is None,
            r.flow_unit == FlowUnits::Cms,
            r.position == (Position { x: 0u32, y: 0u32 }),
    {
        ReservoirBuilder {
            id: 0,
            position: Position::default(),
            name: None,
            head: FP_ZERO,
            pattern: None,
            flow_unit: FlowUnits::Cms,
        }
    }

    pub fn set_id(self, id: usize) -> (r: Self)
        ensures
            r == (ReservoirBuilder { id, ..self }),
    {
        ReservoirBuilder { id, ..self }
    }

    pub fn set_position(self, pos: Position) -> (r: Self)
        ensures
            r == (ReservoirBuilder { position: pos, ..self }),
    {
        ReservoirBuilder { position: pos, ..self }
    }

    pub fn set_head(self, head: u64) -> (r: Self)
        ensures
            r == (ReservoirBuilder { head, ..self }),
    {
        ReservoirBuilder { head, ..self }
    }

    pub fn set_name(self, name: &str) -> (r: Self)
        ensures
            r.id == self.id,
            r.position == self.position,
            r.head == self.head,
            r.pattern == self.pattern,
            r.flow_unit == self.flow_unit,
            r.name is Some,
    {
        ReservoirBuilder { name: Some(name.to_string()), ..self }
    }

    pub fn set_pattern(self, pattern: Option<String>) -> (r: Self)
        ensures
            r == (ReservoirBuilder { pattern, ..self }),
    {
        ReservoirBuilder { pattern, ..self }
    }

    pub fn set_flow_unit(self, flow_unit: FlowUnits) -> (r: Self)
        ensures
            r == (ReservoirBuilder { flow_unit, ..self }),
    {
        ReservoirBuilder { flow_unit, ..self }
    }

    pub fn build(self) -> (r: Reservoir)
        ensures
            r.id == self.id,
            r.position == self.position,
            r.name == self.name,
            r.head == self.head,
            r.pattern == self.pattern,
            r.flow_unit == self.flow_unit,
    {
        Reservoir {
            id: self.id,
            position: self.position,
            name: self.name,
            head: self.head,
            pattern: self.pattern,
            flow_unit: self.flow_unit,
        }
    }
}

} // verus!
