//! The aggregate network: junctions, tanks, reservoirs, pipes, pumps,
//! valves and options.

use vstd::prelude::*;
use crate::link::{Pipe, Pump, Valve, pipe_resistance_bits};
use crate::node::{Junction, Tank, Reservoir};
use crate::options::{Options, FlowUnits, default_options};

verus! {

/// A water distribution network. Built once by a parser or by the
/// builder; the solver writes junction heads and link flows back into it.
#[derive(Debug, Clone)]
pub struct Network {
    pub title: Option<String>,
    pub junctions: Option<Vec<Junction>>,
    pub tanks: Option<Vec<Tank>>,
    pub reservoirs: Option<Vec<Reservoir>>,
    pub pipes: Option<Vec<Pipe>>,
    pub pumps: Option<Vec<Pump>>,
    pub valves: Option<Vec<Valve>>,
    pub options: Options,
}

impl Network {
    /// The Hazen-Williams resistance of every pipe, in declaration order.
    pub fn get_pipes_resistances(&self) -> (r: Option<Vec<u64>>)
        ensures
            match r {
                Some(rs) => self.pipes is Some && rs@.len() == self.pipes->0@.len() && (forall|
                    i: int,
                |
                    0 <= i < rs@.len() ==> rs@[i] == pipe_resistance_bits(#[trigger] self.pipes->0@[i])),
                None => self.pipes is None,
            },
    {
        match &self.pipes {
            Some(pipes) => {
                let mut rs: Vec<u64> = Vec::new();
                let mut j: usize = 0;
                while j < pipes.len()
                    invariant
                        j <= pipes.len(),
                        rs@.len() == j,
                        forall|i: int|
                            0 <= i < j ==> rs@[i] == pipe_resistance_bits(#[trigger] pipes@[i]),
                    decreases pipes.len() - j,
                {
                    let v = pipes[j].resistance();
                    rs.push(v);
                    j = j + 1;
                }
                Some(rs)
            },
            None => None,
        }
    }

    /// Overwrites every pipe's diameter with the matching entry of
    /// `diameters`, which must cover all pipes.
    pub fn update_pipes_diameters(&mut self, diameters: &Vec<u64>)
        requires
            old(self).pipes is Some ==> diameters@.len() >= old(self).pipes->0@.len(),
        ensures
            final(self).title == old(self).title,
            final(self).junctions == old(self).junctions,
            final(self).tanks == old(self).tanks,
            final(self).reservoirs == old(self).reservoirs,
            final(self).pumps == old(self).pumps,
            final(self).valves == old(self).valves,
            final(self).options == old(self).options,
            old(self).pipes is None ==> final(self).pipes == old(self).pipes,
            old(self).pipes is Some ==> final(self).pipes is Some
                && final(self).pipes->0@.len() == old(self).pipes->0@.len() && (forall|i: int|
                0 <= i < old(self).pipes->0@.len() ==> #[trigger] final(self).pipes->0@[i] == (Pipe {
                    diameter: diameters@[i],
                    ..old(self).pipes->0@[i]
                })),
    {
        let pipes = self.pipes.take();
        match pipes {
            None => {
                self.pipes = None;
            },
            Some(mut rest) => {
                let ghost orig = rest@;
                let total = rest.len();
                let mut out: Vec<Pipe> = Vec::new();
                let mut i: usize = 0;
                while rest.len() > 0
                    invariant
                        orig.len() == total,
                        i + rest@.len() == orig.len(),
                        rest@ == orig.subrange(i as int, orig.len() as int),
                        diameters@.len() >= orig.len(),
                        out@.len() == i,
                        forall|k: int|
                            0 <= k < i ==> #[trigger] out@[k] == (Pipe {
                                diameter: diameters@[k],
                                ..orig[k]
                            }),
                    decreases rest.len(),
                {
                    let mut p = rest.remove(0);
                    p.diameter = diameters[i];
                    out.push(p);
                    i = i + 1;
                }
                self.pipes = Some(out);
            },
        }
    }
}

impl Default for Network {
    /// The empty network with default options.
    fn default() -> (r: Self)
        ensures
            r.title is None,
            r.junctions is None,
            r.tanks is None,
            r.reservoirs is None,
            r.pipes is None,
            r.pumps is None,
            r.valves is None,
            r.options == default_options(),
    {
        Network {
            title: None,
            junctions: None,
            tanks: None,
            reservoirs: None,
            pipes: None,
            pumps: None,
            valves: None,
            options: Options::default(),
        }
    }
}

#[derive(Debug, Clone)]
pub struct NetworkBuilder {
    pub title: Option<String>,
    pub junctions: Option<Vec<Junction>>,
    pub tanks: Option<Vec<Tank>>,
    pub reservoirs: Option<Vec<Reservoir>>,
    pub pipes: Option<Vec<Pipe>>,
    pub pumps: Option<Vec<Pump>>,
    pub valves: Option<Vec<Valve>>,
    pub options: Options,
}

impl NetworkBuilder {
    pub fn new() -> (r: Self)
        ensures
            r.title is None,
            r.junctions is None,
            r.tanks is None,
            r.reservoirs is None,
            r.pipes is None,
            r.pumps is None,
            r.valves is None,
            r.options == default_options(),
    {
        NetworkBuilder {
            title: None,
            junctions: None,
            tanks: None,
            reservoirs: None,
            pipes: None,
            pumps: None,
            valves: None,
            options: Options::default(),
        }
    }

    pub fn set_title(self, title: Option<String>) -> (r: Self)
        ensures
            r == (NetworkBuilder { title, ..self }),
    {
        NetworkBuilder { title, ..self }
    }

    pub fn set_junctions(self, junctions: Option<Vec<Junction>>) -> (r: Self)
        ensures
            r == (NetworkBuilder { junctions, ..self }),
    {
        NetworkBuilder { junctions, ..self }
    }

    pub fn set_tanks(self, tanks: Option<Vec<Tank>>) -> (r: Self)
        ensures
            r == (NetworkBuilder { tanks, ..self }),
    {
        NetworkBuilder { tanks, ..self }
    }

    pub fn set_reservoirs(self, reservoirs: Option<Vec<Reservoir>>) -> (r: Self)
        ensures
            r == (NetworkBuilder { reservoirs, ..self }),
    {
        NetworkBuilder { reservoirs, ..self }
    }

    pub fn set_pipes(self, pipes: Option<Vec<Pipe>>) -> (r: Self)
        ensures
            r == (NetworkBuilder { pipes, ..self }),
    {
        NetworkBuilder { pipes, ..self }
    }

    pub fn set_pumps(self, pumps: Option<Vec<Pump>>) -> (r: Self)
        ensures
            r == (NetworkBuilder { pumps, ..self }),
    {
        NetworkBuilder { pumps, ..self }
    }

    pub fn set_valves(self, valves: Option<Vec<Valve>>) -> (r: Self)
        ensures
            r == (NetworkBuilder { valves, ..self }),
    {
        NetworkBuilder { valves, ..self }
    }

    pub fn set_options(self, options: Options) -> (r: Self)
        ensures
            r == (NetworkBuilder { options, ..self }),
    {
        NetworkBuilder { options, ..self }
    }

    /// Assembles the network and stamps the chosen flow unit onto every
    /// entity that carries one (reservoirs, pipes and pumps).
    pub fn build(self) -> (r: Network)
        ensures
            r.title == self.title,
            r.junctions == self.junctions,
            r.tanks == self.tanks,
            r.valves == self.valves,
            r.options == self.options,
            self.reservoirs is None ==> r.reservoirs is None,
            self.reservoirs is Some ==> r.reservoirs is Some && r.reservoirs->0@.len()
                == self.reservoirs->0@.len() && (forall|i: int|
                0 <= i < self.reservoirs->0@.len() ==> #[trigger] r.reservoirs->0@[i] == (Reservoir {
                    flow_unit: self.options.flow_unit,
                    ..self.reservoirs->0@[i]
                })),
            self.pipes is None ==> r.pipes is None,
            self.pipes is Some ==> r.pipes is Some && r.pipes->0@.len() == self.pipes->0@.len() && (
            forall|i: int|
                0 <= i < self.pipes->0@.len() ==> #[trigger] r.pipes->0@[i] == (Pipe {
                    flow_unit: self.options.flow_unit,
                    ..self.pipes->0@[i]
                })),
            self.pumps is None ==> r.pumps is None,
            self.pumps is Some ==> r.pumps is Some && r.pumps->0@.len() == self.pumps->0@.len() && (
            forall|i: int|
                0 <= i < self.pumps->0@.len() ==> #[trigger] r.pumps->0@[i] == (Pump {
                    flow_unit: self.options.flow_unit,
                    ..self.pumps->0@[i]
                })),
    {
        let unit = self.options.flow_unit;
        let reservoirs = match self.reservoirs {
            None => None,
            Some(v) => Some(stamp_reservoirs(v, unit)),
        };
        let pipes = match self.pipes {
            None => None,
            Some(v) => Some(stamp_pipes(v, unit)),
        };
        let pumps = match self.pumps {
            None => None,
            Some(v) => Some(stamp_pumps(v, unit)),
        };
        Network {
            title: self.title,
            junctions: self.junctions,
            tanks: self.tanks,
            reservoirs,
            pipes,
            pumps,
            valves: self.valves,
            options: self.options,
        }
    }
}

fn stamp_reservoirs(v: Vec<Reservoir>, unit: FlowUnits) -> (r: Vec<Reservoir>)
    ensures
        r@.len() == v@.len(),
        forall|i: int|
            0 <= i < v@.len() ==> #[trigger] r@[i] == (Reservoir { flow_unit: unit, ..v@[i] }),
{
    let mut rest = v;
    let ghost orig = rest@;
    let total = rest.len();
    let mut out: Vec<Reservoir> = Vec::new();
    let mut i: usize = 0;
    while rest.len() > 0
        invariant
            orig.len() == total,
            i + rest@.len() == orig.len(),
            rest@ == orig.subrange(i as int, orig.len() as int),
            out@.len() == i,
            forall|k: int|
                0 <= k < i ==> #[trigger] out@[k] == (Reservoir { flow_unit: unit, ..orig[k] }),
        decreases rest.len(),
    {
        let mut x = rest.remove(0);
        x.flow_unit = unit;
        out.push(x);
        i = i + 1;
    }
    out
}

fn stamp_pipes(v: Vec<Pipe>, unit: FlowUnits) -> (r: Vec<Pipe>)
    ensures
        r@.len() == v@.len(),
        forall|i: int|
            0 <= i < v@.len() ==> #[trigger] r@[i] == (Pipe { flow_unit: unit, ..v@[i] }),
{
    let mut rest = v;
    let ghost orig = rest@;
    let total = rest.len();
    let mut out: Vec<Pipe> = Vec::new();
    let mut i: usize = 0;
    while rest.len() > 0
        invariant
            orig.len() == total,
            i + rest@.len() == orig.len(),
            rest@ == orig.subrange(i as int, orig.len() as int),
            out@.len() == i,
            forall|k: int|
                0 <= k < i ==> #[trigger] out@[k] == (Pipe { flow_unit: unit, ..orig[k] }),
        decreases rest.len(),
    {
        let mut x = rest.remove(0);
        x.flow_unit = unit;
        out.push(x);
        i = i + 1;
    }
    out
}

fn stamp_pumps(v: Vec<Pump>, unit: FlowUnits) -> (r: Vec<Pump>)
    ensures
        r@.len() == v@.len(),
        forall|i: int|
            0 <= i < v@.len() ==> #[trigger] r@[i] == (Pump { flow_unit: unit, ..v@[i] }),
{
    let mut rest = v;
    let ghost orig = rest@;
    let total = rest.len();
    let mut out: Vec<Pump> = Vec::new();
    let mut i: usize = 0;
    while rest.len() > 0
        invariant
            orig.len() == total,
            i + rest@.len() == orig.len(),
            rest@ == orig.subrange(i as int, orig.len() as int),
            out@.len() == i,
            forall|k: int|
                0 <= k < i ==> #[trigger] out@[k] == (Pump { flow_unit: unit, ..orig[k] }),
        decreases rest.len(),
    {
        let mut x = rest.remove(0);
        x.flow_unit = unit;
        out.push(x);
        i = i + 1;
    }
    out
}

pub open spec fn junctions_of(net: Network) -> Seq<Junction> {
    match net.junctions {
        Some(v) => v@,
        None => Seq::empty(),
    }
}

pub open spec fn tanks_of(net: Network) -> Seq<Tank> {
    match net.tanks {
        Some(v) => v@,
        None => Seq::empty(),
    }
}

pub open spec fn reservoirs_of(net: Network) -> Seq<Reservoir> {
    match net.reservoirs {
        Some(v) => v@,
        None => Seq::empty(),
    }
}

pub open spec fn pipes_of(net: Network) -> Seq<Pipe> {
    match net.pipes {
        Some(v) => v@,
        None => Seq::empty(),
    }
}

pub open spec fn pumps_of(net: Network) -> Seq<Pump> {
    match net.pumps {
        Some(v) => v@,
        None => Seq::empty(),
    }
}

pub open spec fn valves_of(net: Network) -> Seq<Valve> {
    match net.valves {
        Some(v) => v@,
        None => Seq::empty(),
    }
}

} // verus!
