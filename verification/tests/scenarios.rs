//! End-to-end analyses of small benchmark networks: mass balance, energy
//! balance, pump behaviour, closed pipes and error reporting.

use wdnsolver::{
    FlowUnits, HeadlossFormula, Junction, JunctionBuilder, LinkStatus, Network, NetworkBuilder,
    OptionsBuilder, Pipe, PipeBuilder, PumpBuilder, SolveError, Solver, Tank, TankBuilder,
};

fn b(x: f64) -> u64 {
    x.to_bits()
}

fn f(x: u64) -> f64 {
    f64::from_bits(x)
}

fn junction(id: usize, elevation: f64, demand: f64) -> Junction {
    JunctionBuilder::new()
        .set_id(id)
        .set_elevation(b(elevation))
        .set_demand(b(demand))
        .build()
}

fn tank(id: usize, elevation: f64, level: f64) -> Tank {
    TankBuilder::new()
        .set_id(id)
        .set_elevation(b(elevation))
        .set_initial_level(b(level))
        .build()
}

fn pipe(id: usize, start: usize, end: usize, length: f64, diameter: f64, roughness: f64) -> Pipe {
    PipeBuilder::new()
        .set_id(id)
        .set_start(start)
        .set_end(end)
        .set_length(b(length))
        .set_diameter(b(diameter))
        .set_roughness(b(roughness))
        .set_minorloss(b(0.0))
        .set_status(LinkStatus::Open)
        .set_check_valve(false)
        .build()
}

/// One tank at 100 m feeding two junctions through three identical pipes
/// forming a triangle.
fn triangle_network() -> Network {
    let ts = vec![tank(0, 100.0, 0.0)];
    let js = vec![junction(1, 0.0, 0.02), junction(2, 0.0, 0.01)];
    let ps = vec![
        pipe(1, 0, 1, 100.0, 100.0, 130.0),
        pipe(2, 1, 2, 100.0, 100.0, 130.0),
        pipe(3, 0, 2, 100.0, 100.0, 130.0),
    ];
    NetworkBuilder::new()
        .set_junctions(Some(js))
        .set_tanks(Some(ts))
        .set_pipes(Some(ps))
        .build()
}

/// Four junctions in series fed by one tank at 100 m (Todini's first
/// example network), demands in m3/h converted to m3/s, diameters in mm.
fn todini1_network() -> Network {
    let ts = vec![tank(1, 100.0, 0.0)];
    let js = vec![
        junction(2, 90.0, 77.26 / 3600.0),
        junction(3, 88.0, 76.63 / 3600.0),
        junction(4, 90.0, 75.80 / 3600.0),
        junction(5, 85.0, 145.46 / 3600.0),
    ];
    let ps = vec![
        pipe(1, 1, 2, 1000.0, 400.0, 130.0),
        pipe(2, 2, 3, 1000.0, 350.0, 130.0),
        pipe(3, 3, 4, 1000.0, 300.0, 130.0),
        pipe(4, 4, 5, 1000.0, 300.0, 130.0),
    ];
    NetworkBuilder::new()
        .set_junctions(Some(js))
        .set_tanks(Some(ts))
        .set_pipes(Some(ps))
        .build()
}

/// One tank, four junctions and six pipes forming a loop, demands in
/// m3/h (Todini's second example network).
fn todini2_network() -> Network {
    let ts = vec![tank(1, 20.0, 0.0)];
    let js = vec![
        junction(2, 0.0, 300.74),
        junction(3, 0.0, 207.58),
        junction(4, 0.0, 296.86),
        junction(5, 0.0, 205.74),
    ];
    let ps = vec![
        pipe(1, 1, 2, 500.0, 300.0, 145.0),
        pipe(2, 2, 3, 500.0, 300.0, 145.0),
        pipe(3, 2, 4, 500.0, 300.0, 145.0),
        pipe(4, 2, 5, 500.0, 300.0, 145.0),
        pipe(5, 3, 5, 500.0, 300.0, 145.0),
        pipe(6, 4, 5, 500.0, 300.0, 145.0),
    ];
    let options = OptionsBuilder::new()
        .set_flow_unit(FlowUnits::Cmh)
        .set_headlossformula(HeadlossFormula::Hw)
        .build();
    NetworkBuilder::new()
        .set_junctions(Some(js))
        .set_tanks(Some(ts))
        .set_pipes(Some(ps))
        .set_options(options)
        .build()
}

/// Three pipes in a triangle plus one pump from a second tank into
/// junction 2, with curve H = 10 Q^2 - 20 Q + 50.
fn pump_network() -> Network {
    let ts = vec![tank(0, 50.0, 0.0), tank(3, 50.0, 0.0)];
    let js = vec![junction(1, 0.0, 0.1), junction(2, 0.0, 0.1)];
    let ps = vec![
        pipe(1, 0, 1, 100.0, 100.0, 130.0),
        pipe(2, 1, 2, 100.0, 100.0, 130.0),
        pipe(3, 0, 2, 100.0, 100.0, 130.0),
    ];
    let pump = PumpBuilder::new()
        .set_id(4)
        .set_start(3)
        .set_end(2)
        .set_alpha(b(10.0))
        .set_beta(b(-20.0))
        .set_gamma(b(50.0))
        .set_status(LinkStatus::Open)
        .build();
    NetworkBuilder::new()
        .set_junctions(Some(js))
        .set_tanks(Some(ts))
        .set_pipes(Some(ps))
        .set_pumps(Some(vec![pump]))
        .build()
}

/// One reservoir at 210 m, six junctions and eight pipes forming two
/// loops, demands in m3/h.
fn two_loop_network() -> Network {
    let ts = vec![tank(1, 210.0, 0.0)];
    let js = vec![
        junction(2, 150.0, 100.0),
        junction(3, 160.0, 100.0),
        junction(4, 155.0, 120.0),
        junction(5, 150.0, 270.0),
        junction(6, 165.0, 330.0),
        junction(7, 160.0, 200.0),
    ];
    let ps = vec![
        pipe(1, 1, 2, 1000.0, 457.2, 130.0),
        pipe(2, 2, 3, 1000.0, 254.0, 130.0),
        pipe(3, 2, 4, 1000.0, 406.4, 130.0),
        pipe(4, 4, 5, 1000.0, 101.6, 130.0),
        pipe(5, 4, 6, 1000.0, 406.4, 130.0),
        pipe(6, 6, 7, 1000.0, 254.0, 130.0),
        pipe(7, 3, 5, 1000.0, 254.0, 130.0),
        pipe(8, 7, 5, 1000.0, 25.4, 130.0),
    ];
    let options = OptionsBuilder::new()
        .set_flow_unit(FlowUnits::Cmh)
        .set_headlossformula(HeadlossFormula::Hw)
        .build();
    NetworkBuilder::new()
        .set_junctions(Some(js))
        .set_tanks(Some(ts))
        .set_pipes(Some(ps))
        .set_options(options)
        .build()
}

/// The signed flow each junction receives from a link: positive into the
/// node at the link's end, negative out of the node at its start.
fn net_inflow(net: &Network, junction_id: usize) -> f64 {
    let mut total = 0.0;
    if let Some(pipes) = &net.pipes {
        for p in pipes {
            let q = f(p.flow.unwrap());
            if p.end == junction_id {
                total += q;
            }
            if p.start == junction_id {
                total -= q;
            }
        }
    }
    if let Some(pumps) = &net.pumps {
        for p in pumps {
            let q = f(p.flow.unwrap());
            if p.end == junction_id {
                total += q;
            }
            if p.start == junction_id {
                total -= q;
            }
        }
    }
    total
}

#[test]
fn triangle_mass_balance_and_head_drop() {
    let mut solver = Solver::new(triangle_network(), None);
    solver.compute().unwrap();
    assert!(solver.get_time_analysis().is_some());
    let net = &solver.network;
    let junctions = net.junctions.as_ref().unwrap();
    for j in junctions {
        let demand = f(j.demand);
        let head = f(j.head.unwrap());
        assert!((net_inflow(net, j.id) - demand).abs() < 1e-3);
        assert!(head < 100.0, "head {head} not below the tank level");
    }
}

#[test]
fn todini1_converges_with_ordered_heads() {
    let mut solver = Solver::new(todini1_network(), None);
    solver.compute().unwrap();
    let iterations = solver.get_final_iterations().unwrap();
    assert!(iterations <= 20);
    let (erq, _erh) = solver.get_final_errors().unwrap();
    assert!(f(erq) <= 1e-3, "flow error {} too large", f(erq));
    let junctions = solver.network.junctions.as_ref().unwrap();
    let heads: Vec<f64> = junctions.iter().map(|j| f(j.head.unwrap())).collect();
    assert!(heads[3] < heads[2]);
    assert!(heads[2] < heads[1]);
    assert!(heads[1] < heads[0]);
    assert!(heads[0] < 100.0);
}

#[test]
fn todini2_mass_balance_in_user_units() {
    let mut solver = Solver::new(todini2_network(), None);
    solver.compute().unwrap();
    let net = &solver.network;
    let junctions = net.junctions.as_ref().unwrap();
    for j in junctions {
        let demand = f(j.demand);
        let inflow = net_inflow(net, j.id);
        assert!(
            (inflow - demand).abs() < 1e-3,
            "junction {}: inflow {} vs demand {}",
            j.id,
            inflow,
            demand
        );
    }
}

#[test]
fn pump_delivers_on_its_curve() {
    let mut solver = Solver::new(pump_network(), None);
    // A fine discretization, so the linearized pump curve tracks the
    // quadratic one closely at the converged flow.
    solver.set_m_parameter(b(1000.0));
    solver.compute().unwrap();
    let net = &solver.network;
    let q = f(net.pumps.as_ref().unwrap()[0].flow.unwrap());
    assert!(q > 0.0, "pump flow {q} not positive");
    // The pump runs from tank 3 (head 50 m) into junction 2: the head it
    // adds equals its curve at the solved flow.
    let h2 = f(
        net.junctions.as_ref().unwrap().iter().find(|j| j.id == 2).unwrap().head.unwrap(),
    );
    let curve = 10.0 * q * q - 20.0 * q + 50.0;
    let delta_h = h2 - 50.0;
    assert!(
        (delta_h - curve).abs() < 1e-4,
        "pump head rise {delta_h} vs curve {curve}"
    );
}

#[test]
fn closed_pipe_carries_no_flow() {
    let mut net = triangle_network();
    net.pipes.as_mut().unwrap()[1].status = LinkStatus::Closed;
    let mut solver = Solver::new(net, None);
    solver.compute().unwrap();
    let iterations = solver.get_final_iterations().unwrap();
    assert!(iterations <= 20);
    let pipes = solver.network.pipes.as_ref().unwrap();
    assert!(f(pipes[1].flow.unwrap()).abs() < 1e-10);
    // The rest of the system still balances.
    for j in solver.network.junctions.as_ref().unwrap() {
        assert!((net_inflow(&solver.network, j.id) - f(j.demand)).abs() < 1e-3);
    }
}

#[test]
fn two_loop_energy_balance_on_every_pipe() {
    let mut solver = Solver::new(two_loop_network(), Some(b(0.00001)));
    solver.set_m_parameter(b(1000.0));
    solver.compute().unwrap();
    assert!(solver.get_final_iterations().unwrap() <= 20);
    let net = &solver.network;
    let head_of = |id: usize| -> f64 {
        if id == 1 {
            210.0
        } else {
            f(net.junctions.as_ref().unwrap().iter().find(|j| j.id == id).unwrap().head.unwrap())
        }
    };
    // The converged state satisfies the piecewise-linearized head-loss
    // law; it tracks the true law wherever the flow is well above one
    // discretization segment.
    let total_demand_si = (100.0 + 100.0 + 120.0 + 270.0 + 330.0 + 200.0) / 3600.0;
    let deltaq = total_demand_si / 1000.0;
    for p in net.pipes.as_ref().unwrap() {
        let q_si = f(p.flow.unwrap()) / 3600.0;
        if q_si.abs() < 10.0 * deltaq {
            continue;
        }
        let r = 10.65 * f(p.length)
            / (f(p.roughness).powf(1.852) * (f(p.diameter) * 0.001).powf(4.8704));
        let loss = q_si.signum() * r * q_si.abs().powf(1.852);
        let dh = head_of(p.start) - head_of(p.end);
        assert!(
            (dh - loss).abs() < 2e-2_f64.max(2e-2 * loss.abs()),
            "pipe {}: head difference {dh} vs head loss {loss}",
            p.id
        );
    }
}

#[test]
fn valve_network_balances() {
    // Tank 0 feeds junction 1 by a pipe; a throttle-control valve with
    // law R(Q) = k*Q passes the water on to junction 2.
    let valve = wdnsolver::ValveBuilder::new()
        .set_id(2)
        .set_start(1)
        .set_end(2)
        .set_k_value(b(200.0))
        .set_valve_type(wdnsolver::ValveType::TCV)
        .build();
    let net = NetworkBuilder::new()
        .set_junctions(Some(vec![junction(1, 0.0, 0.01), junction(2, 0.0, 0.02)]))
        .set_tanks(Some(vec![tank(0, 100.0, 0.0)]))
        .set_pipes(Some(vec![pipe(1, 0, 1, 100.0, 100.0, 130.0)]))
        .set_valves(Some(vec![valve]))
        .build();
    let mut solver = Solver::new(net, None);
    solver.compute().unwrap();
    assert!(solver.get_final_iterations().unwrap() <= 20);
    let w = &solver.network;
    // All demand passes the pipe; junction 2's share passes the valve.
    let qp = f(w.pipes.as_ref().unwrap()[0].flow.unwrap());
    let qv = f(w.valves.as_ref().unwrap()[0].flow.unwrap());
    assert!((qp - 0.03).abs() < 1e-3, "pipe flow {qp}");
    assert!((qv - 0.02).abs() < 1e-3, "valve flow {qv}");
}

#[test]
fn degenerate_networks_are_rejected() {
    let one_junction = NetworkBuilder::new()
        .set_junctions(Some(vec![junction(1, 0.0, 0.01)]))
        .set_tanks(Some(vec![tank(0, 10.0, 0.0)]))
        .set_pipes(Some(vec![pipe(1, 0, 1, 100.0, 100.0, 130.0)]))
        .build();
    let mut solver = Solver::new(one_junction, None);
    assert_eq!(solver.compute(), Err(SolveError::TooFewJunctions));

    let no_links = NetworkBuilder::new()
        .set_junctions(Some(vec![junction(1, 0.0, 0.01), junction(2, 0.0, 0.01)]))
        .set_tanks(Some(vec![tank(0, 10.0, 0.0)]))
        .build();
    let mut solver = Solver::new(no_links, None);
    assert_eq!(solver.compute(), Err(SolveError::NoLinks));
}

#[test]
fn isolated_loop_is_singular() {
    // Two junctions joined by one pipe, with no fixed-head node at all:
    // the head system is translation invariant, so Gauss-Jordan meets a
    // zero pivot.
    let net = NetworkBuilder::new()
        .set_junctions(Some(vec![junction(1, 0.0, 0.01), junction(2, 0.0, 0.01)]))
        .set_pipes(Some(vec![pipe(1, 1, 2, 100.0, 100.0, 130.0)]))
        .build();
    let mut solver = Solver::new(net, None);
    assert_eq!(solver.compute(), Err(SolveError::SingularSystem));
}
