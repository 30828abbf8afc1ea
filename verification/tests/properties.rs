//! Cross-cutting properties of the analysis: unit invariance, sign
//! symmetry, idempotent write-back, and the behaviour of the reported
//! error.

use wdnsolver::{
    FlowUnits, Junction, JunctionBuilder, LinkStatus, Network, NetworkBuilder, OptionsBuilder,
    Pipe, PipeBuilder, Solver, Tank, TankBuilder,
};

fn b(x: f64) -> u64 {
    x.to_bits()
}

fn f(x: u64) -> f64 {
    f64::from_bits(x)
}

fn junction(id: usize, elevation: f64, demand: f64) -> Junction {
    JunctionBuilder::new()
        .set_id(id)
        .set_elevation(b(elevation))
        .set_demand(b(demand))
        .build()
}

fn tank(id: usize, elevation: f64, level: f64) -> Tank {
    TankBuilder::new()
        .set_id(id)
        .set_elevation(b(elevation))
        .set_initial_level(b(level))
        .build()
}

fn pipe(id: usize, start: usize, end: usize, diameter: f64) -> Pipe {
    PipeBuilder::new()
        .set_id(id)
        .set_start(start)
        .set_end(end)
        .set_length(b(100.0))
        .set_diameter(b(diameter))
        .set_roughness(b(130.0))
        .set_status(LinkStatus::Open)
        .build()
}

fn triangle(unit: FlowUnits, d1: f64, d2: f64) -> Network {
    let options = OptionsBuilder::new().set_flow_unit(unit).build();
    NetworkBuilder::new()
        .set_junctions(Some(vec![junction(1, 0.0, d1), junction(2, 0.0, d2)]))
        .set_tanks(Some(vec![tank(0, 100.0, 0.0)]))
        .set_pipes(Some(vec![
            pipe(1, 0, 1, 100.0),
            pipe(2, 1, 2, 100.0),
            pipe(3, 0, 2, 100.0),
        ]))
        .set_options(options)
        .build()
}

fn heads_of(net: &Network) -> Vec<f64> {
    net.junctions.as_ref().unwrap().iter().map(|j| f(j.head.unwrap())).collect()
}

fn flows_of(net: &Network) -> Vec<f64> {
    net.pipes.as_ref().unwrap().iter().map(|p| f(p.flow.unwrap())).collect()
}

/// Unit invariance: the same physical network expressed in m3/s and in
/// L/s (demands chosen so the unit conversion is exact) yields the same
/// heads and flows related exactly by the unit ratio.
#[test]
fn unit_invariance_cms_vs_lps() {
    let mut cms = Solver::new(triangle(FlowUnits::Cms, 0.016, 0.008), None);
    cms.compute().unwrap();
    let mut lps = Solver::new(triangle(FlowUnits::Lps, 16.0, 8.0), None);
    lps.compute().unwrap();

    let hc = heads_of(&cms.network);
    let hl = heads_of(&lps.network);
    for (a, c) in hl.iter().zip(hc.iter()) {
        assert!((a - c).abs() <= 1e-9, "heads differ: {a} vs {c}");
    }
    let qc = flows_of(&cms.network);
    let ql = flows_of(&lps.network);
    for (a, c) in ql.iter().zip(qc.iter()) {
        assert!(
            (a - 1000.0 * c).abs() <= 1e-12 * a.abs().max(1e-30),
            "flows not in unit ratio: {a} vs {c}"
        );
    }
}

/// Sign symmetry: swapping one pipe's endpoints flips the sign of its
/// computed flow and leaves every head and every other flow unchanged.
#[test]
fn swapping_a_pipe_negates_its_flow() {
    let mut base = Solver::new(triangle(FlowUnits::Cms, 0.02, 0.01), None);
    base.compute().unwrap();

    let mut swapped_net = triangle(FlowUnits::Cms, 0.02, 0.01);
    {
        let ps = swapped_net.pipes.as_mut().unwrap();
        let s = ps[1].start;
        ps[1].start = ps[1].end;
        ps[1].end = s;
    }
    let mut swapped = Solver::new(swapped_net, None);
    swapped.compute().unwrap();

    let hb = heads_of(&base.network);
    let hs = heads_of(&swapped.network);
    for (a, c) in hs.iter().zip(hb.iter()) {
        assert_eq!(a, c, "heads changed under endpoint swap");
    }
    let qb = flows_of(&base.network);
    let qs = flows_of(&swapped.network);
    assert_eq!(qs[0], qb[0]);
    assert_eq!(qs[1], -qb[1]);
    assert_eq!(qs[2], qb[2]);
}

/// Idempotence of the write-back: a second `compute` on the same solver
/// reproduces the identical heads, flows, errors and iteration count.
#[test]
fn recompute_reproduces_results_exactly() {
    let mut solver = Solver::new(triangle(FlowUnits::Cms, 0.02, 0.01), None);
    solver.compute().unwrap();
    let h1: Vec<u64> = solver.network.junctions.as_ref().unwrap().iter().map(|j| j.head.unwrap()).collect();
    let q1: Vec<u64> = solver.network.pipes.as_ref().unwrap().iter().map(|p| p.flow.unwrap()).collect();
    let i1 = solver.get_final_iterations().unwrap();
    let e1 = solver.get_final_errors().unwrap();

    solver.compute().unwrap();
    let h2: Vec<u64> = solver.network.junctions.as_ref().unwrap().iter().map(|j| j.head.unwrap()).collect();
    let q2: Vec<u64> = solver.network.pipes.as_ref().unwrap().iter().map(|p| p.flow.unwrap()).collect();
    assert_eq!(h1, h2, "heads changed on recompute");
    assert_eq!(q1, q2, "flows changed on recompute");
    assert_eq!(i1, solver.get_final_iterations().unwrap());
    assert_eq!(e1, solver.get_final_errors().unwrap());
}

/// The flow error reported at convergence is at or below the stopping
/// criterion, and tightening the criterion never takes fewer iterations:
/// the observable trace of an error that shrinks from one iteration to
/// the next.
#[test]
fn reported_error_meets_the_tightening_objective() {
    let mut last_iterations = 0;
    for objective in [1e-2, 1e-3, 1e-4] {
        let mut solver = Solver::new(triangle(FlowUnits::Cms, 0.02, 0.01), Some(b(objective)));
        solver.compute().unwrap();
        let iterations = solver.get_final_iterations().unwrap();
        let (erq, erh) = solver.get_final_errors().unwrap();
        if iterations < 20 {
            assert!(f(erq) <= objective, "flow error {} above {objective}", f(erq));
            assert!(f(erh) <= objective, "head error {} above {objective}", f(erh));
        }
        assert!(
            iterations >= last_iterations,
            "tightening the objective took fewer iterations"
        );
        last_iterations = iterations;
    }
}

/// Incidence accounting at the fixed-head boundary: what the tank
/// supplies equals the junctions' total demand.
#[test]
fn tank_outflow_covers_total_demand() {
    let mut solver = Solver::new(triangle(FlowUnits::Cms, 0.02, 0.01), None);
    solver.compute().unwrap();
    let mut tank_out = 0.0;
    for p in solver.network.pipes.as_ref().unwrap() {
        let q = f(p.flow.unwrap());
        if p.start == 0 {
            tank_out += q;
        }
        if p.end == 0 {
            tank_out -= q;
        }
    }
    assert!((tank_out - 0.03).abs() < 1e-3);
}
