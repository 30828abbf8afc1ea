//! Unit-level checks of the network model: conversion factors, resistance
//! laws, builder clamps and defaults. Quantities cross the API as IEEE-754
//! bit patterns.

use wdnsolver::{
    FlowUnits, HeadlossFormula, InpFileParser, Junction, JunctionBuilder, LinkStatus,
    NetworkBuilder, Options, OptionsBuilder, Pipe, PipeBuilder, Position, PumpBuilder, Tank,
    TankBuilder, Unbalanced, ValveBuilder, ValveType,
};
use wdnsolver::options::unit_factor;

fn b(x: f64) -> u64 {
    x.to_bits()
}

fn f(x: u64) -> f64 {
    f64::from_bits(x)
}

/// A power as the solver computes it: a left-to-right product.
fn powi_fold(x: f64, e: u32) -> f64 {
    let mut r = 1.0;
    for _ in 0..e {
        r *= x;
    }
    r
}

fn assert_close(actual: f64, expected: f64, rel: f64) {
    let scale = expected.abs().max(1e-300);
    assert!(
        (actual - expected).abs() <= rel * scale,
        "actual {actual:e}, expected {expected:e}"
    );
}

#[test]
fn unit_factors_match_their_definitions() {
    assert_eq!(f(unit_factor(FlowUnits::Lps)), 0.001);
    assert_eq!(f(unit_factor(FlowUnits::Lpm)), 0.001 / 60.0);
    assert_eq!(f(unit_factor(FlowUnits::Cmh)), 1.0 / 3600.0);
    assert_eq!(f(unit_factor(FlowUnits::Cmd)), 1.0 / (24.0 * 3600.0));
    assert_eq!(f(unit_factor(FlowUnits::Afd)), 0.014276394);
    assert_eq!(f(unit_factor(FlowUnits::Cms)), 1.0);
    assert_eq!(f(unit_factor(FlowUnits::Gpm)), 1.0);
    assert_eq!(f(unit_factor(FlowUnits::Mgd)), 1.0);
}

#[test]
fn tank_head_is_elevation_plus_level() {
    let t: Tank = TankBuilder::new()
        .set_id(7)
        .set_elevation(b(100.0))
        .set_initial_level(b(2.5))
        .build();
    assert_eq!(f(t.head()), 102.5);
}

#[test]
fn junction_pressure_is_head_minus_elevation() {
    let mut j: Junction = Junction::new(1, b(90.0), b(0.01));
    assert_eq!(j.pressure(), None);
    j.head = Some(b(95.25));
    assert_eq!(f(j.pressure().unwrap()), 5.25);
}

#[test]
fn open_pipe_resistance_follows_hazen_williams() {
    // R = 10.65 * L / (C^1.852 * (D*0.001)^4.8704), D stored in mm.
    let p: Pipe = PipeBuilder::new()
        .set_id(1)
        .set_start(0)
        .set_end(1)
        .set_length(b(100.0))
        .set_diameter(b(100.0))
        .set_roughness(b(130.0))
        .build();
    let expected = 10.65 * 100.0 / (130.0f64.powf(1.852) * 0.1f64.powf(4.8704));
    assert_close(f(p.resistance()), expected, 1e-12);
}

#[test]
fn closed_pipe_resistance_is_the_sentinel() {
    let p: Pipe = PipeBuilder::new().set_status(LinkStatus::Closed).build();
    assert_eq!(f(p.resistance()), powi_fold(99.99, 20));
}

#[test]
fn check_valve_blocks_backward_flow() {
    let p: Pipe = PipeBuilder::new()
        .set_length(b(100.0))
        .set_diameter(b(100.0))
        .set_roughness(b(130.0))
        .set_check_valve(true)
        .build();
    assert_eq!(f(p.get_r_of_q(b(-0.01))), powi_fold(99.99, 20));
    let expected = 10.65 * 100.0 / (130.0f64.powf(1.852) * 0.1f64.powf(4.8704));
    assert_close(f(p.get_r_of_q(b(0.01))), expected, 1e-12);
}

#[test]
fn pipe_headloss_and_velocity() {
    let mut p: Pipe = PipeBuilder::new()
        .set_length(b(100.0))
        .set_diameter(b(100.0))
        .set_roughness(b(130.0))
        .build();
    assert_eq!(p.headloss(), None);
    assert_eq!(p.velocity(), None);
    assert_eq!(f(p.unit_headloss()), 0.0000001);
    p.flow = Some(b(0.01));
    let r = 10.65 * 100.0 / (130.0f64.powf(1.852) * 0.1f64.powf(4.8704));
    let hl = r * 0.01f64.powf(1.852);
    assert_close(f(p.headloss().unwrap()), hl, 1e-11);
    assert_close(f(p.unit_headloss()), hl / 100.0, 1e-11);
    let v = 4.0 * 0.01 / (std::f64::consts::PI * 0.1f64.powi(2));
    assert_close(f(p.velocity().unwrap()), v, 1e-12);
}

#[test]
fn pipe_builder_clamps() {
    let pb = PipeBuilder::new()
        .set_length(b(0.25))
        .set_diameter(b(-3.0))
        .set_roughness(b(0.0))
        .set_minorloss(b(-1.0));
    let p = pb.build();
    assert_eq!(f(p.length), 1.0);
    // The diameter floor is 1 mm, in the storage unit.
    assert_eq!(f(p.diameter), 1.0);
    assert_eq!(f(p.roughness), 0.00001);
    assert_eq!(f(p.minor_loss), 0.0);
    let v = ValveBuilder::new().set_diameter(b(0.2)).build();
    assert_eq!(f(v.diameter), 1.0);
}

#[test]
fn pump_curve_ratio_and_sentinels() {
    let pm = PumpBuilder::new()
        .set_alpha(b(10.0))
        .set_beta(b(-20.0))
        .set_gamma(b(50.0))
        .build();
    // alpha*(Q/mult) + beta + gamma*mult/Q
    let expected = 10.0 * 0.05 - 20.0 + 50.0 / 0.05;
    assert_close(f(pm.get_r_of_q0(b(0.05), b(1.0))), expected, 1e-12);

    let closed = PumpBuilder::new().set_status(LinkStatus::Closed).build();
    assert_eq!(f(closed.get_r_of_q0(b(0.05), b(1.0))), powi_fold(10.0, 20));

    // alpha == 0 falls back to the power law with the flow clamped away
    // from zero.
    let mut flat = PumpBuilder::new().build();
    flat.power_rating = b(9.81);
    assert_close(f(flat.get_r_of_q0(b(0.0), b(1.0))), 1.0 / 1e-12, 1e-9);
}

#[test]
fn power_rating_setter_writes_the_constant_coefficient() {
    let pm = PumpBuilder::new().set_power_rating(b(7.5)).build();
    assert_eq!(f(pm.gamma), 7.5);
    assert_eq!(f(pm.power_rating), 0.0);
}

#[test]
fn valve_resistance_law() {
    let v = ValveBuilder::new()
        .set_k_value(b(3.0))
        .set_valve_type(ValveType::TCV)
        .build();
    assert_eq!(f(v.get_rq(b(2.0))), 6.0);
    assert_eq!(f(v.get_rq(b(-2.0))), -6.0);

    let fcv = ValveBuilder::new()
        .set_k_value(b(3.0))
        .set_valve_type(ValveType::FCV)
        .build();
    assert_eq!(f(fcv.get_rq(b(2.0))), 6.0);
    assert_eq!(f(fcv.get_rq(b(-2.0))), powi_fold(10.0, 15));

    let closed = ValveBuilder::new().set_status(LinkStatus::Closed).build();
    assert_eq!(f(closed.get_rq(b(0.0))), powi_fold(10.0, 15));
    assert_eq!(f(closed.get_rq(b(1.0))), powi_fold(10.0, 25));
}

#[test]
fn options_defaults() {
    let d = Options::default();
    assert!(matches!(d.flow_unit, FlowUnits::Cms));
    assert!(matches!(d.headloss_formula, HeadlossFormula::Hw));
    assert_eq!(f(d.viscosity), 1e-7);
    assert_eq!(d.trials, 40);
    assert_eq!(f(d.accuracy), 1e-4);
    assert!(matches!(d.unbalanced, Unbalanced::StopIter));
    assert_eq!(f(d.demand_multiplier), 1.0);
    assert_eq!(f(d.emitter_exponent), 0.5);

    let o = OptionsBuilder::new()
        .set_flow_unit(FlowUnits::Cmh)
        .set_headlossformula(HeadlossFormula::Dw)
        .build();
    assert!(matches!(o.flow_unit, FlowUnits::Cmh));
    assert!(matches!(o.headloss_formula, HeadlossFormula::Dw));
}

#[test]
fn network_builder_stamps_the_flow_unit() {
    let p = PipeBuilder::new().set_id(1).set_start(0).set_end(1).build();
    let net = NetworkBuilder::new()
        .set_pipes(Some(vec![p]))
        .set_options(OptionsBuilder::new().set_flow_unit(FlowUnits::Cmh).build())
        .build();
    assert!(matches!(
        net.pipes.as_ref().unwrap()[0].flow_unit,
        FlowUnits::Cmh
    ));
}

#[test]
fn pipes_resistances_and_diameter_update() {
    let p1 = PipeBuilder::new()
        .set_id(1)
        .set_start(0)
        .set_end(1)
        .set_length(b(100.0))
        .set_diameter(b(100.0))
        .set_roughness(b(130.0))
        .build();
    let mut net = NetworkBuilder::new().set_pipes(Some(vec![p1])).build();
    let rs = net.get_pipes_resistances().unwrap();
    let expected = 10.65 * 100.0 / (130.0f64.powf(1.852) * 0.1f64.powf(4.8704));
    assert_close(f(rs[0]), expected, 1e-12);

    net.update_pipes_diameters(&vec![b(250.0)]);
    assert_eq!(f(net.pipes.as_ref().unwrap()[0].diameter), 250.0);
}

#[test]
fn parser_handle_keeps_its_path() {
    let p = InpFileParser::new(String::from("network.inp"));
    assert_eq!(p.get_path(), "network.inp");
    assert_eq!(p.file_path, "network.inp");
}

#[test]
fn position_round_trip() {
    let p = Position::new(1.5f32.to_bits(), 2.5f32.to_bits());
    assert_eq!(f32::from_bits(p.x), 1.5);
    assert_eq!(f32::from_bits(p.y), 2.5);
    let d = Position::default();
    assert_eq!(f32::from_bits(d.x), 0.0);
}

#[test]
fn junction_builder_round_trip() {
    let j = JunctionBuilder::new()
        .set_id(9)
        .set_elevation(b(12.0))
        .set_demand(b(0.5))
        .set_pattern(Some(3))
        .set_name("east side")
        .build();
    assert_eq!(j.id, 9);
    assert_eq!(f(j.elevation), 12.0);
    assert_eq!(f(j.demand), 0.5);
    assert_eq!(j.pattern, Some(3));
    assert_eq!(j.name.as_deref(), Some("east side"));
    assert_eq!(j.head, None);
}
