use wdnsolver::{Network, Solver};

#[test]
fn it_works() {
    let result = 2 + 2;
    assert_eq!(result, 4);
}

#[test]
fn version_string() {
    let solver = Solver::new(Network::default(), None);
    assert_eq!(solver.get_version(), "0.1.2");
}

#[test]
fn outcome_is_absent_before_any_analysis() {
    let solver = Solver::new(Network::default(), None);
    assert_eq!(solver.get_final_iterations(), None);
    assert_eq!(solver.get_final_errors(), None);
    assert_eq!(solver.get_time_analysis(), None);
}
