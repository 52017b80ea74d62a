use bladerf_power::exit::{exit_code, EXIT_OK, EXIT_SOFTWARE};

#[test]
fn graceful_run_exits_with_zero() {
    assert_eq!(exit_code(true), 0);
    assert_eq!(exit_code(true), EXIT_OK);
    assert_eq!(exit_code(true), exitcode::OK);
}

#[test]
fn failed_run_exits_with_software_failure() {
    assert_eq!(exit_code(false), 70);
    assert_eq!(exit_code(false), EXIT_SOFTWARE);
    assert_eq!(exit_code(false), exitcode::SOFTWARE);
}
