use kernel_boot::steady::{
    driver_inventory, steady_prelude, Emission, SteadyAction, SteadyPhase, SteadyState,
};
use kernel_boot::timer::{Duration, Timer};

#[test]
fn empty_inventory() {
    assert!(driver_inventory(&vec![]).is_empty());
    let timer = Timer::new(52).unwrap();
    let lines = steady_prelude(&"Raspberry Pi 3".to_string(), &timer, &vec![]);
    assert_eq!(
        lines,
        vec![
            Emission::BootingOn("Raspberry Pi 3".to_string()),
            Emission::TimerResolution(52),
            Emission::DriversLoaded,
        ]
    );
}

#[test]
fn inventory_is_one_based_in_order() {
    let ids = vec!["GPIO".to_string(), "PL011Uart".to_string()];
    let timer = Timer::new(52).unwrap();
    let lines = steady_prelude(&"board".to_string(), &timer, &ids);
    assert_eq!(lines.len(), 5);
    assert_eq!(lines[3], Emission::DriverEntry(1, "GPIO".to_string()));
    assert_eq!(lines[4], Emission::DriverEntry(2, "PL011Uart".to_string()));
}

#[test]
fn steady_state_loops_forever() {
    let mut s = SteadyState::new();
    assert_eq!(s.action(), SteadyAction::EmitPrelude);
    s.step();
    assert_eq!(s.action(), SteadyAction::SpinFor(Duration::from_nanos(1)));
    s.step();
    assert_eq!(s.phase, SteadyPhase::Status);
    for _ in 0..100 {
        assert_eq!(s.action(), SteadyAction::EmitStatus(Duration::from_secs(1)));
        s.step();
        assert_eq!(s.action(), SteadyAction::SpinFor(Duration::from_secs(1)));
        s.step();
    }
    assert_eq!(s.phase, SteadyPhase::Status);
}
