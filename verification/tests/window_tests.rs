use inetm::window::AdmissionWindow;

#[test]
fn window_never_exceeds_its_bound() {
    // Schedule 9 tasks under a bound of 2 the way the stages do: admit while
    // below the bound, wait for one completion when full.
    let limit = 2usize;
    let mut w = AdmissionWindow::new(limit);
    let mut in_flight_high_water = 0usize;
    for _task in 0..9 {
        if w.is_full() {
            // One completion is observed before the next admission.
            w.complete();
        }
        w.enter();
        in_flight_high_water = in_flight_high_water.max(w.in_flight);
        assert!(w.in_flight <= limit);
    }
    while w.in_flight > 0 {
        w.complete();
        assert!(w.in_flight <= limit);
    }
    assert_eq!(in_flight_high_water, limit);
}

#[test]
fn window_of_one_serializes() {
    let mut w = AdmissionWindow::new(1);
    w.enter();
    assert!(w.is_full());
    w.complete();
    assert!(!w.is_full());
    w.enter();
    assert_eq!(w.in_flight, 1);
}

#[test]
fn drain_can_run_under_capacity() {
    // After a completion the window transiently holds fewer than the bound:
    // the discipline is an admission window, not a refilled pool.
    let mut w = AdmissionWindow::new(3);
    w.enter();
    w.enter();
    w.enter();
    w.complete();
    assert_eq!(w.in_flight, 2);
    assert!(!w.is_full());
}
