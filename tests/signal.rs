use pyvm::signal::{assert_in_range, check_signals, set_interrupt_ex, SignalState, NSIG};

#[test]
fn signal_numbers_in_range() {
    assert!(assert_in_range(0).is_err());
    assert!(assert_in_range(1).is_ok());
    assert!(assert_in_range(63).is_ok());
    assert!(assert_in_range(NSIG as i32).is_err());
    assert!(assert_in_range(-2).is_err());
}

#[test]
fn interrupt_marks_signal_pending() {
    let mut s = SignalState::new();
    assert!(!check_signals(&mut s, true));
    assert!(set_interrupt_ex(&mut s, 0).is_err());
    set_interrupt_ex(&mut s, 1).unwrap();
    assert!(!check_signals(&mut s, true));
    set_interrupt_ex(&mut s, 5).unwrap();
    set_interrupt_ex(&mut s, 2).unwrap();
    assert!(!check_signals(&mut s, false));
    assert!(check_signals(&mut s, true));
    assert!(!check_signals(&mut s, true));
    assert_eq!(s.take_triggered(0), Some(2));
    assert_eq!(s.take_triggered(3), Some(5));
    assert_eq!(s.take_triggered(0), None);
}

#[test]
fn triggered_flag_and_run_signal() {
    let mut s = SignalState::new();
    s.set_triggered();
    assert!(check_signals(&mut s, true));
    assert_eq!(s.take_triggered(1), None);
    s.run_signal(7);
    assert!(check_signals(&mut s, true));
    assert_eq!(s.take_triggered(8), None);
    assert_eq!(s.take_triggered(7), Some(7));
}
