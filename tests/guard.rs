use esp_periph::guard::{ClockControl, Peripheral};

#[test]
fn new_control_has_all_gates_closed() {
    let c = ClockControl::new();
    for p in [Peripheral::Aes, Peripheral::Pcnt] {
        assert_eq!(c.count_of(p), 0);
        assert!(!c.is_enabled(p));
    }
}

#[test]
fn first_acquire_opens_and_last_release_closes() {
    let mut c = ClockControl::new();
    let g1 = c.acquire(Peripheral::Pcnt);
    assert!(c.is_enabled(Peripheral::Pcnt));
    let g2 = c.acquire(Peripheral::Pcnt);
    assert_eq!(c.count_of(Peripheral::Pcnt), 2);
    c.release(g1);
    assert!(c.is_enabled(Peripheral::Pcnt));
    assert_eq!(c.count_of(Peripheral::Pcnt), 1);
    c.release(g2);
    assert!(!c.is_enabled(Peripheral::Pcnt));
    assert_eq!(c.count_of(Peripheral::Pcnt), 0);
    assert!(!c.is_enabled(Peripheral::Aes));
}

#[test]
fn gate_follows_count_over_an_interleaving() {
    let mut c = ClockControl::new();
    let mut held = Vec::new();
    let pattern = [true, true, false, true, false, false, true, false, true, true, true, false, false, false];
    for acquire in pattern {
        if acquire {
            held.push(c.acquire(Peripheral::Aes));
        } else {
            let g = held.pop().unwrap();
            assert_eq!(g.peripheral(), Peripheral::Aes);
            c.release(g);
        }
        assert_eq!(c.count_of(Peripheral::Aes), held.len());
        assert_eq!(c.is_enabled(Peripheral::Aes), !held.is_empty());
        assert!(!c.is_enabled(Peripheral::Pcnt));
    }
}

#[test]
fn guards_of_distinct_peripherals_are_independent() {
    let mut c = ClockControl::new();
    let a = c.acquire(Peripheral::Aes);
    let p = c.acquire(Peripheral::Pcnt);
    c.release(a);
    assert!(!c.is_enabled(Peripheral::Aes));
    assert!(c.is_enabled(Peripheral::Pcnt));
    c.release(p);
    assert!(!c.is_enabled(Peripheral::Pcnt));
}

#[test]
fn release_of_a_foreign_guard_changes_nothing() {
    let mut other = ClockControl::new();
    let g = other.acquire(Peripheral::Aes);
    let mut c = ClockControl::new();
    c.release(g);
    assert_eq!(c.count_of(Peripheral::Aes), 0);
    assert!(!c.is_enabled(Peripheral::Aes));
}
