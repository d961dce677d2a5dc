use lorenz_globe::orbit::Orbit;

type State = (f32, f32, f32);

#[test]
fn filled_orbit_holds_copies_of_the_start() {
    let start: State = (1.5, -2.0, 30.0);
    let orbit = Orbit::filled(start, 600);
    assert_eq!(orbit.len(), 600);
    assert_eq!(orbit.capacity(), 600);
    assert!(orbit.to_vec().iter().all(|s| *s == start));
}

#[test]
fn length_grows_from_one_state_up_to_capacity() {
    let cap: usize = 5;
    let mut orbit: Orbit<u32> = Orbit::empty(cap);
    orbit.push(0);
    assert_eq!(orbit.len(), 1);
    for n in 1..=12u32 {
        orbit.push(n);
        let expected = std::cmp::min(n as usize + 1, cap);
        assert_eq!(orbit.len(), expected);
    }
}

#[test]
fn full_orbit_evicts_the_oldest_first() {
    let mut orbit: Orbit<u32> = Orbit::empty(3);
    for n in 0..7u32 {
        orbit.push(n);
    }
    assert_eq!(orbit.to_vec(), vec![4, 5, 6]);
    assert_eq!(orbit.get(0), 4);
    assert_eq!(orbit.get(2), 6);
    assert_eq!(orbit.newest(), 6);
}

#[test]
fn window_keeps_chronological_order_across_wraps() {
    let mut orbit: Orbit<u32> = Orbit::filled(0, 4);
    let mut pushed: Vec<u32> = vec![0, 0, 0, 0];
    for n in 1..=10u32 {
        orbit.push(n);
        pushed.push(n);
        let expected = pushed[pushed.len() - 4..].to_vec();
        assert_eq!(orbit.to_vec(), expected);
        assert_eq!(orbit.get(0), expected[0]);
        assert_eq!(orbit.newest(), n);
    }
}

#[test]
fn capacity_one_keeps_only_the_newest() {
    let mut orbit: Orbit<u32> = Orbit::empty(1);
    orbit.push(8);
    orbit.push(9);
    assert_eq!(orbit.to_vec(), vec![9]);
}
