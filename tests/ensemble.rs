use lorenz_globe::ensemble::Ensemble;

#[test]
fn new_ensemble_starts_at_tick_zero() {
    let starts: Vec<i32> = vec![3, -4, 5];
    let e = Ensemble::new(&starts, 10);
    assert_eq!(e.len(), 3);
    assert_eq!(e.ticks_elapsed(), 0);
    assert_eq!(e.lasts(), starts);
    assert_eq!(e.orbit(1), vec![-4; 10]);
}

#[test]
fn ticks_count_every_advance() {
    let starts: Vec<i32> = vec![0, 100];
    let mut e = Ensemble::new(&starts, 4);
    let k: u64 = 250;
    for _ in 0..k {
        let nexts: Vec<i32> = e.lasts().iter().map(|s| s + 1).collect();
        e.advance(&nexts);
    }
    assert_eq!(e.ticks_elapsed(), k);
    let theta = e.ticks_elapsed() as f32 * 0.0003f32;
    assert!((theta - 0.075).abs() < 1e-6);
    assert_eq!(e.lasts(), vec![250, 350]);
    assert_eq!(e.orbit(0), vec![247, 248, 249, 250]);
    assert_eq!(e.orbit(1), vec![347, 348, 349, 350]);
}

#[test]
fn particles_advance_independently() {
    let starts: Vec<i32> = vec![1, 2];
    let mut e = Ensemble::new(&starts, 2);
    e.advance(&vec![10, 20]);
    assert_eq!(e.orbit(0), vec![1, 10]);
    assert_eq!(e.orbit(1), vec![2, 20]);
    assert_eq!(e.ticks_elapsed(), 1);
}

#[test]
fn empty_ensemble_still_ticks() {
    let mut e: Ensemble<i32> = Ensemble::new(&Vec::new(), 5);
    e.advance(&Vec::new());
    assert_eq!(e.len(), 0);
    assert_eq!(e.ticks_elapsed(), 1);
}
