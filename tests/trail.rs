use lorenz_globe::trail::{Anchor, Line, TrailWalk};

#[test]
fn unmoved_particle_draws_nothing() {
    let mut walk = TrailWalk::start(600);
    let mut lines: Vec<Line> = Vec::new();
    while !walk.is_done() {
        lines.extend(walk.visit(true, false, true));
    }
    assert!(lines.is_empty());
    assert_eq!(walk.pre_index(), 0);
    assert_eq!(walk.cur_index(), 600);
}

#[test]
fn seam_crossing_draws_two_lines_to_the_seam() {
    let pre_lon: f32 = 3.0;
    let cur_lon: f32 = -3.0;
    let crosses = (pre_lon - cur_lon).abs() > std::f32::consts::PI;
    assert!(crosses);
    let mut walk = TrailWalk::start(2);
    let lines = walk.visit(false, crosses, true);
    assert_eq!(lines.len(), 2);
    assert_eq!(lines[0], Line { start: Anchor::Seam(0), end: Anchor::Point(0), visible: true });
    assert_eq!(lines[1], Line { start: Anchor::Seam(1), end: Anchor::Point(1), visible: true });
    assert_eq!(walk.pre_index(), 1);
    assert!(walk.is_done());
}

#[test]
fn near_point_draws_a_transparent_line() {
    let mut walk = TrailWalk::start(3);
    let lines = walk.visit(false, false, false);
    assert_eq!(lines, vec![Line { start: Anchor::Point(0), end: Anchor::Point(1), visible: false }]);
}

#[test]
fn skipped_points_keep_the_last_drawn_point() {
    let mut walk = TrailWalk::start(4);
    assert!(walk.visit(true, false, true).is_empty());
    assert_eq!(walk.pre_index(), 0);
    let lines = walk.visit(false, false, true);
    assert_eq!(lines, vec![Line { start: Anchor::Point(0), end: Anchor::Point(2), visible: true }]);
    assert_eq!(walk.pre_index(), 2);
    assert_eq!(walk.cur_index(), 3);
    assert!(!walk.is_done());
}

#[test]
fn single_point_orbit_is_done_at_once() {
    let walk = TrailWalk::start(1);
    assert!(walk.is_done());
}
